use trieve_server::events::{Event, EventType};
use trieve_server::ids::{resolve_id, NIL, VARIANT_WEIGHT, VERSION_WEIGHT};
use trieve_server::invitation::registration_url;

#[test]
fn a_known_id_wins_over_the_fresh_one() {
    assert_eq!(resolve_id(Some(5), 9), 5);
    assert_eq!(resolve_id(None, 9), 9);
    assert_eq!(resolve_id(Some(NIL), 9), 0);
}

#[test]
fn the_weights_mark_version_and_variant() {
    assert_eq!(VERSION_WEIGHT, 1u128 << 76);
    assert_eq!(VARIANT_WEIGHT, 1u128 << 62);
    for _ in 0..50 {
        let id = uuid::Uuid::new_v4().as_u128();
        assert_eq!((id / VERSION_WEIGHT) % 16, 4);
        assert_eq!((id / VARIANT_WEIGHT) % 4, 2);
    }
}

#[test]
fn the_nil_id_is_the_nil_uuid() {
    assert_eq!(uuid::Uuid::from_u128(NIL), uuid::Uuid::nil());
}

#[test]
fn ids_are_written_in_hyphenated_lower_case() {
    for id in [0u128, 1, u128::MAX, 0x0123456789abcdef_fedcba9876543210, 10u128 << 124] {
        let url = registration_url("", id, id, "");
        let text = uuid::Uuid::from_u128(id).to_string();
        assert_eq!(url, format!("/auth?inv_code={}&organization_id={}&redirect_uri=", text, text));
    }
    let url = registration_url("", 0x0123456789abcdef_fedcba9876543210, NIL, "");
    assert_eq!(
        url,
        "/auth?inv_code=01234567-89ab-cdef-fedc-ba9876543210&organization_id=00000000-0000-0000-0000-000000000000&redirect_uri="
    );
}

#[test]
fn an_event_keeps_its_details() {
    let event = Event::from_details(4, EventType::CardUploaded { chunk_id: 9 });
    assert_eq!(event.dataset_id, 4);
    assert!(matches!(event.event_type, EventType::CardUploaded { chunk_id: 9 }));
}
