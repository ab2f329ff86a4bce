use trieve_server::errors::ServiceError;
use trieve_server::user::{
    default_records, should_refresh_login, slim_user_of_key, split_rows, ApiKeyRole, KeyRow, Organization,
    SlimUser, User, UserOrganization, UserRole, UserRow,
};

fn user(id: u128) -> User {
    User { id, email: format!("user{}@example.com", id), name: Some(format!("user {}", id)), created_at: 1, updated_at: 2 }
}

fn membership(id: u128, organization_id: u128, role: i32) -> UserOrganization {
    UserOrganization { id, user_id: 1, organization_id, role, created_at: 1, updated_at: 2 }
}

fn organization(id: u128) -> Organization {
    Organization { id, name: format!("org {}", id), created_at: 1, updated_at: 2 }
}

fn key_row(membership_id: u128, organization_id: u128, role: i32, api_key_role: i32) -> KeyRow {
    KeyRow {
        user: user(1),
        user_org: membership(membership_id, organization_id, role),
        org: organization(organization_id),
        api_key_role,
    }
}

#[test]
fn rows_are_split_into_user_memberships_and_organizations() {
    let rows = vec![
        UserRow { user: user(1), user_org: membership(10, 100, 2), org: organization(100) },
        UserRow { user: user(1), user_org: membership(11, 101, 0), org: organization(101) },
    ];
    let (u, memberships, organizations) = split_rows(rows).unwrap();
    assert_eq!(u.id, 1);
    assert_eq!(u.email, "user1@example.com");
    assert_eq!(memberships, vec![membership(10, 100, 2), membership(11, 101, 0)]);
    let names: Vec<&str> = organizations.iter().map(|o| o.name.as_str()).collect();
    assert_eq!(names, vec!["org 100", "org 101"]);
}

#[test]
fn no_rows_split_into_nothing() {
    assert!(split_rows(vec![]).is_none());
}

#[test]
fn a_key_that_belongs_to_no_user_is_rejected() {
    match slim_user_of_key(vec![]) {
        Err(ServiceError::BadRequest(message)) => assert_eq!(message, "User not found"),
        other => panic!("unexpected result {:?}", other),
    }
}

#[test]
fn a_read_only_key_lowers_every_role_to_zero() {
    let found = slim_user_of_key(vec![key_row(10, 100, 2, 0), key_row(11, 101, 1, 0)]).unwrap();
    assert_eq!(found.id, 1);
    assert_eq!(found.email, "user1@example.com");
    assert_eq!(found.name, Some("user 1".to_string()));
    assert_eq!(found.user_orgs, vec![membership(10, 100, 0), membership(11, 101, 0)]);
    let ids: Vec<u128> = found.orgs.iter().map(|o| o.id).collect();
    assert_eq!(ids, vec![100, 101]);
}

#[test]
fn a_key_that_may_write_leaves_the_roles_as_they_are() {
    let found = slim_user_of_key(vec![key_row(10, 100, 2, 1), key_row(11, 101, 1, 1)]).unwrap();
    assert_eq!(found.user_orgs, vec![membership(10, 100, 2), membership(11, 101, 1)]);
}

#[test]
fn the_first_row_of_a_membership_decides_for_its_repetitions() {
    let rows = vec![key_row(10, 100, 2, 1), key_row(10, 100, 2, 0), key_row(11, 101, 2, 0), key_row(11, 101, 2, 1)];
    let found = slim_user_of_key(rows).unwrap();
    assert_eq!(
        found.user_orgs,
        vec![membership(10, 100, 2), membership(10, 100, 2), membership(11, 101, 0), membership(11, 101, 0)]
    );
}

#[test]
fn a_slim_user_takes_over_the_details() {
    let slim = SlimUser::from_details(user(5), vec![membership(1, 2, 3)], vec![organization(2)]);
    assert_eq!(slim.id, 5);
    assert_eq!(slim.email, "user5@example.com");
    assert_eq!(slim.user_orgs.len(), 1);
    assert_eq!(slim.orgs[0].id, 2);
}

#[test]
fn the_login_is_renewed_only_for_the_caller_and_with_a_request() {
    assert!(should_refresh_login(true, Some(7), 7));
    assert!(!should_refresh_login(false, Some(7), 7));
    assert!(!should_refresh_login(true, Some(8), 7));
    assert!(!should_refresh_login(true, None, 7));
}

#[test]
fn roles_stand_for_their_levels() {
    assert_eq!(UserRole::Owner.to_level(), 2);
    assert_eq!(UserRole::Admin.to_level(), 1);
    assert_eq!(UserRole::User.to_level(), 0);
    assert_eq!(ApiKeyRole::Read.to_level(), 0);
    assert_eq!(ApiKeyRole::ReadAndWrite.to_level(), 1);
    for role in [UserRole::Owner, UserRole::Admin, UserRole::User] {
        assert_eq!(UserRole::from_level(role.to_level()), Some(role));
    }
    assert_eq!(UserRole::from_level(3), None);
    assert_eq!(UserRole::from_level(-1), None);
}

#[test]
fn the_default_user_owns_the_default_organization_and_holds_a_key_that_may_write() {
    let records = default_records("hash of the key".to_string());
    assert_eq!(records.user_id, 0);
    assert_eq!(records.email, "default");
    assert_eq!(records.organization, "default");
    assert_eq!(records.user_role, 2);
    assert_eq!(records.api_key_hash, "hash of the key");
    assert_eq!(records.key_name, "default");
    assert_eq!(records.key_role, 1);
}
