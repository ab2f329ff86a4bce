use trieve_server::email::{invitation_mail, password_reset_mail};

const ID: u128 = 0x67e55044_10b1_426f_9247_bb680e5fe0c8;

#[test]
fn the_invitation_mail_is_written_as_html_from_the_service_address() {
    let mail = invitation_mail(ID, "ada@example.com", "09:05 PM Friday, 3 May, 2024");
    assert_eq!(mail.from, "no-reply@arguflow.com");
    assert_eq!(mail.to, "ada@example.com");
    assert_eq!(mail.subject, "You have been invited to join Arguflow Editor");
    assert_eq!(mail.content_type, "text/html");
    let expected = format!(
        "Please click on the link below to complete registration. <br/>
         <a href=\"http://localhost:3000/register.html?id={}&email={}\">
         http://localhost:3030/register</a> <br>
         your Invitation expires at <strong>{}</strong>",
        uuid::Uuid::from_u128(ID),
        "ada@example.com",
        "09:05 PM Friday, 3 May, 2024"
    );
    assert_eq!(mail.body, expected);
    assert!(mail.body.contains("id=67e55044-10b1-426f-9247-bb680e5fe0c8&email="));
}

#[test]
fn the_password_reset_mail_is_written_as_html_from_the_service_address() {
    let mail = password_reset_mail(ID, "ada@example.com", "soon");
    assert_eq!(mail.from, "no-reply@arguflow.com");
    assert_eq!(mail.to, "ada@example.com");
    assert_eq!(mail.subject, "Reset your Arguflow Editor password");
    assert_eq!(mail.content_type, "text/html");
    let expected = format!(
        "Please click on the link below to reset your password. <br/>
         <a href=\"http://localhost:3000/reset-password.html?id={}&email={}\">
         http://localhost:3030/reset-password</a> <br>
         your password reset link expires at <strong>{}</strong>",
        uuid::Uuid::from_u128(ID),
        "ada@example.com",
        "soon"
    );
    assert_eq!(mail.body, expected);
}
