//! The mails that the service sends, as plain values; sending is left to
//! the caller.

use vstd::prelude::*;
use crate::ids::{hyphenated, id_text};
use crate::text::join_text;

verus! {

/// A mail that is ready to be sent.
#[derive(Debug, Clone, PartialEq, Eq)]
pub struct OutgoingEmail {
    pub from: String,
    pub to: String,
    pub subject: String,
    pub content_type: String,
    pub body: String,
}

/// The mathematical content of an [`OutgoingEmail`].
pub struct OutgoingEmailView {
    pub from: Seq<char>,
    pub to: Seq<char>,
    pub subject: Seq<char>,
    pub content_type: Seq<char>,
    pub body: Seq<char>,
}

impl View for OutgoingEmail {
    type V = OutgoingEmailView;

    open spec fn view(&self) -> OutgoingEmailView {
        OutgoingEmailView {
            from: self.from@,
            to: self.to@,
            subject: self.subject@,
            content_type: self.content_type@,
            body: self.body@,
        }
    }
}

/// The address that the service sends from.
pub open spec fn sender() -> Seq<char> {
    "no-reply@arguflow.com"@
}

/// The body of the mail that completes a registration.
pub open spec fn registration_body(id: u128, email: Seq<char>, expires: Seq<char>) -> Seq<char> {
    "Please click on the link below to complete registration. <br/>\n         <a href=\"http://localhost:3000/register.html?id="@
        + hyphenated(id) + "&email="@ + email
        + "\">\n         http://localhost:3030/register</a> <br>\n         your Invitation expires at <strong>"@
        + expires + "</strong>"@
}

/// The body of the mail that resets a password.
pub open spec fn reset_body(id: u128, email: Seq<char>, expires: Seq<char>) -> Seq<char> {
    "Please click on the link below to reset your password. <br/>\n         <a href=\"http://localhost:3000/reset-password.html?id="@
        + hyphenated(id) + "&email="@ + email
        + "\">\n         http://localhost:3030/reset-password</a> <br>\n         your password reset link expires at <strong>"@
        + expires + "</strong>"@
}

/// The mail that invites `email` to complete the registration `id`, which
/// expires at the time that `expires` spells out.
pub open spec fn registration_mail(id: u128, email: Seq<char>, expires: Seq<char>) -> OutgoingEmailView {
    OutgoingEmailView {
        from: sender(),
        to: email,
        subject: "You have been invited to join Arguflow Editor"@,
        content_type: "text/html"@,
        body: registration_body(id, email, expires),
    }
}

/// The mail that lets `email` reset their password with the request `id`,
/// which expires at the time that `expires` spells out.
pub open spec fn reset_mail(id: u128, email: Seq<char>, expires: Seq<char>) -> OutgoingEmailView {
    OutgoingEmailView {
        from: sender(),
        to: email,
        subject: "Reset your Arguflow Editor password"@,
        content_type: "text/html"@,
        body: reset_body(id, email, expires),
    }
}

fn body_of(opening: &str, id: u128, email: &str, middle: &str, expires: &str) -> (body: String)
    ensures
        body@ == opening@ + hyphenated(id) + "&email="@ + email@ + middle@ + expires@
            + "</strong>"@,
{
    let mut body = join_text(opening, id_text(id).as_str());
    body.append("&email=");
    body.append(email);
    body.append(middle);
    body.append(expires);
    body.append("</strong>");
    body
}

/// Writes the mail that invites to complete a registration.
pub fn invitation_mail(id: u128, email: &str, expires: &str) -> (mail: OutgoingEmail)
    ensures
        mail@ == registration_mail(id, email@, expires@),
{
    OutgoingEmail {
        from: String::from_str("no-reply@arguflow.com"),
        to: String::from_str(email),
        subject: String::from_str("You have been invited to join Arguflow Editor"),
        content_type: String::from_str("text/html"),
        body: body_of(
            "Please click on the link below to complete registration. <br/>\n         <a href=\"http://localhost:3000/register.html?id=",
            id,
            email,
            "\">\n         http://localhost:3030/register</a> <br>\n         your Invitation expires at <strong>",
            expires,
        ),
    }
}

/// Writes the mail that lets a user reset their password.
pub fn password_reset_mail(id: u128, email: &str, expires: &str) -> (mail: OutgoingEmail)
    ensures
        mail@ == reset_mail(id, email@, expires@),
{
    OutgoingEmail {
        from: String::from_str("no-reply@arguflow.com"),
        to: String::from_str(email),
        subject: String::from_str("Reset your Arguflow Editor password"),
        content_type: String::from_str("text/html"),
        body: body_of(
            "Please click on the link below to reset your password. <br/>\n         <a href=\"http://localhost:3000/reset-password.html?id=",
            id,
            email,
            "\">\n         http://localhost:3030/reset-password</a> <br>\n         your password reset link expires at <strong>",
            expires,
        ),
    }
}

} // verus!
