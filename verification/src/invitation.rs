//! Invitations to an organization: the request, the registration link, the
//! invitation mail and the check of an invitation that comes back.

use vstd::prelude::*;
use crate::errors::{DefaultError, ServiceError};
use crate::ids::{hyphenated, id_text};
use crate::text::join_text;

verus! {

/// An invitation as the metadata store holds it.
#[derive(Debug, Clone, PartialEq, Eq)]
pub struct Invitation {
    pub id: u128,
    pub email: String,
    pub organization_id: u128,
    pub used: bool,
    /// Seconds since the epoch.
    pub expires_at: i64,
    pub created_at: i64,
    pub updated_at: i64,
    pub role: i32,
}

/// The answer to a request for an invitation.
#[derive(Debug, Clone, PartialEq, Eq)]
pub struct InvitationResponse {
    pub registration_url: String,
}

/// A request for an invitation.
#[derive(Debug, Clone, PartialEq, Eq)]
pub struct InvitationData {
    pub organization_id: u128,
    pub email: String,
    pub app_url: String,
    pub redirect_uri: String,
}

/// An invitation with the link that registers the invited user.
#[derive(Debug, Clone, PartialEq, Eq)]
pub struct InvitationWithUrl {
    invitation: Invitation,
    registration_url: String,
}

/// Why an invitation is not accepted.
#[derive(Debug, PartialEq, Eq, Structural, Clone, Copy)]
pub enum InvitationError {
    NotFound,
    EmailMismatch,
    OrganizationMismatch,
    Expired,
    AlreadyUsed,
    NotMarkedUsed,
}

/// Whether a text matches a regular expression somewhere, in the syntax and
/// the semantics of the `regex` crate; nothing where the expression does not
/// compile.
pub uninterp spec fn regex_match(pattern: Seq<char>, text: Seq<char>) -> Option<bool>;

/// The pattern of an e-mail address: a local part of letters, digits and
/// some punctuation, an `@`, and a host of labels joined by dots.
pub open spec fn email_pattern() -> Seq<char> {
    "^[a-zA-Z0-9.!#$%&\u{2019}*+/=?^_`{|}~-]+@[a-zA-Z0-9-]+(?:\\.[a-zA-Z0-9-]+)*"@
}

/// Whether the address matches [`email_pattern`].
pub open spec fn email_is_valid(email: Seq<char>) -> bool {
    regex_match(email_pattern(), email) == Some(true)
}

/// The link that registers the invited user.
pub open spec fn registration_link(
    app_url: Seq<char>,
    invitation_id: u128,
    organization_id: u128,
    redirect_uri: Seq<char>,
) -> Seq<char> {
    app_url + "/auth?inv_code="@ + hyphenated(invitation_id) + "&organization_id="@ + hyphenated(
        organization_id,
    ) + "&redirect_uri="@ + redirect_uri
}

/// Whether a link's query starts at position `n`: there is the first
/// question mark, or the link ends there without one.
pub open spec fn is_query_start(link: Seq<char>, n: int) -> bool {
    &&& 0 <= n <= link.len()
    &&& forall|j: int| 0 <= j < n ==> link[j] != '?'
    &&& n < link.len() ==> link[n] == '?'
}

/// The part of a link before its query.
pub open spec fn before_query(link: Seq<char>) -> Seq<char> {
    link.take(choose|n: int| is_query_start(link, n))
}

/// The body of the invitation mail for the link.
pub open spec fn invitation_body(link: Seq<char>) -> Seq<char> {
    "You have been invited to join an Trieve AI dataset. <br/>\n         Please click on the link below to register. <br/>\n         <a href=\""@
        + link + "\">\n         "@ + before_query(link) + "</a>"@
}

/// What the service reports for a refused invitation.
pub open spec fn refusal(error: InvitationError) -> Seq<char> {
    match error {
        InvitationError::NotFound => "Could not find invitation for user"@,
        InvitationError::EmailMismatch => "Email does not match invitation"@,
        InvitationError::OrganizationMismatch => "Dataset ID does not match invitation"@,
        InvitationError::Expired => "Invitation has expired"@,
        InvitationError::AlreadyUsed => "Invitation has already been used"@,
        InvitationError::NotMarkedUsed => "Could not set invitation as used"@,
    }
}

/// Whether the refusal is the store's fault, not the request's.
pub open spec fn is_internal(error: InvitationError) -> bool {
    error == InvitationError::NotFound || error == InvitationError::NotMarkedUsed
}

/// The verdict on an invitation that comes back with an address and,
/// possibly, an organization at the time `now`: the first of these that
/// applies, in this order: another address, another organization, expired,
/// used. A missing organization is another organization: it matches no
/// invitation.
pub open spec fn verdict(
    invitation: Invitation,
    email: Seq<char>,
    organization_id: Option<u128>,
    now: i64,
) -> Result<(), InvitationError> {
    if invitation.email@ != email {
        Err(InvitationError::EmailMismatch)
    } else if organization_id != Some(invitation.organization_id) {
        Err(InvitationError::OrganizationMismatch)
    } else if invitation.expires_at < now {
        Err(InvitationError::Expired)
    } else if invitation.used {
        Err(InvitationError::AlreadyUsed)
    } else {
        Ok(())
    }
}

/// `regex::Regex::new` and `regex::Regex::is_match`: whether the text
/// matches the pattern somewhere; nothing where the pattern does not
/// compile. The contract only names the result.
#[verifier::external_body]
fn pattern_matches(pattern: &str, text: &str) -> (matched: Option<bool>)
    ensures
        matched == regex_match(pattern@, text@),
{
    match regex::Regex::new(pattern) {
        Ok(expression) => Some(expression.is_match(text)),
        Err(_) => None,
    }
}

/// The pattern that an e-mail address has to match.
pub fn email_regex() -> (pattern: &'static str)
    ensures
        pattern@ == email_pattern(),
{
    "^[a-zA-Z0-9.!#$%&\u{2019}*+/=?^_`{|}~-]+@[a-zA-Z0-9-]+(?:\\.[a-zA-Z0-9-]+)*"
}

/// Decides from the answer of the pattern whether an address is accepted:
/// only a match accepts it.
pub fn accepts(matched: Option<bool>) -> (accepted: bool)
    ensures
        accepted == (matched == Some(true)),
{
    match matched {
        Some(m) => m,
        None => false,
    }
}

/// Tells whether an e-mail address matches the pattern of addresses.
pub fn is_valid_email(email: &str) -> (valid: bool)
    ensures
        valid == email_is_valid(email@),
{
    accepts(pattern_matches(email_regex(), email))
}

/// Checks a request for an invitation: it is refused, with the message
/// `Invalid email`, exactly when its address does not match the pattern.
pub fn check_request(data: &InvitationData) -> (checked: Result<(), DefaultError>)
    ensures
        checked is Ok <==> email_is_valid(data.email@),
        checked matches Err(e) ==> e.message@ == "Invalid email"@,
{
    if is_valid_email(data.email.as_str()) {
        Ok(())
    } else {
        Err(DefaultError { message: String::from_str("Invalid email") })
    }
}

/// Builds the link that registers the invited user.
pub fn registration_url(
    app_url: &str,
    invitation_id: u128,
    organization_id: u128,
    redirect_uri: &str,
) -> (url: String)
    ensures
        url@ == registration_link(app_url@, invitation_id, organization_id, redirect_uri@),
{
    let mut url = join_text(app_url, "/auth?inv_code=");
    url.append(id_text(invitation_id).as_str());
    url.append("&organization_id=");
    url.append(id_text(organization_id).as_str());
    url.append("&redirect_uri=");
    url.append(redirect_uri);
    url
}

impl InvitationWithUrl {
    /// The invitation together with its registration link.
    pub fn new(invitation: Invitation, app_url: &str, organization_id: u128, redirect_uri: &str) -> (
        with_url: InvitationWithUrl
    )
        ensures
            with_url.invitation() == invitation,
            with_url.url() == registration_link(
                app_url@,
                invitation.id,
                organization_id,
                redirect_uri@,
            ),
    {
        let registration_url = registration_url(
            app_url,
            invitation.id,
            organization_id,
            redirect_uri,
        );
        InvitationWithUrl { invitation, registration_url }
    }

    /// The invitation.
    pub closed spec fn invitation(&self) -> Invitation {
        self.invitation
    }

    /// The registration link.
    pub closed spec fn url(&self) -> Seq<char> {
        self.registration_url@
    }

    /// The invitation and the registration link.
    pub fn into_parts(self) -> (parts: (Invitation, String))
        ensures
            parts.0 == self.invitation(),
            parts.1@ == self.url(),
    {
        (self.invitation, self.registration_url)
    }

    /// The answer to the request that made the invitation.
    pub fn to_response(&self) -> (response: InvitationResponse)
        ensures
            response.registration_url@ == self.url(),
    {
        InvitationResponse { registration_url: self.registration_url.clone() }
    }
}

/// Cuts a link before its query: before the first question mark, or
/// nowhere when it has none.
pub fn link_before_query(link: &str) -> (head: String)
    ensures
        head@ == before_query(link@),
{
    let total: usize = link.unicode_len();
    let mut n: usize = 0;
    while n < total && link.get_char(n) != '?'
        invariant
            n <= total,
            total == link@.len(),
            forall|j: int| 0 <= j < n ==> link@[j] != '?',
        decreases total - n,
    {
        n += 1;
    }
    proof {
        assert(is_query_start(link@, n as int));
        let chosen = choose|m: int| is_query_start(link@, m);
        assert(is_query_start(link@, chosen));
        if chosen < n {
            assert(link@[chosen] == '?');
        } else if n < chosen {
            assert(link@[n as int] == '?');
        }
    }
    String::from_str(link.substring_char(0, n))
}

/// Writes the body of the invitation mail for a registration link.
pub fn invitation_email_body(link: &str) -> (body: String)
    ensures
        body@ == invitation_body(link@),
{
    let mut body = join_text(
        "You have been invited to join an Trieve AI dataset. <br/>\n         Please click on the link below to register. <br/>\n         <a href=\"",
        link,
    );
    body.append("\">\n         ");
    body.append(link_before_query(link).as_str());
    body.append("</a>");
    body
}

impl Invitation {
    /// Whether the invitation has expired at the time `now`.
    pub fn expired(&self, now: i64) -> (expired: bool)
        ensures
            expired == (self.expires_at < now),
    {
        self.expires_at < now
    }
}

impl InvitationError {
    /// The error as the service reports it: an internal error where the
    /// store failed, else a rejected request.
    pub fn to_service_error(&self) -> (error: ServiceError)
        ensures
            error.message() == refusal(*self),
            error is InternalServerError <==> is_internal(*self),
    {
        match self {
            InvitationError::NotFound => ServiceError::InternalServerError(
                String::from_str("Could not find invitation for user"),
            ),
            InvitationError::EmailMismatch => ServiceError::BadRequest(
                String::from_str("Email does not match invitation"),
            ),
            InvitationError::OrganizationMismatch => ServiceError::BadRequest(
                String::from_str("Dataset ID does not match invitation"),
            ),
            InvitationError::Expired => ServiceError::BadRequest(
                String::from_str("Invitation has expired"),
            ),
            InvitationError::AlreadyUsed => ServiceError::BadRequest(
                String::from_str("Invitation has already been used"),
            ),
            InvitationError::NotMarkedUsed => ServiceError::InternalServerError(
                String::from_str("Could not set invitation as used"),
            ),
        }
    }
}

/// Checks an invitation that comes back with an address and, possibly, an
/// organization at the time `now`, as [`verdict`] says. A check without an
/// organization is refused like one with another organization.
pub fn validate_invitation(
    invitation: &Invitation,
    email: &str,
    organization_id: Option<u128>,
    now: i64,
) -> (checked: Result<(), InvitationError>)
    ensures
        checked == verdict(*invitation, email@, organization_id, now),
{
    let given = String::from_str(email);
    let same_organization = match organization_id {
        Some(id) => id == invitation.organization_id,
        None => false,
    };
    if invitation.email != given {
        Err(InvitationError::EmailMismatch)
    } else if !same_organization {
        Err(InvitationError::OrganizationMismatch)
    } else if invitation.expired(now) {
        Err(InvitationError::Expired)
    } else if invitation.used {
        Err(InvitationError::AlreadyUsed)
    } else {
        Ok(())
    }
}

} // verus!
