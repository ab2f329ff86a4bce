//! Users, their organizations, and what is made of the rows that the
//! metadata store returns for them.

use vstd::prelude::*;
use crate::errors::ServiceError;
use crate::ids::NIL;

verus! {

/// What a user may do in an organization.
#[derive(Debug, PartialEq, Eq, Structural, Clone, Copy)]
pub enum UserRole {
    Owner,
    Admin,
    User,
}

/// What an API key may do.
#[derive(Debug, PartialEq, Eq, Structural, Clone, Copy)]
pub enum ApiKeyRole {
    Read,
    ReadAndWrite,
}

/// A user.
#[derive(Debug, Clone, PartialEq, Eq)]
pub struct User {
    pub id: u128,
    pub email: String,
    pub name: Option<String>,
    pub created_at: i64,
    pub updated_at: i64,
}

/// The membership of a user in an organization.
#[derive(Debug, PartialEq, Eq, Structural, Clone, Copy)]
pub struct UserOrganization {
    pub id: u128,
    pub user_id: u128,
    pub organization_id: u128,
    pub role: i32,
    pub created_at: i64,
    pub updated_at: i64,
}

/// An organization.
#[derive(Debug, Clone, PartialEq, Eq)]
pub struct Organization {
    pub id: u128,
    pub name: String,
    pub created_at: i64,
    pub updated_at: i64,
}

/// A user with the organizations they belong to.
#[derive(Debug, Clone, PartialEq, Eq)]
pub struct SlimUser {
    pub id: u128,
    pub name: Option<String>,
    pub email: String,
    pub user_orgs: Vec<UserOrganization>,
    pub orgs: Vec<Organization>,
}

/// What is written when the default user is set up: the user, its
/// organization, its membership and its API key.
#[derive(Debug, Clone, PartialEq, Eq)]
pub struct DefaultRecords {
    pub user_id: u128,
    pub email: String,
    pub organization: String,
    pub user_role: i32,
    pub api_key_hash: String,
    pub key_name: String,
    pub key_role: i32,
}

/// A row of the join of users, memberships and organizations.
#[derive(Debug, Clone, PartialEq, Eq)]
pub struct UserRow {
    pub user: User,
    pub user_org: UserOrganization,
    pub org: Organization,
}

/// A row of the join of users, memberships, organizations and API keys.
#[derive(Debug, Clone, PartialEq, Eq)]
pub struct KeyRow {
    pub user: User,
    pub user_org: UserOrganization,
    pub org: Organization,
    /// The role of the API key; zero is read-only.
    pub api_key_role: i32,
}

/// The memberships of the rows, in order.
pub open spec fn memberships(rows: Seq<UserRow>) -> Seq<UserOrganization> {
    Seq::new(rows.len(), |i: int| rows[i].user_org)
}

/// The organizations of the rows, in order.
pub open spec fn organizations(rows: Seq<UserRow>) -> Seq<Organization> {
    Seq::new(rows.len(), |i: int| rows[i].org)
}

/// The memberships and key roles of the rows, in order.
pub open spec fn noted(rows: Seq<KeyRow>) -> Seq<(u128, i32)> {
    Seq::new(rows.len(), |i: int| (rows[i].user_org.id, rows[i].api_key_role))
}

/// The key role that is noted first for a membership.
pub open spec fn first_seen(seen: Seq<(u128, i32)>, id: u128) -> Option<i32>
    decreases seen.len(),
{
    if seen.len() == 0 {
        None
    } else if seen[0].0 == id {
        Some(seen[0].1)
    } else {
        first_seen(seen.drop_first(), id)
    }
}

/// The membership of row `i` as the key allows it: where the key of the
/// first row with the same membership is read-only, the role is lowered to
/// zero.
pub open spec fn allowed(rows: Seq<KeyRow>, i: int) -> UserOrganization {
    if first_seen(noted(rows), rows[i].user_org.id) == Some(0i32) {
        UserOrganization { role: 0, ..rows[i].user_org }
    } else {
        rows[i].user_org
    }
}

/// The memberships of the rows as the key allows them, in order.
pub open spec fn allowed_memberships(rows: Seq<KeyRow>) -> Seq<UserOrganization> {
    Seq::new(rows.len(), |i: int| allowed(rows, i))
}

/// The organizations of the rows, in order.
pub open spec fn key_organizations(rows: Seq<KeyRow>) -> Seq<Organization> {
    Seq::new(rows.len(), |i: int| rows[i].org)
}

/// What is reported when no row was found for an API key.
pub open spec fn user_not_found() -> Seq<char> {
    "User not found"@
}

impl UserRole {
    /// The number that stands for the role in the stores: the higher, the
    /// more the role may do.
    pub open spec fn level(self) -> i32 {
        match self {
            UserRole::Owner => 2,
            UserRole::Admin => 1,
            UserRole::User => 0,
        }
    }

    /// The number that stands for the role.
    pub fn to_level(&self) -> (level: i32)
        ensures
            level == self.level(),
    {
        match self {
            UserRole::Owner => 2,
            UserRole::Admin => 1,
            UserRole::User => 0,
        }
    }

    /// The role that a number stands for, if it stands for one.
    pub fn from_level(level: i32) -> (role: Option<UserRole>)
        ensures
            role matches Some(r) ==> r.level() == level,
            role is None <==> !(0 <= level <= 2),
    {
        if level == 2 {
            Some(UserRole::Owner)
        } else if level == 1 {
            Some(UserRole::Admin)
        } else if level == 0 {
            Some(UserRole::User)
        } else {
            None
        }
    }
}

impl ApiKeyRole {
    /// The number that stands for the role in the stores; zero is
    /// read-only.
    pub open spec fn level(self) -> i32 {
        match self {
            ApiKeyRole::Read => 0,
            ApiKeyRole::ReadAndWrite => 1,
        }
    }

    /// The number that stands for the role.
    pub fn to_level(&self) -> (level: i32)
        ensures
            level == self.level(),
    {
        match self {
            ApiKeyRole::Read => 0,
            ApiKeyRole::ReadAndWrite => 1,
        }
    }
}

impl SlimUser {
    /// The user with their memberships and organizations.
    pub fn from_details(user: User, user_orgs: Vec<UserOrganization>, orgs: Vec<Organization>) -> (slim:
        SlimUser)
        ensures
            slim.id == user.id,
            slim.name == user.name,
            slim.email == user.email,
            slim.user_orgs == user_orgs,
            slim.orgs == orgs,
    {
        SlimUser { id: user.id, name: user.name, email: user.email, user_orgs, orgs }
    }
}

/// Makes a user with their memberships and organizations of the rows of
/// the join: the user of the first row, and the memberships and the
/// organizations of all rows in order. Without rows there is nothing.
pub fn split_rows(rows: Vec<UserRow>) -> (split: Option<(User, Vec<UserOrganization>, Vec<Organization>)>)
    ensures
        split is None <==> rows@.len() == 0,
        split matches Some(parts) ==> {
            &&& parts.0 == rows@[0].user
            &&& parts.1@ == memberships(rows@)
            &&& parts.2@ == organizations(rows@)
        },
{
    let mut first: Option<User> = None;
    let mut user_orgs: Vec<UserOrganization> = Vec::new();
    let mut orgs: Vec<Organization> = Vec::new();
    for row in it: rows
        invariant
            it.seq() == rows@,
            user_orgs@ == memberships(rows@.take(it.index() as int)),
            orgs@ == organizations(rows@.take(it.index() as int)),
            first is None <==> it.index() == 0,
            first matches Some(u) ==> u == rows@[0].user,
    {
        proof {
            let before = rows@.take(it.index() as int);
            let after = rows@.take(it.index() + 1);
            assert(memberships(after) =~= memberships(before).push(row.user_org));
            assert(organizations(after) =~= organizations(before).push(row.org));
        }
        let UserRow { user, user_org, org } = row;
        if first.is_none() {
            first = Some(user);
        }
        user_orgs.push(user_org);
        orgs.push(org);
    }
    proof {
        assert(rows@.take(rows@.len() as int) == rows@);
    }
    match first {
        Some(user) => Some((user, user_orgs, orgs)),
        None => None,
    }
}

fn first_key_role(seen: &Vec<(u128, i32)>, id: u128, own: i32) -> (role: i32)
    ensures
        role == match first_seen(seen@, id) {
            Some(r) => r,
            None => own,
        },
{
    let mut k: usize = 0;
    while k < seen.len()
        invariant
            k <= seen.len(),
            forall|j: int| 0 <= j < k ==> (#[trigger] seen@[j]).0 != id,
        decreases seen.len() - k,
    {
        if seen[k].0 == id {
            proof {
                lemma_first_seen(seen@, id, k as int);
            }
            return seen[k].1;
        }
        k += 1;
    }
    proof {
        lemma_not_seen(seen@, id);
    }
    own
}

proof fn lemma_first_seen(seen: Seq<(u128, i32)>, id: u128, k: int)
    requires
        0 <= k < seen.len(),
        seen[k].0 == id,
        forall|j: int| 0 <= j < k ==> (#[trigger] seen[j]).0 != id,
    ensures
        first_seen(seen, id) == Some(seen[k].1),
    decreases seen.len(),
{
    if k > 0 {
        assert(seen[0].0 != id);
        let rest = seen.drop_first();
        assert forall|j: int| 0 <= j < k - 1 implies (#[trigger] rest[j]).0 != id by {
            assert(seen[j + 1].0 != id);
        }
        lemma_first_seen(rest, id, k - 1);
    }
}

proof fn lemma_not_seen(seen: Seq<(u128, i32)>, id: u128)
    requires
        forall|j: int| 0 <= j < seen.len() ==> (#[trigger] seen[j]).0 != id,
    ensures
        first_seen(seen, id) is None,
    decreases seen.len(),
{
    if seen.len() > 0 {
        assert(seen[0].0 != id);
        let rest = seen.drop_first();
        assert forall|j: int| 0 <= j < rest.len() implies (#[trigger] rest[j]).0 != id by {
            assert(seen[j + 1].0 != id);
        }
        lemma_not_seen(rest, id);
    }
}

proof fn lemma_first_seen_in_parts(front: Seq<(u128, i32)>, back: Seq<(u128, i32)>, id: u128)
    ensures
        first_seen(front + back, id) == match first_seen(front, id) {
            Some(r) => Some(r),
            None => first_seen(back, id),
        },
    decreases front.len(),
{
    if front.len() == 0 {
        assert(front + back =~= back);
    } else {
        assert((front + back).drop_first() =~= front.drop_first() + back);
        assert((front + back)[0] == front[0]);
        if front[0].0 != id {
            lemma_first_seen_in_parts(front.drop_first(), back, id);
        }
    }
}

proof fn lemma_allowed_by_notes(rows: Seq<KeyRow>, i: int)
    requires
        0 <= i < rows.len(),
    ensures
        first_seen(noted(rows), rows[i].user_org.id) == Some(
            match first_seen(noted(rows.take(i)), rows[i].user_org.id) {
                Some(r) => r,
                None => rows[i].api_key_role,
            },
        ),
{
    let id = rows[i].user_org.id;
    let front = noted(rows.take(i));
    let back = noted(rows.skip(i));
    assert(noted(rows) =~= front + back);
    lemma_first_seen_in_parts(front, back, id);
    assert(back[0] == (id, rows[i].api_key_role));
}

/// Makes the user of an API key of the rows of the join.
///
/// Without rows the key belongs to no user, and the request is rejected
/// with `User not found`. Else the user is the one of the first row, with
/// the organizations of all rows, and with the memberships of all rows as
/// the key allows them: a read-only key lowers the role to zero.
pub fn slim_user_of_key(rows: Vec<KeyRow>) -> (found: Result<SlimUser, ServiceError>)
    ensures
        found is Err <==> rows@.len() == 0,
        found matches Err(e) ==> e matches ServiceError::BadRequest(m) && m@ == user_not_found(),
        found matches Ok(user) ==> {
            &&& user.id == rows@[0].user.id
            &&& user.name == rows@[0].user.name
            &&& user.email == rows@[0].user.email
            &&& user.user_orgs@ == allowed_memberships(rows@)
            &&& user.orgs@ == key_organizations(rows@)
        },
{
    let mut first: Option<User> = None;
    let mut user_orgs: Vec<UserOrganization> = Vec::new();
    let mut orgs: Vec<Organization> = Vec::new();
    let mut notes: Vec<(u128, i32)> = Vec::new();
    for row in it: rows
        invariant
            it.seq() == rows@,
            notes@ == noted(rows@.take(it.index() as int)),
            user_orgs@ == allowed_memberships(rows@).take(it.index() as int),
            orgs@ == key_organizations(rows@.take(it.index() as int)),
            first is None <==> it.index() == 0,
            first matches Some(u) ==> u == rows@[0].user,
    {
        let ghost i = it.index() as int;
        proof {
            let before = rows@.take(i);
            let after = rows@.take(i + 1);
            assert(key_organizations(after) =~= key_organizations(before).push(row.org));
            assert(noted(after) =~= noted(before).push((row.user_org.id, row.api_key_role)));
            assert(rows@[i] == row);
            lemma_allowed_by_notes(rows@, i);
            assert(allowed_memberships(rows@).take(i + 1) =~= allowed_memberships(rows@).take(
                i,
            ).push(allowed(rows@, i)));
        }
        let KeyRow { user, user_org, org, api_key_role } = row;
        let key_role = first_key_role(&notes, user_org.id, api_key_role);
        let membership = if key_role == 0 {
            UserOrganization {
                id: user_org.id,
                user_id: user_org.user_id,
                organization_id: user_org.organization_id,
                role: 0,
                created_at: user_org.created_at,
                updated_at: user_org.updated_at,
            }
        } else {
            user_org
        };
        if first.is_none() {
            first = Some(user);
        }
        user_orgs.push(membership);
        orgs.push(org);
        notes.push((user_org.id, api_key_role));
    }
    proof {
        assert(rows@.take(rows@.len() as int) == rows@);
        assert(allowed_memberships(rows@).take(rows@.len() as int) =~= allowed_memberships(rows@));
    }
    match first {
        Some(user) => Ok(SlimUser::from_details(user, user_orgs, orgs)),
        None => Err(ServiceError::BadRequest(String::from_str("User not found"))),
    }
}

/// The records of the default user: the user with the nil id and the
/// address `default`, who owns the organization `default` and holds the key
/// `default`, which may read and write and is stored as `api_key_hash`.
pub fn default_records(api_key_hash: String) -> (records: DefaultRecords)
    ensures
        records.user_id == NIL,
        records.email@ == "default"@,
        records.organization@ == "default"@,
        records.user_role == UserRole::Owner.level(),
        records.api_key_hash == api_key_hash,
        records.key_name@ == "default"@,
        records.key_role == ApiKeyRole::ReadAndWrite.level(),
{
    DefaultRecords {
        user_id: NIL,
        email: String::from_str("default"),
        organization: String::from_str("default"),
        user_role: UserRole::Owner.to_level(),
        api_key_hash,
        key_name: String::from_str("default"),
        key_role: ApiKeyRole::ReadAndWrite.to_level(),
    }
}

/// Whether the login of the caller is renewed after a user joined an
/// organization: the request is at hand and the caller is that user.
pub fn should_refresh_login(has_request: bool, calling_user_id: Option<u128>, user_id: u128) -> (refresh:
    bool)
    ensures
        refresh == (has_request && calling_user_id == Some(user_id)),
{
    has_request && match calling_user_id {
        Some(id) => id == user_id,
        None => false,
    }
}

} // verus!
