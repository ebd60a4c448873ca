//! The rows of the `user` and `sessions` tables and their conversions to
//! and from the domain.
use crate::ids::{SessionId, UserId};
use crate::model::{NewSession, NewUser, Session, UpdatedUser, User, UserRole, UserType};
use vstd::prelude::*;

verus! {

/// The database enumeration of roles.
#[derive(Debug, Clone, Copy, PartialEq, Eq, Structural)]
pub enum UserRoleDB {
    Admin,
    Normal,
}

/// The database value of a domain role.
pub open spec fn role_db_of(value: UserType) -> UserRoleDB {
    match value {
        UserType::Admin => UserRoleDB::Admin,
        UserType::Normal => UserRoleDB::Normal,
    }
}

/// The domain role of a database value.
pub open spec fn role_of_db(value: UserRoleDB) -> UserRole {
    match value {
        UserRoleDB::Admin => UserType::Admin,
        UserRoleDB::Normal => UserType::Normal,
    }
}

impl From<UserType> for UserRoleDB {
    fn from(value: UserType) -> (r: UserRoleDB) {
        match value {
            UserType::Admin => UserRoleDB::Admin,
            UserType::Normal => UserRoleDB::Normal,
        }
    }
}

impl vstd::std_specs::convert::FromSpecImpl<UserType> for UserRoleDB {
    open spec fn obeys_from_spec() -> bool {
        true
    }

    open spec fn from_spec(v: UserType) -> UserRoleDB {
        role_db_of(v)
    }
}

impl UserRoleDB {
    /// The domain role this database value stands for.
    pub fn into_domain(self) -> (r: UserRole)
        ensures
            r == role_of_db(self),
    {
        match self {
            UserRoleDB::Admin => UserType::Admin,
            UserRoleDB::Normal => UserType::Normal,
        }
    }
}

/// A row of the `user` table.
pub struct UserRow {
    pub id: u128,
    pub name: String,
    pub email: String,
    pub password_hash: String,
    pub created_at: i128,
    pub role: UserRoleDB,
    pub is_mfa_enabled: bool,
}

/// The user a row describes.
pub open spec fn user_of_row(row: UserRow) -> User {
    User {
        uid: UserId(row.id),
        uname: row.name,
        email: row.email,
        password_hash: row.password_hash,
        created_at: row.created_at,
        role: role_of_db(row.role),
        mfa: row.is_mfa_enabled,
    }
}

/// The row that describes a user.
pub open spec fn row_of_user(user: User) -> UserRow {
    UserRow {
        id: user.uid@,
        name: user.uname,
        email: user.email,
        password_hash: user.password_hash,
        created_at: user.created_at,
        role: role_db_of(user.role),
        is_mfa_enabled: user.mfa,
    }
}

impl From<UserRow> for User {
    fn from(row: UserRow) -> (u: User) {
        User {
            uid: UserId::new(row.id),
            uname: row.name,
            email: row.email,
            password_hash: row.password_hash,
            created_at: row.created_at,
            role: row.role.into_domain(),
            mfa: row.is_mfa_enabled,
        }
    }
}

impl vstd::std_specs::convert::FromSpecImpl<UserRow> for User {
    open spec fn obeys_from_spec() -> bool {
        true
    }

    open spec fn from_spec(v: UserRow) -> User {
        user_of_row(v)
    }
}

impl From<User> for UserRow {
    fn from(user: User) -> (row: UserRow) {
        UserRow {
            id: user.uid.as_uuid(),
            name: user.uname,
            email: user.email,
            password_hash: user.password_hash,
            created_at: user.created_at,
            role: UserRoleDB::from(user.role),
            is_mfa_enabled: user.mfa,
        }
    }
}

impl vstd::std_specs::convert::FromSpecImpl<User> for UserRow {
    open spec fn obeys_from_spec() -> bool {
        true
    }

    open spec fn from_spec(v: User) -> UserRow {
        row_of_user(v)
    }
}

/// A row to insert into the `user` table, borrowing from the new user.
pub struct NewUserRow<'a> {
    pub name: &'a str,
    pub email: &'a str,
    pub password_hash: &'a str,
    pub role: Option<UserRoleDB>,
}

impl<'a> NewUserRow<'a> {
    /// The insert row for a new user; no role means the table's default.
    pub fn from_new_user(usr: &'a NewUser) -> (row: NewUserRow<'a>)
        ensures
            row.name@ == usr.name@,
            row.email@ == usr.email@,
            row.password_hash@ == usr.password_hash@,
            row.role == match usr.role {
                Some(r) => Some(role_db_of(r)),
                None => None::<UserRoleDB>,
            },
    {
        let role = match usr.role {
            Some(r) => Some(UserRoleDB::from(r)),
            None => None,
        };
        NewUserRow {
            name: usr.name.as_str(),
            email: usr.email.as_str(),
            password_hash: usr.password_hash.as_str(),
            role,
        }
    }
}

/// The columns an edit of a user writes; the id selects the row.
pub struct UpdateUserChanges {
    pub id: u128,
    pub name: String,
    pub email: String,
    pub password_hash: String,
    pub is_mfa_enabled: bool,
    pub role: UserRoleDB,
}

/// The changes that store an updated user.
pub open spec fn changes_of_update(user: UpdatedUser) -> UpdateUserChanges {
    UpdateUserChanges {
        id: user.id@,
        name: user.name,
        email: user.email,
        password_hash: user.password_hash,
        is_mfa_enabled: user.is_mfa_enabled,
        role: role_db_of(user.role),
    }
}

impl From<UpdatedUser> for UpdateUserChanges {
    fn from(user: UpdatedUser) -> (c: UpdateUserChanges) {
        UpdateUserChanges {
            id: user.id.as_uuid(),
            name: user.name,
            email: user.email,
            password_hash: user.password_hash,
            is_mfa_enabled: user.is_mfa_enabled,
            role: UserRoleDB::from(user.role),
        }
    }
}

impl vstd::std_specs::convert::FromSpecImpl<UpdatedUser> for UpdateUserChanges {
    open spec fn obeys_from_spec() -> bool {
        true
    }

    open spec fn from_spec(v: UpdatedUser) -> UpdateUserChanges {
        changes_of_update(v)
    }
}

/// A row of the `sessions` table.
pub struct SessionRow {
    pub id: u128,
    pub uid: u128,
    pub token_hash: String,
    pub created_at: i128,
    pub expires_at: i128,
    pub last_seen_at: i128,
    pub revoked_at: Option<i128>,
    pub user_agent: Option<String>,
    pub ip_address: Option<String>,
}

/// The session a row describes.
pub open spec fn session_of_row(row: SessionRow) -> Session {
    Session {
        id: SessionId(row.id),
        uid: UserId(row.uid),
        token_hash: row.token_hash,
        created_at: row.created_at,
        expires_at: row.expires_at,
        last_seen_at: row.last_seen_at,
        revoked_at: row.revoked_at,
        user_agent: row.user_agent,
        ip_address: row.ip_address,
    }
}

impl From<SessionRow> for Session {
    fn from(row: SessionRow) -> (s: Session) {
        Session {
            id: SessionId::new(row.id),
            uid: UserId::new(row.uid),
            token_hash: row.token_hash,
            created_at: row.created_at,
            last_seen_at: row.last_seen_at,
            expires_at: row.expires_at,
            revoked_at: row.revoked_at,
            user_agent: row.user_agent,
            ip_address: row.ip_address,
        }
    }
}

impl vstd::std_specs::convert::FromSpecImpl<SessionRow> for Session {
    open spec fn obeys_from_spec() -> bool {
        true
    }

    open spec fn from_spec(v: SessionRow) -> Session {
        session_of_row(v)
    }
}

/// A row to insert into the `sessions` table, borrowing from the new
/// session.
pub struct NewSessionRow<'a> {
    pub uid: u128,
    pub token_hash: &'a str,
    pub expires_at: i128,
    pub user_agent: Option<&'a String>,
    pub ip_address: Option<&'a String>,
}

impl<'a> NewSessionRow<'a> {
    /// The insert row for a new session.
    pub fn from_new_session(session: &'a NewSession) -> (row: NewSessionRow<'a>)
        ensures
            row.uid == session.uid@,
            row.token_hash@ == session.token_hash@,
            row.expires_at == session.expires_at,
            row.user_agent == match session.user_agent {
                Some(a) => Some(&a),
                None => None::<&String>,
            },
            row.ip_address == match session.ip_address {
                Some(a) => Some(&a),
                None => None::<&String>,
            },
    {
        NewSessionRow {
            uid: session.uid.as_uuid(),
            token_hash: session.token_hash.as_str(),
            expires_at: session.expires_at,
            user_agent: session.user_agent.as_ref(),
            ip_address: session.ip_address.as_ref(),
        }
    }
}

/// The users a query's rows describe, in the rows' order.
pub fn users_from_rows(rows: Vec<UserRow>) -> (users: Vec<User>)
    ensures
        users@.len() == rows@.len(),
        forall|k: int| 0 <= k < rows@.len() ==> #[trigger] users@[k] == user_of_row(rows@[k]),
{
    let mut users: Vec<User> = Vec::new();
    for row in it: rows.into_iter()
        invariant
            users@.len() == it.index(),
            it.seq() == rows@,
            forall|k: int| 0 <= k < users@.len() ==> #[trigger] users@[k] == user_of_row(it.seq()[k]),
    {
        users.push(User::from(row));
    }
    users
}

/// The sessions a query's rows describe, in the rows' order.
pub fn sessions_from_rows(rows: Vec<SessionRow>) -> (sessions: Vec<Session>)
    ensures
        sessions@.len() == rows@.len(),
        forall|k: int| 0 <= k < rows@.len() ==> #[trigger] sessions@[k] == session_of_row(rows@[k]),
{
    let mut sessions: Vec<Session> = Vec::new();
    for row in it: rows.into_iter()
        invariant
            sessions@.len() == it.index(),
            it.seq() == rows@,
            forall|k: int|
                0 <= k < sessions@.len() ==> #[trigger] sessions@[k] == session_of_row(it.seq()[k]),
    {
        sessions.push(Session::from(row));
    }
    sessions
}

/// Storing a role and reading it back gives the same role, and the other
/// way round.
pub proof fn law_role_round_trip(role: UserType, db: UserRoleDB)
    ensures
        role_of_db(role_db_of(role)) == role,
        role_db_of(role_of_db(db)) == db,
{
}

/// Writing a user into a row and reading the row back gives the same user.
pub proof fn law_user_row_round_trip(user: User)
    ensures
        user_of_row(row_of_user(user)) == user,
{
    assert(UserId(user.uid@) == user.uid);
}

} // verus!
