//! The parameterized statements that the store sends, and their parameters.
use vstd::prelude::*;
use crate::permission::{Permission, label_of};

verus! {

/// Creates the ban table unless it exists.
pub const CREATE_BANLIST: &'static str = "CREATE TABLE IF NOT EXISTS banlist (
    id integer NOT NULL PRIMARY KEY,
    reason Text NOT NULL,
    date timestamp NOT NULL);";

/// Creates the `permission` enumerated type unless a type of that name exists.
pub const CREATE_PERMISSION_TYPE: &'static str = "DO $$
BEGIN
    IF NOT EXISTS (SELECT 1 FROM pg_type WHERE typname = 'permission') THEN
        CREATE TYPE permission AS ENUM ('User', 'Admin', 'Root');
    END IF;
END$$;";

/// Creates the token table unless it exists.
pub const CREATE_TOKENS: &'static str = "CREATE TABLE IF NOT EXISTS tokens (
    id SERIAL,
    token Text NOT NULL PRIMARY KEY,
    permissions permission NOT NULL,
    userid integer NOT NULL);";

/// Looks for the genesis token.
pub const SELECT_GENESIS: &'static str = "SELECT id FROM tokens WHERE id = 1;";

/// Every token; the permission is read as its label.
pub const SELECT_TOKENS: &'static str = "SELECT id, token, permissions::text, userid FROM tokens;";

/// The token with a given id.
pub const SELECT_TOKEN_BY_ID: &'static str =
    "SELECT id, token, permissions::text, userid FROM tokens WHERE id = $1;";

/// The token with a given secret.
pub const SELECT_TOKEN_BY_SECRET: &'static str =
    "SELECT id, token, permissions::text, userid FROM tokens WHERE token = $1;";

/// Stores a token; the permission is passed as its label.
pub const INSERT_TOKEN: &'static str =
    "INSERT INTO tokens (token, permissions, userid) VALUES ($1, $2::text::permission, $3);";

/// Removes the token with a given id, if any.
pub const DELETE_TOKEN_BY_ID: &'static str = "DELETE FROM tokens WHERE id = $1;";

/// Every ban.
pub const SELECT_BANS: &'static str = "SELECT id, reason, date FROM banlist;";

/// Bans a user, or refreshes the reason and date of an existing ban, in one statement.
pub const UPSERT_BAN: &'static str = "INSERT INTO banlist VALUES ($1, $2, now())
    ON CONFLICT (id) DO UPDATE SET reason = EXCLUDED.reason, date = EXCLUDED.date;";

/// The ban of a given user.
pub const SELECT_BAN: &'static str = "SELECT id, reason, date FROM banlist WHERE id = $1;";

/// Removes the ban of a given user, if any.
pub const DELETE_BAN: &'static str = "DELETE FROM banlist WHERE id = $1;";

/// The SQLSTATE code with which the server refuses a row that repeats a unique key.
pub const UNIQUE_VIOLATION: &'static str = "23505";

/// Whether a statement failed because it would have repeated a unique key, as an
/// insert does with a token secret that is already stored.
pub fn is_unique_violation(sqlstate: &str) -> (r: bool)
    ensures
        r == (sqlstate@ == UNIQUE_VIOLATION@),
{
    sqlstate.to_owned() == UNIQUE_VIOLATION.to_owned()
}

/// A value bound to a `$n` placeholder of a statement.
#[derive(Clone, Debug, PartialEq, Eq)]
pub enum Param {
    Int(i32),
    Text(String),
}

/// A value of a parameter, as the statement receives it.
pub enum ParamValue {
    Int(int),
    Text(Seq<char>),
}

impl Param {
    pub open spec fn value(&self) -> ParamValue {
        match self {
            Param::Int(n) => ParamValue::Int(*n as int),
            Param::Text(s) => ParamValue::Text(s@),
        }
    }
}

/// One statement of the store, with what it needs bound.
#[derive(Clone, Debug)]
pub enum Query {
    CreateBanlist,
    CreatePermissionType,
    CreateTokens,
    GenesisLookup,
    AllTokens,
    TokenById(i32),
    TokenBySecret(String),
    InsertToken { token: String, permission: Permission, userid: i32 },
    DeleteTokenById(i32),
    AllBans,
    UpsertBan { user_id: i32, reason: String },
    BanById(i32),
    DeleteBan(i32),
}

/// The text of each statement.
pub open spec fn sql_of(q: Query) -> Seq<char> {
    match q {
        Query::CreateBanlist => CREATE_BANLIST@,
        Query::CreatePermissionType => CREATE_PERMISSION_TYPE@,
        Query::CreateTokens => CREATE_TOKENS@,
        Query::GenesisLookup => SELECT_GENESIS@,
        Query::AllTokens => SELECT_TOKENS@,
        Query::TokenById(_) => SELECT_TOKEN_BY_ID@,
        Query::TokenBySecret(_) => SELECT_TOKEN_BY_SECRET@,
        Query::InsertToken { .. } => INSERT_TOKEN@,
        Query::DeleteTokenById(_) => DELETE_TOKEN_BY_ID@,
        Query::AllBans => SELECT_BANS@,
        Query::UpsertBan { .. } => UPSERT_BAN@,
        Query::BanById(_) => SELECT_BAN@,
        Query::DeleteBan(_) => DELETE_BAN@,
    }
}

/// The values bound to `$1`, `$2`, ... of each statement, in order.
pub open spec fn params_of(q: Query) -> Seq<ParamValue> {
    match q {
        Query::TokenById(id) => seq![ParamValue::Int(id as int)],
        Query::TokenBySecret(s) => seq![ParamValue::Text(s@)],
        Query::InsertToken { token, permission, userid } => seq![
            ParamValue::Text(token@),
            ParamValue::Text(label_of(permission)),
            ParamValue::Int(userid as int),
        ],
        Query::DeleteTokenById(id) => seq![ParamValue::Int(id as int)],
        Query::UpsertBan { user_id, reason } => seq![
            ParamValue::Int(user_id as int),
            ParamValue::Text(reason@),
        ],
        Query::BanById(id) => seq![ParamValue::Int(id as int)],
        Query::DeleteBan(id) => seq![ParamValue::Int(id as int)],
        _ => seq![],
    }
}

impl Query {
    /// The statement's text.
    pub fn sql(&self) -> (r: &'static str)
        ensures
            r@ == sql_of(*self),
    {
        match self {
            Query::CreateBanlist => CREATE_BANLIST,
            Query::CreatePermissionType => CREATE_PERMISSION_TYPE,
            Query::CreateTokens => CREATE_TOKENS,
            Query::GenesisLookup => SELECT_GENESIS,
            Query::AllTokens => SELECT_TOKENS,
            Query::TokenById(_) => SELECT_TOKEN_BY_ID,
            Query::TokenBySecret(_) => SELECT_TOKEN_BY_SECRET,
            Query::InsertToken { .. } => INSERT_TOKEN,
            Query::DeleteTokenById(_) => DELETE_TOKEN_BY_ID,
            Query::AllBans => SELECT_BANS,
            Query::UpsertBan { .. } => UPSERT_BAN,
            Query::BanById(_) => SELECT_BAN,
            Query::DeleteBan(_) => DELETE_BAN,
        }
    }

    /// The parameters to bind, in placeholder order.
    pub fn params(&self) -> (r: Vec<Param>)
        ensures
            r@.len() == params_of(*self).len(),
            forall|i: int| 0 <= i < r@.len() ==> #[trigger] r@[i].value() == params_of(*self)[i],
    {
        let r = match self {
            Query::TokenById(id) => vec![Param::Int(*id)],
            Query::TokenBySecret(s) => vec![Param::Text(s.clone())],
            Query::InsertToken { token, permission, userid } => vec![
                Param::Text(token.clone()),
                Param::Text(permission.label().to_owned()),
                Param::Int(*userid),
            ],
            Query::DeleteTokenById(id) => vec![Param::Int(*id)],
            Query::UpsertBan { user_id, reason } => vec![
                Param::Int(*user_id),
                Param::Text(reason.clone()),
            ],
            Query::BanById(id) => vec![Param::Int(*id)],
            Query::DeleteBan(id) => vec![Param::Int(*id)],
            _ => Vec::new(),
        };
        r
    }
}

/// The statements that set up the schema, in the order they run. Each one
/// leaves an existing object as it is, so running them again changes nothing.
pub fn schema_queries() -> (r: Vec<Query>)
    ensures
        r@ == seq![Query::CreateBanlist, Query::CreatePermissionType, Query::CreateTokens],
{
    let r = vec![Query::CreateBanlist, Query::CreatePermissionType, Query::CreateTokens];
    assert(r@ =~= seq![Query::CreateBanlist, Query::CreatePermissionType, Query::CreateTokens]);
    r
}

} // verus!
