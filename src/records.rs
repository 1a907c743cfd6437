//! The records handed to callers: owned copies of token and ban rows.
use vstd::prelude::*;
use crate::permission::{Permission, permission_of_label};
use crate::timestamp::Timestamp;

verus! {

/// One row of the `tokens` table.
#[derive(Clone, Debug)]
pub struct Token {
    pub id: i32,
    pub token: String,
    pub permissions: Permission,
    pub userid: i32,
}

/// One row of the `banlist` table: the banned user's id, why, and when.
#[derive(Clone, Debug)]
pub struct Ban {
    pub id: i32,
    pub reason: String,
    pub date: Timestamp,
}

impl Token {
    /// Builds a token from the columns of a row (`id`, `token`, the permission
    /// read as text, `userid`); `None` where the label names no permission.
    pub fn from_columns(id: i32, token: String, permission_label: &str, userid: i32) -> (r:
        Option<Token>)
        ensures
            permission_of_label(permission_label@) is Some <==> r is Some,
            r matches Some(t) ==> t.id == id && t.token@ == token@ && Some(t.permissions)
                == permission_of_label(permission_label@) && t.userid == userid,
    {
        match Permission::from_label(permission_label) {
            Some(permissions) => Some(Token { id, token, permissions, userid }),
            None => None,
        }
    }
}

impl Ban {
    /// Builds a ban from the columns of a row (`id`, `reason`, and `date` as
    /// seconds and nanoseconds); `None` where the nanoseconds make a second.
    pub fn from_columns(id: i32, reason: String, seconds: i64, nanos: u32) -> (r: Option<Ban>)
        ensures
            nanos < crate::timestamp::NANOS_PER_SECOND <==> r is Some,
            r matches Some(b) ==> b.id == id && b.reason@ == reason@ && b.date.wf()
                && b.date.seconds == seconds && b.date.nanos == nanos,
    {
        match Timestamp::new(seconds, nanos) {
            Some(date) => Some(Ban { id, reason, date }),
            None => None,
        }
    }
}

} // verus!
