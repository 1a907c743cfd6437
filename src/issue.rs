//! Issuing token secrets, and the decision to issue the genesis token.
use vstd::prelude::*;
use crate::permission::{Permission, label_of, permission_of_label};
use crate::query::{Query, ParamValue, params_of};

verus! {

/// A symbol of the URL-safe alphabet that secrets are drawn from:
/// `_`, `~`, the digits and the ASCII letters.
pub open spec fn is_secret_char(c: char) -> bool {
    ||| c == '_'
    ||| c == '~'
    ||| ('0' <= c && c <= '9')
    ||| ('a' <= c && c <= 'z')
    ||| ('A' <= c && c <= 'Z')
}

/// `s` is a secret of `size` symbols of the URL-safe alphabet.
pub open spec fn is_secret_of_size(s: Seq<char>, size: nat) -> bool {
    &&& s.len() == size
    &&& forall|i: int| 0 <= i < s.len() ==> is_secret_char(#[trigger] s[i])
}

/// Relies on nanoid::generate: it draws `size` symbols from nanoid's URL-safe
/// alphabet (`_`, `~`, digits, ASCII letters) with the operating system's
/// random generator, and panics where that generator cannot be opened. Which
/// symbols come out is left open.
#[verifier::external_body]
fn random_secret(size: usize) -> (r: String)
    ensures
        is_secret_of_size(r@, size as nat),
{
    nanoid::generate(size)
}

/// A token about to be stored: its fresh secret, permission and owner.
#[derive(Clone, Debug)]
pub struct NewToken {
    pub secret: String,
    pub permission: Permission,
    pub userid: i32,
}

impl NewToken {
    /// The statement that stores this token.
    pub fn insert_query(&self) -> (r: Query)
        ensures
            r == (Query::InsertToken {
                token: self.secret,
                permission: self.permission,
                userid: self.userid,
            }),
    {
        Query::InsertToken {
            token: self.secret.clone(),
            permission: self.permission,
            userid: self.userid,
        }
    }
}

/// A token stored by its insert statement binds its secret, its permission's
/// label and its owner; a row that carries those columns reads back with the
/// same permission.
pub proof fn lemma_stored_token_reads_back(t: NewToken)
    ensures
        params_of(Query::InsertToken { token: t.secret, permission: t.permission, userid: t.userid })
            == seq![
            ParamValue::Text(t.secret@),
            ParamValue::Text(label_of(t.permission)),
            ParamValue::Int(t.userid as int),
        ],
        permission_of_label(label_of(t.permission)) == Some(t.permission),
{
    crate::permission::lemma_label_round_trip(t.permission);
}

/// Draws a fresh random secret of `size` symbols for a token with the given
/// permission and owner. The secret is the one the caller hands out: the
/// store keeps it as it is.
pub fn issue_token(permission: Permission, userid: i32, size: usize) -> (r: NewToken)
    ensures
        is_secret_of_size(r.secret@, size as nat),
        r.permission == permission,
        r.userid == userid,
{
    let secret = random_secret(size);
    NewToken { secret, permission, userid }
}

/// What to do about the genesis token, once the rows with id 1 are counted.
#[derive(Clone, Debug)]
pub enum GenesisStep {
    /// A token with id 1 is stored: nothing is created and no secret is shown.
    Present,
    /// No token with id 1 is stored: store this root token and show its secret once.
    Issue(NewToken),
}

/// Decides the genesis step from the number of stored rows with id 1. A root
/// token owned by `master_id` is issued only where there is none; once one is
/// stored every later decision is `Present`, so no second genesis token is
/// created and no secret is shown again.
pub fn plan_genesis(rows_with_id_one: usize, master_id: i32, size: usize) -> (r: GenesisStep)
    ensures
        rows_with_id_one > 0 <==> r is Present,
        r matches GenesisStep::Issue(t) ==> t.permission == Permission::Root && t.userid
            == master_id && is_secret_of_size(t.secret@, size as nat),
{
    if rows_with_id_one > 0 {
        GenesisStep::Present
    } else {
        GenesisStep::Issue(issue_token(Permission::Root, master_id, size))
    }
}

} // verus!
