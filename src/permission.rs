//! Permission levels of a token, and their database labels.
use vstd::prelude::*;

verus! {

/// Access level carried by a token. The database stores it in an enumerated
/// type whose labels are `User`, `Admin` and `Root`.
#[derive(Clone, Copy, Debug, PartialEq, Eq, Structural)]
pub enum Permission {
    User,
    Admin,
    Root,
}

/// The database label of a permission.
pub open spec fn label_of(p: Permission) -> Seq<char> {
    match p {
        Permission::User => "User"@,
        Permission::Admin => "Admin"@,
        Permission::Root => "Root"@,
    }
}

/// The permission that a database label stands for, if any.
pub open spec fn permission_of_label(s: Seq<char>) -> Option<Permission> {
    if s == "User"@ {
        Some(Permission::User)
    } else if s == "Admin"@ {
        Some(Permission::Admin)
    } else if s == "Root"@ {
        Some(Permission::Root)
    } else {
        None
    }
}

impl Permission {
    /// The label under which the database stores this permission.
    pub fn label(&self) -> (r: &'static str)
        ensures
            r@ == label_of(*self),
    {
        match self {
            Permission::User => "User",
            Permission::Admin => "Admin",
            Permission::Root => "Root",
        }
    }

    /// Reads a database label back; `None` for a label outside the enumeration.
    pub fn from_label(label: &str) -> (r: Option<Permission>)
        ensures
            r == permission_of_label(label@),
    {
        let s = label.to_owned();
        if s == "User".to_owned() {
            Some(Permission::User)
        } else if s == "Admin".to_owned() {
            Some(Permission::Admin)
        } else if s == "Root".to_owned() {
            Some(Permission::Root)
        } else {
            None
        }
    }
}

/// Reading back the label of a permission gives that permission, so a token
/// stored with some permission is read with the same one.
pub proof fn lemma_label_round_trip(p: Permission)
    ensures
        permission_of_label(label_of(p)) == Some(p),
{
    reveal_strlit("User");
    reveal_strlit("Admin");
    reveal_strlit("Root");
    assert("User"@.len() == 4);
    assert("Admin"@.len() == 5);
    assert("Root"@.len() == 4);
    assert("User"@[0] != "Root"@[0]);
}

/// Distinct permissions have distinct labels.
pub proof fn lemma_labels_distinct(p: Permission, q: Permission)
    requires
        p != q,
    ensures
        label_of(p) != label_of(q),
{
    lemma_label_round_trip(p);
    lemma_label_round_trip(q);
}

} // verus!
