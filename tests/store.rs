use token_store::issue::{issue_token, plan_genesis, GenesisStep};
use token_store::permission::Permission;
use token_store::query::{is_unique_violation, schema_queries, Param, Query};
use token_store::records::{Ban, Token};
use token_store::timestamp::Timestamp;

fn is_secret_char(c: char) -> bool {
    c == '_' || c == '~' || c.is_ascii_digit() || c.is_ascii_lowercase() || c.is_ascii_uppercase()
}

#[test]
fn permission_labels() {
    assert_eq!(Permission::User.label(), "User");
    assert_eq!(Permission::Admin.label(), "Admin");
    assert_eq!(Permission::Root.label(), "Root");
}

#[test]
fn permission_label_round_trip() {
    for p in [Permission::User, Permission::Admin, Permission::Root] {
        assert_eq!(Permission::from_label(p.label()), Some(p));
    }
}

#[test]
fn unknown_permission_label() {
    assert_eq!(Permission::from_label("admin"), None);
    assert_eq!(Permission::from_label(""), None);
    assert_eq!(Permission::from_label("Superuser"), None);
}

#[test]
fn token_from_columns() {
    let t = Token::from_columns(3, "abc".to_string(), "Admin", 42).unwrap();
    assert_eq!(t.id, 3);
    assert_eq!(t.token, "abc");
    assert_eq!(t.permissions, Permission::Admin);
    assert_eq!(t.userid, 42);
}

#[test]
fn token_from_columns_unknown_label() {
    assert!(Token::from_columns(3, "abc".to_string(), "Owner", 42).is_none());
}

#[test]
fn ban_from_columns() {
    let b = Ban::from_columns(7, "spam".to_string(), 1_500_000_000, 250).unwrap();
    assert_eq!(b.id, 7);
    assert_eq!(b.reason, "spam");
    assert_eq!(b.date, Timestamp { seconds: 1_500_000_000, nanos: 250 });
}

#[test]
fn ban_from_columns_bad_nanos() {
    assert!(Ban::from_columns(7, "spam".to_string(), 0, 1_000_000_000).is_none());
    assert!(Ban::from_columns(7, "spam".to_string(), 0, 999_999_999).is_some());
}

#[test]
fn timestamp_order() {
    let t1 = Timestamp::new(100, 500).unwrap();
    let t2 = Timestamp::new(100, 900).unwrap();
    let t3 = Timestamp::new(101, 0).unwrap();
    let early = Timestamp::new(-1, 999_999_999).unwrap();
    assert!(t2.is_not_before(&t1));
    assert!(!t1.is_not_before(&t2));
    assert!(t1.is_not_before(&t1));
    assert!(t3.is_not_before(&t2));
    assert!(!t2.is_not_before(&t3));
    assert!(t1.is_not_before(&early));
    assert!(!early.is_not_before(&Timestamp::new(0, 0).unwrap()));
}

#[test]
fn issued_secret_has_configured_length() {
    for size in [0usize, 1, 5, 21, 64] {
        let t = issue_token(Permission::User, 9, size);
        assert_eq!(t.secret.chars().count(), size);
        assert!(t.secret.chars().all(is_secret_char));
        assert_eq!(t.permission, Permission::User);
        assert_eq!(t.userid, 9);
    }
}

#[test]
fn issued_secrets_differ() {
    let a = issue_token(Permission::Admin, 1, 21);
    let b = issue_token(Permission::Admin, 1, 21);
    assert_ne!(a.secret, b.secret);
}

#[test]
fn create_token_scenario_statements() {
    let t = issue_token(Permission::Admin, 42, 32);
    assert_eq!(t.secret.len(), 32);
    let insert = t.insert_query();
    assert_eq!(
        insert.params(),
        vec![
            Param::Text(t.secret.clone()),
            Param::Text("Admin".to_string()),
            Param::Int(42)
        ]
    );
    let lookup = Query::TokenBySecret(t.secret.clone());
    assert_eq!(lookup.params(), vec![Param::Text(t.secret.clone())]);
    let read = Token::from_columns(5, t.secret.clone(), "Admin", 42).unwrap();
    assert_eq!(read.token, t.secret);
    assert_eq!(read.permissions, Permission::Admin);
    assert_eq!(read.userid, 42);
    assert_eq!(Query::DeleteTokenById(5).params(), vec![Param::Int(5)]);
}

#[test]
fn ban_scenario_statements() {
    let first = Query::UpsertBan { user_id: 7, reason: "spam".to_string() };
    assert_eq!(first.params(), vec![Param::Int(7), Param::Text("spam".to_string())]);
    let second = Query::UpsertBan { user_id: 7, reason: "abuse".to_string() };
    assert_eq!(second.params(), vec![Param::Int(7), Param::Text("abuse".to_string())]);
    assert_eq!(first.sql(), second.sql());
    assert!(first.sql().contains("ON CONFLICT (id) DO UPDATE"));
    assert_eq!(Query::BanById(7).params(), vec![Param::Int(7)]);
    assert_eq!(Query::DeleteBan(7).params(), vec![Param::Int(7)]);
}

#[test]
fn genesis_present_issues_nothing() {
    for rows in [1usize, 2] {
        assert!(matches!(plan_genesis(rows, 1, 21), GenesisStep::Present));
    }
}

#[test]
fn genesis_absent_issues_root_token() {
    match plan_genesis(0, 77, 16) {
        GenesisStep::Issue(t) => {
            assert_eq!(t.permission, Permission::Root);
            assert_eq!(t.userid, 77);
            assert_eq!(t.secret.chars().count(), 16);
            assert!(t.secret.chars().all(is_secret_char));
        }
        GenesisStep::Present => panic!("expected a genesis token"),
    }
}

#[test]
fn schema_statements_are_guarded() {
    let qs = schema_queries();
    assert_eq!(qs.len(), 3);
    assert!(qs[0].sql().starts_with("CREATE TABLE IF NOT EXISTS banlist"));
    assert!(qs[1].sql().contains("IF NOT EXISTS (SELECT 1 FROM pg_type WHERE typname = 'permission')"));
    assert!(qs[2].sql().starts_with("CREATE TABLE IF NOT EXISTS tokens"));
    for q in &qs {
        assert!(q.params().is_empty());
    }
}

#[test]
fn statements_without_parameters() {
    for q in [Query::GenesisLookup, Query::AllTokens, Query::AllBans] {
        assert!(q.params().is_empty());
        assert!(q.sql().starts_with("SELECT"));
    }
    assert_eq!(Query::TokenById(12).params(), vec![Param::Int(12)]);
    assert!(Query::TokenById(12).sql().contains("WHERE id = $1"));
}

#[test]
fn unique_violation_code() {
    assert!(is_unique_violation("23505"));
    assert!(!is_unique_violation("23503"));
    assert!(!is_unique_violation(""));
}
