use tubecast::database::Database;
use tubecast::types::{BotError, BotErrorKind};
use tubecast::user::User;

#[test]
fn get_without_prior_set_is_not_found() {
    let db = Database::new();
    for user_id in [1u64, 7, 42, u64::MAX] {
        match db.get_token(user_id) {
            Ok(_) => panic!("a fresh store must hold no token"),
            Err(e) => assert_eq!(e.kind, BotErrorKind::EmptyTokenError),
        }
    }
}

#[test]
fn set_then_get_returns_the_token() {
    let mut db = Database::new();
    assert!(User::set_token(&mut db, 7, "aaa.bbb.ccc".to_string()).is_ok());
    assert_eq!(User::get_token(&db, 7).unwrap(), "aaa.bbb.ccc");
}

#[test]
fn set_overwrites_existing_token() {
    let mut db = Database::new();
    assert!(User::set_token(&mut db, 7, "aaa.bbb.ccc".to_string()).is_ok());
    assert!(User::set_token(&mut db, 7, "xxx.yyy.zzz".to_string()).is_ok());
    assert_eq!(User::get_token(&db, 7).unwrap(), "xxx.yyy.zzz");
}

#[test]
fn set_is_per_user() {
    let mut db = Database::new();
    assert!(User::set_token(&mut db, 7, "aaa.bbb.ccc".to_string()).is_ok());
    assert!(User::get_token(&db, 8).is_err());
}

#[test]
fn invalid_token_is_rejected_and_store_unchanged() {
    let mut db = Database::new();
    let r = User::set_token(&mut db, 7, "notavalidtoken".to_string());
    assert_eq!(r.unwrap_err().kind, BotErrorKind::InvalidTokenError);
    assert!(User::get_token(&db, 7).is_err());
}

#[test]
fn invalid_token_does_not_clobber_existing_token() {
    let mut db = Database::new();
    assert!(User::set_token(&mut db, 7, "aaa.bbb.ccc".to_string()).is_ok());
    let r = User::set_token(&mut db, 7, "still not a token".to_string());
    assert_eq!(r.unwrap_err().kind, BotErrorKind::InvalidTokenError);
    assert_eq!(User::get_token(&db, 7).unwrap(), "aaa.bbb.ccc");
}

#[test]
fn empty_token_is_rejected() {
    let mut db = Database::new();
    let r = User::set_token(&mut db, 7, String::new());
    assert_eq!(r.unwrap_err().kind, BotErrorKind::EmptyTokenError);
    assert!(User::get_token(&db, 7).is_err());
}

#[test]
fn delete_absent_token_reports_nothing_removed_twice() {
    let mut db = Database::new();
    assert!(!User::delete_token(&mut db, 7));
    assert!(!User::delete_token(&mut db, 7));
}

#[test]
fn delete_present_token_then_absent() {
    let mut db = Database::new();
    assert!(User::set_token(&mut db, 7, "aaa.bbb.ccc".to_string()).is_ok());
    assert!(User::delete_token(&mut db, 7));
    assert!(User::get_token(&db, 7).is_err());
    assert!(!User::delete_token(&mut db, 7));
}

#[test]
fn bot_error_new_keeps_the_kind() {
    let e = BotError::new(BotErrorKind::UploadError);
    assert_eq!(e.kind, BotErrorKind::UploadError);
}
