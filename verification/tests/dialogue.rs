use tubecast::bot::{AdminCommands, CommandState, Commands};
use tubecast::database::Database;
use tubecast::filters::{is_admin, is_link, is_trusted, ConfigParameters};
use tubecast::handlers::{auth_cancel, auth_clear, auth_initiate, receive_token};
use tubecast::user::User;

#[test]
fn auth_prompt_moves_chat_to_awaiting_token() {
    let (state, reply) = auth_initiate();
    assert_eq!(state, CommandState::ReceiveAuthToken);
    assert_eq!(reply, "What is your auth token? /cancel to stop");
}

#[test]
fn invalid_token_reprompts_and_stores_nothing() {
    let mut db = Database::new();
    let (state, _) = auth_initiate();
    assert_eq!(state, CommandState::ReceiveAuthToken);
    let (state, reply) = receive_token(&mut db, 9, "notavalidtoken".to_string());
    assert_eq!(state, CommandState::ReceiveAuthToken);
    assert_eq!(reply, "Please send a valid auth token");
    assert!(User::get_token(&db, 9).is_err());
}

#[test]
fn empty_token_reprompts_for_text() {
    let mut db = Database::new();
    let (state, reply) = receive_token(&mut db, 9, String::new());
    assert_eq!(state, CommandState::ReceiveAuthToken);
    assert_eq!(reply, "Please send some text");
}

#[test]
fn valid_token_ends_the_dialogue() {
    let mut db = Database::new();
    let (state, reply) = receive_token(&mut db, 9, "aaa.bbb.ccc".to_string());
    assert_eq!(state, CommandState::Start);
    assert_eq!(reply, "Token set. Start sending me some youtube videos.");
    assert_eq!(User::get_token(&db, 9).unwrap(), "aaa.bbb.ccc");
}

#[test]
fn retry_after_rejection_succeeds() {
    let mut db = Database::new();
    let (state, _) = receive_token(&mut db, 9, "notavalidtoken".to_string());
    assert_eq!(state, CommandState::ReceiveAuthToken);
    let (state, _) = receive_token(&mut db, 9, "aaa.bbb.ccc".to_string());
    assert_eq!(state, CommandState::Start);
    assert_eq!(User::get_token(&db, 9).unwrap(), "aaa.bbb.ccc");
}

#[test]
fn cancel_returns_to_start() {
    let (state, reply) = auth_cancel();
    assert_eq!(state, CommandState::Start);
    assert_eq!(reply, "Authentication cancelled.");
}

#[test]
fn clear_reports_removal() {
    let mut db = Database::new();
    assert!(User::set_token(&mut db, 9, "aaa.bbb.ccc".to_string()).is_ok());
    let (state, reply) = auth_clear(&mut db, 9);
    assert_eq!(state, CommandState::Start);
    assert_eq!(reply, "Token removed successfully.");
    assert!(User::get_token(&db, 9).is_err());
}

#[test]
fn clear_with_nothing_stored_says_so() {
    let mut db = Database::new();
    let (_, reply) = auth_clear(&mut db, 9);
    assert_eq!(reply, "Nothing to remove.");
}

#[test]
fn commands_parse_known_words() {
    assert_eq!(Commands::parse("/start"), Some(Commands::Start));
    assert_eq!(Commands::parse("/id"), Some(Commands::Id));
    assert_eq!(Commands::parse("/auth"), Some(Commands::Auth));
    assert_eq!(Commands::parse("/clear"), Some(Commands::Clear));
    assert_eq!(Commands::parse("/cancel"), Some(Commands::Cancel));
    assert_eq!(Commands::parse("notacommand"), None);
    assert_eq!(Commands::parse("/setcommands"), None);
}

#[test]
fn admin_commands_parse_known_words() {
    assert_eq!(AdminCommands::parse("/setcommands"), Some(AdminCommands::SetCommands));
    assert_eq!(AdminCommands::parse("/deletecache"), Some(AdminCommands::DeleteCache));
    assert_eq!(AdminCommands::parse("/auth"), None);
}

#[test]
fn authorization_lists_gate_users() {
    let cfg = ConfigParameters { trusted_user_ids: vec![1, 2], admin_user_ids: vec![3] };
    assert!(is_trusted(&cfg, 1));
    assert!(is_trusted(&cfg, 3));
    assert!(!is_trusted(&cfg, 4));
    assert!(is_admin(&cfg, 3));
    assert!(!is_admin(&cfg, 1));
}

#[test]
fn link_filter_looks_at_the_prefix() {
    assert!(is_link("https://youtu.be/xyz123"));
    assert!(is_link("http://anything"));
    assert!(!is_link("youtu.be/xyz123"));
    assert!(!is_link("hello"));
    assert!(!is_link(""));
}
