use vstd::prelude::*;

use crate::bot::CommandState;
use crate::database::Database;
use crate::links::contains_link;
use crate::queue::{admit_transition, Queue};
use crate::token::is_valid_token;
use crate::types::BotErrorKind;
use crate::user::User;

verus! {

// The dialogue entry points.  Each takes the facts of the incoming message as
// plain values, performs the store work, and returns the next per-chat
// dialogue state (where it changes) together with the reply text to send.

/// Starts the credential-capture dialogue: prompts for the token and moves
/// the chat to `ReceiveAuthToken`.
pub fn auth_initiate() -> (r: (CommandState, String))
    ensures
        r.0 == CommandState::ReceiveAuthToken,
        r.1@ == "What is your auth token? /cancel to stop"@,
{
    (CommandState::ReceiveAuthToken, "What is your auth token? /cancel to stop".to_owned())
}

/// Cancels the credential-capture dialogue, discarding any candidate token.
pub fn auth_cancel() -> (r: (CommandState, String))
    ensures
        r.0 == CommandState::Start,
        r.1@ == "Authentication cancelled."@,
{
    (CommandState::Start, "Authentication cancelled.".to_owned())
}

/// Removes the sender's stored credential and ends any ongoing dialogue.
/// Deleting when nothing is stored is not an error, but the reply tells the
/// user that nothing was removed.
pub fn auth_clear(database: &mut Database, user_id: u64) -> (r: (CommandState, String))
    ensures
        r.0 == CommandState::Start,
        final(database)@.tokens == old(database)@.tokens.remove(user_id),
        final(database)@.jobs == old(database)@.jobs,
        final(database)@.queue == old(database)@.queue,
        final(database)@.next_id == old(database)@.next_id,
        old(database)@.wf() ==> final(database)@.wf(),
        old(database)@.tokens.contains_key(user_id) ==> r.1@ == "Token removed successfully."@,
        !old(database)@.tokens.contains_key(user_id) ==> r.1@ == "Nothing to remove."@,
{
    let removed = User::delete_token(database, user_id);
    let reply = if removed {
        "Token removed successfully.".to_owned()
    } else {
        "Nothing to remove.".to_owned()
    };
    (CommandState::Start, reply)
}

/// Handles free text while the chat awaits a credential: the text is the
/// candidate token.  A valid token is stored and the dialogue ends; empty or
/// ill-formed input leaves the store untouched and the chat still awaiting a
/// token, so the user may retry at once.
pub fn receive_token(database: &mut Database, user_id: u64, token: String) -> (r: (
    CommandState,
    String,
))
    ensures
        final(database)@.jobs == old(database)@.jobs,
        final(database)@.queue == old(database)@.queue,
        final(database)@.next_id == old(database)@.next_id,
        old(database)@.wf() ==> final(database)@.wf(),
        is_valid_token(token@) ==> {
            &&& r.0 == CommandState::Start
            &&& final(database)@.tokens == old(database)@.tokens.insert(user_id, token)
            &&& r.1@ == "Token set. Start sending me some youtube videos."@
        },
        !is_valid_token(token@) ==> {
            &&& r.0 == CommandState::ReceiveAuthToken
            &&& final(database)@.tokens == old(database)@.tokens
            &&& (token@.len() == 0 ==> r.1@ == "Please send some text"@)
            &&& (token@.len() > 0 ==> r.1@ == "Please send a valid auth token"@)
        },
{
    match User::set_token(database, user_id, token) {
        Ok(_) => (
            CommandState::Start,
            "Token set. Start sending me some youtube videos.".to_owned(),
        ),
        Err(e) => {
            let reply = match e.kind {
                BotErrorKind::EmptyTokenError => "Please send some text".to_owned(),
                _ => "Please send a valid auth token".to_owned(),
            };
            (CommandState::ReceiveAuthToken, reply)
        },
    }
}

/// Handles a link submission while the chat is idle: admits the job and
/// reports the outcome.  The dialogue state is untouched by a submission.
pub fn receive_url(database: &mut Database, user_id: u64, chat_id: u64, msg_text: String) -> (r:
    String)
    requires
        old(database)@.next_id < u64::MAX,
    ensures
        old(database)@.wf() ==> final(database)@.wf(),
        !contains_link(msg_text@) ==> {
            &&& final(database)@ == old(database)@
            &&& r@ == "Please send a valid youtube link."@
        },
        contains_link(msg_text@) && !old(database)@.tokens.contains_key(user_id) ==> {
            &&& final(database)@ == old(database)@
            &&& r@ == "Please set an /auth token before sending URLs."@
        },
        contains_link(msg_text@) && old(database)@.tokens.contains_key(user_id) ==> {
            &&& final(database)@ == admit_transition(old(database)@, user_id, chat_id, msg_text)
            &&& r@ == "Waiting to be processed..."@
        },
{
    match Queue::add_request(database, user_id, chat_id, msg_text) {
        Ok(_) => "Waiting to be processed...".to_owned(),
        Err(e) => match e.kind {
            BotErrorKind::EmptyTokenError => "Please set an /auth token before sending URLs."
                .to_owned(),
            _ => "Please send a valid youtube link.".to_owned(),
        },
    }
}

} // verus!
