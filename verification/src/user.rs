use vstd::prelude::*;

use crate::database::Database;
use crate::token::is_valid_token;
use crate::types::{BotError, BotErrorKind, BotResult};

verus! {

/// Per-user credential operations: validation on the way in, plain reads and
/// idempotent deletes on the way out.
pub struct User {}

impl User {
    /// Validates and stores a credential token.  Empty input and input that
    /// fails the credential grammar are rejected and leave the store as it
    /// was; valid input overwrites any earlier record for the user.
    pub fn set_token(database: &mut Database, user_id: u64, token: String) -> (r: BotResult<()>)
        ensures
            final(database)@.jobs == old(database)@.jobs,
            final(database)@.queue == old(database)@.queue,
            final(database)@.next_id == old(database)@.next_id,
            old(database)@.wf() ==> final(database)@.wf(),
            match r {
                Ok(_) => is_valid_token(token@) && final(database)@.tokens == old(
                    database,
                )@.tokens.insert(user_id, token),
                Err(e) => {
                    &&& !is_valid_token(token@)
                    &&& final(database)@.tokens == old(database)@.tokens
                    &&& e.kind == (if token@.len() == 0 {
                        BotErrorKind::EmptyTokenError
                    } else {
                        BotErrorKind::InvalidTokenError
                    })
                },
            },
    {
        if token.as_str().is_empty() {
            return Err(BotError::new(BotErrorKind::EmptyTokenError));
        }
        if !crate::token::is_token_format(token.as_str()) {
            return Err(BotError::new(BotErrorKind::InvalidTokenError));
        }
        database.set_token(user_id, token);
        Ok(())
    }

    /// Reads the user's stored credential; absence is the expected
    /// empty-token outcome.
    pub fn get_token(database: &Database, user_id: u64) -> (r: BotResult<String>)
        ensures
            match r {
                Ok(token) => database@.tokens.contains_key(user_id) && token
                    == database@.tokens[user_id],
                Err(e) => !database@.tokens.contains_key(user_id) && e.kind
                    == BotErrorKind::EmptyTokenError,
            },
    {
        database.get_token(user_id)
    }

    /// Removes the user's credential.  Deleting an absent record is not an
    /// error; the result says whether anything was removed.
    pub fn delete_token(database: &mut Database, user_id: u64) -> (removed: bool)
        ensures
            removed == old(database)@.tokens.contains_key(user_id),
            final(database)@.tokens == old(database)@.tokens.remove(user_id),
            final(database)@.jobs == old(database)@.jobs,
            final(database)@.queue == old(database)@.queue,
            final(database)@.next_id == old(database)@.next_id,
            old(database)@.wf() ==> final(database)@.wf(),
    {
        database.delete_token(user_id)
    }
}

/// Removing an absent credential finds nothing and changes nothing, so a
/// repeated `delete_token` of the same user reports "nothing removed" on the
/// first and on every later call, and never fails.
pub proof fn lemma_delete_token_idempotent(tokens: Map<u64, String>, user_id: u64)
    requires
        !tokens.contains_key(user_id),
    ensures
        tokens.remove(user_id) == tokens,
{
    assert(tokens.remove(user_id) =~= tokens);
}

} // verus!
