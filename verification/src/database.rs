use vstd::prelude::*;

use std::collections::HashMap;
use std::collections::VecDeque;

use crate::links::contains_link;
use crate::token::is_valid_token;
use crate::types::{BotError, BotErrorKind, BotResult};

verus! {

broadcast use vstd::std_specs::hash::group_hash_axioms;

/// One admitted job: who asked, where to report, and what to fetch.
#[derive(Debug, PartialEq, Eq)]
pub struct JobRecord {
    pub user_id: u64,
    pub chat_id: u64,
    pub url: String,
}

impl Clone for JobRecord {
    fn clone(&self) -> (res: JobRecord)
        ensures
            res == *self,
    {
        JobRecord { user_id: self.user_id, chat_id: self.chat_id, url: self.url.clone() }
    }
}

/// The abstract state of the backing store: the credential records, the job
/// records, the FIFO of pending job ids, and the id counter.
pub struct DbModel {
    pub tokens: Map<u64, String>,
    pub jobs: Map<u64, JobRecord>,
    pub queue: Seq<u64>,
    pub next_id: u64,
}

impl DbModel {
    /// The store's invariant.
    ///
    /// - A pending job id is signalled at most once: the queue holds no
    ///   duplicates.
    /// - Ids are allocated by counting up from one, so every recorded or
    ///   queued id lies between one and the counter.
    /// - A stored credential always satisfies the credential grammar.
    /// - A stored job always holds a submission that passed the link check.
    pub open spec fn wf(self) -> bool {
        &&& forall|i: int, j: int|
            0 <= i < j < self.queue.len() ==> self.queue[i] != self.queue[j]
        &&& forall|i: int| 0 <= i < self.queue.len() ==> 1 <= #[trigger] self.queue[i] <= self.next_id
        &&& forall|id: u64| self.jobs.contains_key(id) ==> 1 <= id <= self.next_id
        &&& forall|u: u64| self.tokens.contains_key(u) ==> is_valid_token(#[trigger] self.tokens[u]@)
        &&& forall|id: u64|
            self.jobs.contains_key(id) ==> contains_link(#[trigger] self.jobs[id].url@)
    }
}

/// The single backing store shared by every component: per-user credentials,
/// job records keyed by a monotonically increasing id, and the FIFO list that
/// signals pending jobs to workers.
pub struct Database {
    tokens: HashMap<u64, String>,
    jobs: HashMap<u64, JobRecord>,
    queue: VecDeque<u64>,
    next_id: u64,
}

impl View for Database {
    type V = DbModel;

    closed spec fn view(&self) -> DbModel {
        DbModel {
            tokens: self.tokens@,
            jobs: self.jobs@,
            queue: self.queue@,
            next_id: self.next_id,
        }
    }
}

impl Database {
    /// A fresh store: no credentials, no jobs, nothing queued.
    pub fn new() -> (db: Database)
        ensures
            db@.tokens == Map::<u64, String>::empty(),
            db@.jobs == Map::<u64, JobRecord>::empty(),
            db@.queue == Seq::<u64>::empty(),
            db@.next_id == 0,
            db@.wf(),
    {
        Database {
            tokens: HashMap::new(),
            jobs: HashMap::new(),
            queue: VecDeque::new(),
            next_id: 0,
        }
    }

    /// The job id handed out by the most recent admission; the next admission
    /// gets the following id.  Callers use this to see that the counter has
    /// room before admitting.
    pub fn last_job_id(&self) -> (r: u64)
        ensures
            r == self@.next_id,
    {
        self.next_id
    }

    /// Looks up the credential of `user_id`.  Absence is the expected
    /// "not found" outcome, reported as an empty-token error.
    pub fn get_token(&self, user_id: u64) -> (r: BotResult<String>)
        ensures
            match r {
                Ok(token) => self@.tokens.contains_key(user_id) && token == self@.tokens[user_id],
                Err(e) => !self@.tokens.contains_key(user_id) && e.kind
                    == BotErrorKind::EmptyTokenError,
            },
    {
        match self.tokens.get(&user_id) {
            Some(token) => Ok(token.clone()),
            None => Err(BotError::new(BotErrorKind::EmptyTokenError)),
        }
    }

    /// Stores `token` for `user_id`, overwriting any earlier record.  Only
    /// tokens that already passed the credential grammar may be persisted.
    pub fn set_token(&mut self, user_id: u64, token: String)
        requires
            is_valid_token(token@),
        ensures
            final(self)@.tokens == old(self)@.tokens.insert(user_id, token),
            final(self)@.jobs == old(self)@.jobs,
            final(self)@.queue == old(self)@.queue,
            final(self)@.next_id == old(self)@.next_id,
            old(self)@.wf() ==> final(self)@.wf(),
    {
        self.tokens.insert(user_id, token);
        proof {
            if old(self)@.wf() {
                assert forall|u: u64| self@.tokens.contains_key(u) implies is_valid_token(
                    #[trigger] self@.tokens[u]@,
                ) by {
                    if u != user_id {
                        assert(is_valid_token(old(self)@.tokens[u]@));
                    }
                }
                assert(self@.queue =~= old(self)@.queue);
                assert(self@.jobs =~= old(self)@.jobs);
                assert(self@.wf());
            }
        }
    }

    /// Removes the credential of `user_id`.  Deleting an absent record is not
    /// an error; the result says whether anything was removed.
    pub fn delete_token(&mut self, user_id: u64) -> (removed: bool)
        ensures
            removed == old(self)@.tokens.contains_key(user_id),
            final(self)@.tokens == old(self)@.tokens.remove(user_id),
            final(self)@.jobs == old(self)@.jobs,
            final(self)@.queue == old(self)@.queue,
            final(self)@.next_id == old(self)@.next_id,
            old(self)@.wf() ==> final(self)@.wf(),
    {
        self.tokens.remove(&user_id).is_some()
    }

    /// Reads the job record of `processing_id`, if it exists.
    pub fn get_request(&self, processing_id: u64) -> (r: Option<JobRecord>)
        ensures
            match r {
                Some(record) => self@.jobs.contains_key(processing_id) && record
                    == self@.jobs[processing_id],
                None => !self@.jobs.contains_key(processing_id),
            },
    {
        match self.jobs.get(&processing_id) {
            Some(record) => Some(record.clone()),
            None => None,
        }
    }

    /// Admits a job: allocates the next id, writes the record, and signals the
    /// queue, so that the record and its signal appear together.  Returns the
    /// new job id.
    pub fn add_request(&mut self, user_id: u64, chat_id: u64, url: String) -> (id: u64)
        requires
            old(self)@.next_id < u64::MAX,
            contains_link(url@),
        ensures
            id == old(self)@.next_id + 1,
            final(self)@.next_id == id,
            final(self)@.jobs == old(self)@.jobs.insert(id, JobRecord { user_id, chat_id, url }),
            final(self)@.queue == old(self)@.queue.push(id),
            final(self)@.tokens == old(self)@.tokens,
            old(self)@.wf() ==> final(self)@.wf(),
    {
        let id = self.next_id + 1;
        self.next_id = id;
        self.jobs.insert(id, JobRecord { user_id, chat_id, url });
        self.queue.push_back(id);
        id
    }

    /// Takes the oldest pending job id off the queue, if any.  The id is
    /// handed out exactly once: it is no longer in the queue afterwards.
    pub fn wait_for_request(&mut self) -> (r: Option<u64>)
        ensures
            match r {
                Some(id) => old(self)@.queue.len() > 0 && id == old(self)@.queue[0] && final(self)@.queue
                    == old(self)@.queue.subrange(1, old(self)@.queue.len() as int),
                None => old(self)@.queue.len() == 0 && final(self)@.queue == old(self)@.queue,
            },
            final(self)@.tokens == old(self)@.tokens,
            final(self)@.jobs == old(self)@.jobs,
            final(self)@.next_id == old(self)@.next_id,
            old(self)@.wf() ==> final(self)@.wf(),
    {
        self.queue.pop_front()
    }

    /// Deletes the job record of `processing_id` once processing has
    /// concluded.  The result says whether a record was there.
    pub fn delete_request(&mut self, processing_id: u64) -> (removed: bool)
        ensures
            removed == old(self)@.jobs.contains_key(processing_id),
            final(self)@.jobs == old(self)@.jobs.remove(processing_id),
            final(self)@.tokens == old(self)@.tokens,
            final(self)@.queue == old(self)@.queue,
            final(self)@.next_id == old(self)@.next_id,
            old(self)@.wf() ==> final(self)@.wf(),
    {
        let removed = self.jobs.remove(&processing_id).is_some();
        proof {
            if old(self)@.wf() {
                assert forall|id: u64| self@.jobs.contains_key(id) implies 1 <= id
                    <= self@.next_id && contains_link(#[trigger] self@.jobs[id].url@) by {
                    assert(old(self)@.jobs.contains_key(id));
                    assert(contains_link(old(self)@.jobs[id].url@));
                }
                assert(self@.queue =~= old(self)@.queue);
                assert(self@.tokens =~= old(self)@.tokens);
                assert(self@.wf());
            }
        }
        removed
    }
}

} // verus!
