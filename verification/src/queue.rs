use vstd::prelude::*;

use crate::database::{Database, DbModel, JobRecord};
use crate::links::contains_link;
use crate::types::{BotError, BotErrorKind, BotResult};

verus! {

/// Job admission and the worker pipeline.
///
/// Admission turns a submission into a durable job record plus a queue
/// signal.  The pipeline itself alternates store reads with outside work
/// (chat notifications, the download, the upload), so it is phrased as a
/// state machine: the caller performs each returned [`WorkerAction`], feeds
/// the outcome back in as a [`WorkerEvent`], and the machine decides the next
/// step.  Any failure abandons the job in flight and sends the worker back to
/// waiting; no event can make the machine refuse to continue.
///
/// An abandoned job keeps its record, is never retried, and its chat gets no
/// failure notice — only the terminal "Done!" stays absent.  Whether to add a
/// failure notification or a cleanup sweep for such records is a design
/// choice deliberately left open here.
pub struct Queue {}

/// Where a worker stands in the pipeline of one job.
pub enum WorkerState {
    /// Between jobs, waiting for a signal.
    Waiting,
    /// Job claimed; the "Downloading..." notice is being sent.
    SendingDownloadNotice { job_id: u64, chat_id: u64, url: String, token: String },
    /// The download of `url` is running.
    Downloading { job_id: u64, chat_id: u64, url: String, token: String },
    /// Download finished; the "Uploading..." notice is being sent.
    SendingUploadNotice { job_id: u64, chat_id: u64, token: String, title: String, path: String },
    /// The upload is running.
    Uploading { job_id: u64, chat_id: u64, token: String, title: String, path: String },
    /// Upload finished; the "Done!" notice is being sent.
    SendingDoneNotice { job_id: u64, chat_id: u64 },
    /// The job record is being removed.
    Cleaning { job_id: u64 },
}

/// What the outside world reports back to the worker.
pub enum WorkerEvent {
    /// The blocking dequeue handed out this job id.
    Signal { job_id: u64 },
    /// The pending notification was delivered.
    Sent,
    /// The pending notification could not be delivered.
    SendFailed,
    /// The download produced a title and a local file path.
    Downloaded { title: String, path: String },
    /// The download failed.
    DownloadFailed,
    /// The upload was acknowledged.
    Uploaded,
    /// The upload failed.
    UploadFailed,
    /// The job record was removed.
    Removed,
    /// The job record could not be removed.
    RemoveFailed,
}

/// What the worker asks the outside world to do next.
pub enum WorkerAction {
    /// Block on the queue for the next signal.
    AwaitSignal,
    /// Send `text` to the chat `chat_id`.
    Notify { chat_id: u64, text: String },
    /// Download the audio behind `url`.
    Download { url: String },
    /// Upload the downloaded file under the user's credential.
    Upload { token: String, title: String, path: String },
    /// Delete the finished job's record, then report back.
    RemoveRecord { job_id: u64 },
}

/// The worker pipeline's transition relation: from `state`, on `event`, with
/// the store at `db`, the worker moves to `next` and asks for `action`.
///
/// A claimed job is abandoned on the first failure event, and an event that
/// does not belong to the current state abandons likewise: every pair of
/// state and event has a successor, so a worker loop never terminates on a
/// job-level failure.
pub open spec fn step_rel(
    db: DbModel,
    state: WorkerState,
    event: WorkerEvent,
    next: WorkerState,
    action: WorkerAction,
) -> bool {
    match (state, event) {
        (WorkerState::Waiting, WorkerEvent::Signal { job_id }) => {
            if db.jobs.contains_key(job_id) && db.tokens.contains_key(db.jobs[job_id].user_id) {
                &&& next == (WorkerState::SendingDownloadNotice {
                    job_id,
                    chat_id: db.jobs[job_id].chat_id,
                    url: db.jobs[job_id].url,
                    token: db.tokens[db.jobs[job_id].user_id],
                })
                &&& action matches WorkerAction::Notify { chat_id, text } && chat_id
                    == db.jobs[job_id].chat_id && text@ == "Downloading..."@
            } else {
                next == WorkerState::Waiting && action == WorkerAction::AwaitSignal
            }
        },
        (
            WorkerState::SendingDownloadNotice { job_id, chat_id, url, token },
            WorkerEvent::Sent,
        ) => {
            &&& next == (WorkerState::Downloading { job_id, chat_id, url, token })
            &&& action == (WorkerAction::Download { url })
        },
        (
            WorkerState::Downloading { job_id, chat_id, url, token },
            WorkerEvent::Downloaded { title, path },
        ) => {
            &&& next == (WorkerState::SendingUploadNotice { job_id, chat_id, token, title, path })
            &&& action matches WorkerAction::Notify { chat_id: c, text } && c == chat_id && text@
                == "Uploading..."@
        },
        (
            WorkerState::SendingUploadNotice { job_id, chat_id, token, title, path },
            WorkerEvent::Sent,
        ) => {
            &&& next == (WorkerState::Uploading { job_id, chat_id, token, title, path })
            &&& action == (WorkerAction::Upload { token, title, path })
        },
        (WorkerState::Uploading { job_id, chat_id, token, title, path }, WorkerEvent::Uploaded) => {
            &&& next == (WorkerState::SendingDoneNotice { job_id, chat_id })
            &&& action matches WorkerAction::Notify { chat_id: c, text } && c == chat_id && text@
                == "Done!"@
        },
        (WorkerState::SendingDoneNotice { job_id, chat_id }, WorkerEvent::Sent) => {
            &&& next == (WorkerState::Cleaning { job_id })
            &&& action == (WorkerAction::RemoveRecord { job_id })
        },
        (WorkerState::Cleaning { job_id }, WorkerEvent::Removed) => {
            next == WorkerState::Waiting && action == WorkerAction::AwaitSignal
        },
        _ => { next == WorkerState::Waiting && action == WorkerAction::AwaitSignal },
    }
}

/// The store after a successful admission: the next id is allocated, the job
/// record is written, and the id is signalled at the queue's tail.
pub open spec fn admit_transition(
    db: DbModel,
    user_id: u64,
    chat_id: u64,
    url: String,
) -> DbModel {
    let id = (db.next_id + 1) as u64;
    DbModel {
        tokens: db.tokens,
        jobs: db.jobs.insert(id, JobRecord { user_id, chat_id, url }),
        queue: db.queue.push(id),
        next_id: id,
    }
}

/// The store and the delivered id after one blocking dequeue: the oldest
/// signal leaves the queue, everything else stays.
pub open spec fn wait_transition(db: DbModel) -> (DbModel, Option<u64>) {
    if db.queue.len() > 0 {
        (
            DbModel {
                tokens: db.tokens,
                jobs: db.jobs,
                queue: db.queue.subrange(1, db.queue.len() as int),
                next_id: db.next_id,
            },
            Some(db.queue[0]),
        )
    } else {
        (db, None)
    }
}

impl Queue {
    /// Admits a submission as a job.  In order: the text must contain a link
    /// of the accepted shape, the user must have a stored credential, and
    /// only then is the job id allocated, the record written and the queue
    /// signalled.  On any rejection the store is untouched, so a rejected
    /// submission leaves neither a record nor a signal behind.
    pub fn add_request(
        database: &mut Database,
        user_id: u64,
        chat_id: u64,
        msg_text: String,
    ) -> (r: BotResult<u64>)
        requires
            old(database)@.next_id < u64::MAX,
        ensures
            old(database)@.wf() ==> final(database)@.wf(),
            match r {
                Ok(id) => {
                    &&& contains_link(msg_text@)
                    &&& old(database)@.tokens.contains_key(user_id)
                    &&& id == old(database)@.next_id + 1
                    &&& final(database)@ == admit_transition(
                        old(database)@,
                        user_id,
                        chat_id,
                        msg_text,
                    )
                },
                Err(e) => {
                    &&& final(database)@.tokens == old(database)@.tokens
                    &&& final(database)@.jobs == old(database)@.jobs
                    &&& final(database)@.queue == old(database)@.queue
                    &&& final(database)@.next_id == old(database)@.next_id
                    &&& (e.kind == BotErrorKind::InvalidUrlError || e.kind
                        == BotErrorKind::EmptyTokenError)
                    &&& (e.kind == BotErrorKind::InvalidUrlError <==> !contains_link(msg_text@))
                    &&& (e.kind == BotErrorKind::EmptyTokenError <==> contains_link(msg_text@)
                        && !old(database)@.tokens.contains_key(user_id))
                },
            },
    {
        if !crate::links::is_youtube_link(msg_text.as_str()) {
            return Err(BotError::new(BotErrorKind::InvalidUrlError));
        }
        match database.get_token(user_id) {
            Ok(_) => (),
            Err(e) => {
                return Err(e);
            },
        }
        let id = database.add_request(user_id, chat_id, msg_text);
        Ok(id)
    }

    /// Deletes a finished job's record; the result says whether a record was
    /// there.
    pub fn delete_request(database: &mut Database, processing_id: u64) -> (removed: bool)
        ensures
            removed == old(database)@.jobs.contains_key(processing_id),
            final(database)@.jobs == old(database)@.jobs.remove(processing_id),
            final(database)@.tokens == old(database)@.tokens,
            final(database)@.queue == old(database)@.queue,
            final(database)@.next_id == old(database)@.next_id,
            old(database)@.wf() ==> final(database)@.wf(),
    {
        database.delete_request(processing_id)
    }

    /// One decision of the worker pipeline: claims the job on a signal (and
    /// abandons it when its record or its owner's credential is missing),
    /// walks the notify-download-notify-upload-notify sequence on success
    /// events, asks for the record's removal at the end, and abandons the job
    /// on any failure event.  The store is only read; removal happens when
    /// the caller performs [`WorkerAction::RemoveRecord`].
    pub fn worker_step(database: &Database, state: WorkerState, event: WorkerEvent) -> (r: (
        WorkerState,
        WorkerAction,
    ))
        ensures
            step_rel(database@, state, event, r.0, r.1),
    {
        match (state, event) {
            (WorkerState::Waiting, WorkerEvent::Signal { job_id }) => {
                match database.get_request(job_id) {
                    Some(record) => {
                        match database.get_token(record.user_id) {
                            Ok(token) => (
                                WorkerState::SendingDownloadNotice {
                                    job_id,
                                    chat_id: record.chat_id,
                                    url: record.url,
                                    token,
                                },
                                WorkerAction::Notify {
                                    chat_id: record.chat_id,
                                    text: "Downloading...".to_owned(),
                                },
                            ),
                            Err(_) => (WorkerState::Waiting, WorkerAction::AwaitSignal),
                        }
                    },
                    None => (WorkerState::Waiting, WorkerAction::AwaitSignal),
                }
            },
            (
                WorkerState::SendingDownloadNotice { job_id, chat_id, url, token },
                WorkerEvent::Sent,
            ) => {
                let action_url = url.clone();
                (
                    WorkerState::Downloading { job_id, chat_id, url, token },
                    WorkerAction::Download { url: action_url },
                )
            },
            (
                WorkerState::Downloading { job_id, chat_id, url: _, token },
                WorkerEvent::Downloaded { title, path },
            ) => (
                WorkerState::SendingUploadNotice { job_id, chat_id, token, title, path },
                WorkerAction::Notify { chat_id, text: "Uploading...".to_owned() },
            ),
            (
                WorkerState::SendingUploadNotice { job_id, chat_id, token, title, path },
                WorkerEvent::Sent,
            ) => {
                let action_token = token.clone();
                let action_title = title.clone();
                let action_path = path.clone();
                (
                    WorkerState::Uploading { job_id, chat_id, token, title, path },
                    WorkerAction::Upload {
                        token: action_token,
                        title: action_title,
                        path: action_path,
                    },
                )
            },
            (
                WorkerState::Uploading { job_id, chat_id, token: _, title: _, path: _ },
                WorkerEvent::Uploaded,
            ) => (
                WorkerState::SendingDoneNotice { job_id, chat_id },
                WorkerAction::Notify { chat_id, text: "Done!".to_owned() },
            ),
            (WorkerState::SendingDoneNotice { job_id, chat_id: _ }, WorkerEvent::Sent) => (
                WorkerState::Cleaning { job_id },
                WorkerAction::RemoveRecord { job_id },
            ),
            (WorkerState::Cleaning { job_id: _ }, WorkerEvent::Removed) => (
                WorkerState::Waiting,
                WorkerAction::AwaitSignal,
            ),
            _ => (WorkerState::Waiting, WorkerAction::AwaitSignal),
        }
    }
}

/// A submission admitted on an idle queue is the very next job delivered: the
/// dequeue hands out exactly the id the admission returned, and the record
/// read back under that id is the admitted triple of user, chat and link.
pub proof fn lemma_admit_round_trip(db: DbModel, user_id: u64, chat_id: u64, url: String)
    requires
        db.wf(),
        db.queue.len() == 0,
        db.next_id < u64::MAX,
        db.tokens.contains_key(user_id),
        contains_link(url@),
    ensures
        ({
            let id = (db.next_id + 1) as u64;
            let db1 = admit_transition(db, user_id, chat_id, url);
            let (db2, delivered) = wait_transition(db1);
            &&& delivered == Some(id)
            &&& db2.queue.len() == 0
            &&& db2.jobs.contains_key(id)
            &&& db2.jobs[id] == (JobRecord { user_id, chat_id, url })
        }),
{
}

/// The queue delivers each signal exactly once: a dequeue hands out the
/// oldest id, that id is no longer in the queue afterwards (it cannot be
/// delivered a second time), and every other pending signal is still there
/// (none is dropped).
pub proof fn lemma_signal_delivered_once(db: DbModel)
    requires
        db.wf(),
        db.queue.len() > 0,
    ensures
        ({
            let (db2, delivered) = wait_transition(db);
            &&& delivered == Some(db.queue[0])
            &&& db2.queue.len() == db.queue.len() - 1
            &&& !db2.queue.contains(db.queue[0])
            &&& forall|id: u64|
                db.queue.contains(id) && id != db.queue[0] ==> #[trigger] db2.queue.contains(id)
        }),
{
    let (db2, delivered) = wait_transition(db);
    assert forall|id: u64|
        db.queue.contains(id) && id != db.queue[0] implies #[trigger] db2.queue.contains(id) by {
        let i = choose|i: int| 0 <= i < db.queue.len() && db.queue[i] == id;
        assert(db.queue[i] == id);
        assert(db2.queue[i - 1] == id);
    }
    if db2.queue.contains(db.queue[0]) {
        let i = choose|i: int| 0 <= i < db2.queue.len() && db2.queue[i] == db.queue[0];
        assert(db.queue[i + 1] == db.queue[0]);
    }
}

/// The store after `k` blocking dequeues in a row.
pub open spec fn wait_k(db: DbModel, k: int) -> DbModel
    decreases k,
{
    if k <= 0 {
        db
    } else {
        wait_transition(wait_k(db, k - 1)).0
    }
}

/// Draining the queue delivers the pending ids in admission order and drops
/// none: after `k` dequeues exactly the first `k` signals are gone, the
/// `k`-th dequeue delivers precisely the id at position `k`, and the job and
/// credential records are untouched throughout.  Together with the queue's
/// well-formedness (no duplicates) and with each dequeue handing its id to a
/// single caller, every admitted job id reaches exactly one worker exactly
/// once.
pub proof fn lemma_fifo_drain(db: DbModel, k: int)
    requires
        0 <= k <= db.queue.len(),
    ensures
        wait_k(db, k).queue == db.queue.subrange(k, db.queue.len() as int),
        wait_k(db, k).jobs == db.jobs,
        wait_k(db, k).tokens == db.tokens,
        k < db.queue.len() ==> wait_transition(wait_k(db, k)).1 == Some(db.queue[k]),
    decreases k,
{
    if k == 0 {
        assert(wait_k(db, 0).queue =~= db.queue.subrange(0, db.queue.len() as int));
    } else {
        lemma_fifo_drain(db, k - 1);
        assert(wait_k(db, k).queue =~= db.queue.subrange(k, db.queue.len() as int));
    }
}

/// A worker that claims a signalled job with a stored credential walks the
/// pipeline in order: it notifies "Downloading...", downloads the submitted
/// link, notifies "Uploading...", uploads under the owner's credential,
/// notifies "Done!", removes exactly the claimed job's record, and only then
/// returns to waiting.
pub proof fn lemma_pipeline_order(
    db: DbModel,
    job_id: u64,
    title: String,
    path: String,
    s1: WorkerState,
    a1: WorkerAction,
    s2: WorkerState,
    a2: WorkerAction,
    s3: WorkerState,
    a3: WorkerAction,
    s4: WorkerState,
    a4: WorkerAction,
    s5: WorkerState,
    a5: WorkerAction,
    s6: WorkerState,
    a6: WorkerAction,
    s7: WorkerState,
    a7: WorkerAction,
)
    requires
        db.jobs.contains_key(job_id),
        db.tokens.contains_key(db.jobs[job_id].user_id),
        step_rel(db, WorkerState::Waiting, WorkerEvent::Signal { job_id }, s1, a1),
        step_rel(db, s1, WorkerEvent::Sent, s2, a2),
        step_rel(db, s2, WorkerEvent::Downloaded { title, path }, s3, a3),
        step_rel(db, s3, WorkerEvent::Sent, s4, a4),
        step_rel(db, s4, WorkerEvent::Uploaded, s5, a5),
        step_rel(db, s5, WorkerEvent::Sent, s6, a6),
        step_rel(db, s6, WorkerEvent::Removed, s7, a7),
    ensures
        a1 matches WorkerAction::Notify { chat_id, text } && chat_id == db.jobs[job_id].chat_id
            && text@ == "Downloading..."@,
        a2 matches WorkerAction::Download { url } && url == db.jobs[job_id].url,
        a3 matches WorkerAction::Notify { chat_id, text } && chat_id == db.jobs[job_id].chat_id
            && text@ == "Uploading..."@,
        a4 matches WorkerAction::Upload { token, title: t, path: p } && token
            == db.tokens[db.jobs[job_id].user_id] && t == title && p == path,
        a5 matches WorkerAction::Notify { chat_id, text } && chat_id == db.jobs[job_id].chat_id
            && text@ == "Done!"@,
        a6 == (WorkerAction::RemoveRecord { job_id }),
        s7 == WorkerState::Waiting,
{
}

} // verus!
