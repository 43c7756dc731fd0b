//! The watcher of the configuration file.
//!
//! The watcher asks for one thing at a time: to wait for notifications, to
//! put a watch on the file, to sleep, or to load the file. The caller does
//! what is asked and answers with how it went. A file that was deleted is
//! watched anew before it is loaded, however long it takes to come back.

use crate::config::Config;
use vstd::prelude::*;

verus! {

/// The seconds between two attempts to watch a file that is not there.
pub const RETRY_SECONDS: u64 = 10;

/// The notification that the file was closed after writing.
pub const CLOSE_WRITE: u32 = 0x0000_0008;

/// The notification that the file itself was deleted.
pub const DELETE_SELF: u32 = 0x0000_0400;

/// `inotify::WatchMask::CLOSE_WRITE` as bits: the contract claims the value
/// of the kernel's `IN_CLOSE_WRITE`.
#[verifier::external_body]
fn watch_close_write_bits() -> (r: u32)
    ensures
        r == CLOSE_WRITE,
{
    inotify::WatchMask::CLOSE_WRITE.bits()
}

/// `inotify::WatchMask::DELETE_SELF` as bits: the contract claims the value
/// of the kernel's `IN_DELETE_SELF`.
#[verifier::external_body]
fn watch_delete_self_bits() -> (r: u32)
    ensures
        r == DELETE_SELF,
{
    inotify::WatchMask::DELETE_SELF.bits()
}

/// `inotify::EventMask::DELETE_SELF` as bits: the contract claims the value
/// of the kernel's `IN_DELETE_SELF`.
#[verifier::external_body]
fn event_delete_self_bits() -> (r: u32)
    ensures
        r == DELETE_SELF,
{
    inotify::EventMask::DELETE_SELF.bits()
}

/// What the watcher asks to be told of: writes that were closed, and the
/// deletion of the file.
pub open spec fn spec_watch_mask() -> u32 {
    CLOSE_WRITE | DELETE_SELF
}

/// What the watcher asks to be told of, as the bits of a watch mask.
pub fn watch_mask() -> (r: u32)
    ensures
        r == spec_watch_mask(),
        r == 0x408,
{
    let r = watch_close_write_bits() | watch_delete_self_bits();
    assert(0x0000_0008u32 | 0x0000_0400u32 == 0x408u32) by (bit_vector);
    r
}

/// The notification tells that the watched file was deleted.
pub open spec fn spec_is_deletion(mask: u32) -> bool {
    mask & DELETE_SELF == DELETE_SELF
}

/// Whether a notification, given as the bits of its mask, tells that the
/// watched file was deleted.
#[verifier::when_used_as_spec(spec_is_deletion)]
pub fn is_deletion(mask: u32) -> (r: bool)
    ensures
        r == spec_is_deletion(mask),
{
    let flag = event_delete_self_bits();
    mask & flag == flag
}

/// The test that a notification tells of a deletion.
pub open spec fn deletion_test() -> spec_fn(u32) -> bool {
    |mask: u32| spec_is_deletion(mask)
}

/// How many notifications of a batch tell of a deletion.
pub open spec fn deletions(masks: Seq<u32>) -> nat {
    masks.filter(deletion_test()).len()
}

/// Counts the notifications of a batch that tell of a deletion.
pub fn count_deletions(masks: &Vec<u32>) -> (r: usize)
    ensures
        r == deletions(masks@),
{
    let mut count: usize = 0;
    let mut i: usize = 0;
    proof {
        reveal(Seq::filter);
    }
    while i < masks.len()
        invariant
            i <= masks.len(),
            count == deletions(masks@.take(i as int)),
            count <= i,
        decreases masks.len() - i,
    {
        proof {
            reveal(Seq::filter);
            assert(masks@.take(i + 1).drop_last() =~= masks@.take(i as int));
        }
        if is_deletion(masks[i]) {
            count += 1;
        }
        i += 1;
    }
    proof {
        assert(masks@.take(masks.len() as int) =~= masks@);
    }
    count
}

/// What the watcher asks its caller to do.
#[derive(Clone, Copy, Debug, PartialEq, Eq, Structural)]
pub enum Request {
    /// Wait for the next batch of notifications.
    Read,
    /// Put a watch with this mask on the configuration file.
    Watch { mask: u32 },
    /// Let this many seconds pass.
    Sleep { seconds: u64 },
    /// Load the configuration file.
    Load,
}

/// How what the watcher asked for went.
#[derive(Debug, PartialEq, Eq)]
pub enum Answer {
    /// A batch of notifications arrived; these are the bits of their masks.
    Notified(Vec<u32>),
    /// Waiting for notifications failed, for this reason.
    ReadFailed(String),
    /// The watch was put on the file, or it was not.
    Watched(bool),
    /// The time has passed.
    Slept,
    /// The file was loaded, or it could not be, for this reason.
    Loaded(Result<Config, String>),
}

/// What follows from an answer.
#[derive(Debug, PartialEq, Eq)]
pub struct Reaction {
    /// A warning for the log.
    pub warn: Option<String>,
    /// A configuration for the event loop.
    pub publish: Option<Config>,
    /// What to do next.
    pub next: Request,
}

/// Where the watcher stands.
#[derive(Clone, Copy, Debug, PartialEq, Eq, Structural)]
pub enum Watcher {
    /// The first watch is being put on the file.
    Arming,
    /// The next batch of notifications is awaited.
    Waiting,
    /// A watch is being put back after a deletion. `deletions` counts the
    /// deletions of the batch that are not dealt with yet, this one
    /// included; `failed` tells that the attempt before this one failed.
    Rearming { deletions: usize, failed: bool },
    /// Two attempts in a row have failed, and time is let pass.
    Sleeping { deletions: usize },
    /// The file is being loaded.
    Loading,
}

impl Watcher {
    /// What the watcher has asked for and awaits the answer to.
    pub open spec fn request(self) -> Request {
        match self {
            Watcher::Arming | Watcher::Rearming { .. } => Request::Watch {
                mask: spec_watch_mask(),
            },
            Watcher::Waiting => Request::Read,
            Watcher::Sleeping { .. } => Request::Sleep { seconds: RETRY_SECONDS },
            Watcher::Loading => Request::Load,
        }
    }

    /// Where the watcher stands after an answer. An answer to something
    /// that was not asked changes nothing.
    pub open spec fn after(self, answer: Answer) -> Watcher {
        match (self, answer) {
            (Watcher::Arming, Answer::Watched(_)) => Watcher::Waiting,
            (Watcher::Waiting, Answer::Notified(masks)) => if deletions(masks@) > 0 {
                Watcher::Rearming { deletions: deletions(masks@) as usize, failed: false }
            } else {
                Watcher::Loading
            },
            (Watcher::Rearming { deletions, .. }, Answer::Watched(true)) => if deletions > 1 {
                Watcher::Rearming { deletions: (deletions - 1) as usize, failed: false }
            } else {
                Watcher::Loading
            },
            (Watcher::Rearming { deletions, failed: false }, Answer::Watched(false)) => {
                Watcher::Rearming { deletions, failed: true }
            },
            (Watcher::Rearming { deletions, failed: true }, Answer::Watched(false)) => {
                Watcher::Sleeping { deletions }
            },
            (Watcher::Sleeping { deletions }, Answer::Slept) => Watcher::Rearming {
                deletions,
                failed: true,
            },
            (Watcher::Loading, Answer::Loaded(_)) => Watcher::Waiting,
            _ => self,
        }
    }

    /// The warning that an answer leads to: the reason why waiting for
    /// notifications or loading the file failed.
    pub open spec fn warning(self, answer: Answer) -> Option<Seq<char>> {
        match (self, answer) {
            (Watcher::Waiting, Answer::ReadFailed(reason)) => Some(reason@),
            (Watcher::Loading, Answer::Loaded(Err(reason))) => Some(reason@),
            _ => None,
        }
    }

    /// The configuration that an answer hands to the event loop: the one
    /// that was just loaded.
    pub open spec fn published(self, answer: Answer) -> Option<Config> {
        match (self, answer) {
            (Watcher::Loading, Answer::Loaded(Ok(config))) => Some(config),
            _ => None,
        }
    }

    /// A watcher that has nothing done yet, and what it asks for first.
    pub fn start() -> (r: (Watcher, Request))
        ensures
            r.0 == Watcher::Arming,
            r.1 == r.0.request(),
    {
        (Watcher::Arming, Request::Watch { mask: watch_mask() })
    }

    /// What the watcher has asked for and awaits the answer to.
    pub fn pending(&self) -> (r: Request)
        ensures
            r == self.request(),
    {
        match self {
            Watcher::Arming => Request::Watch { mask: watch_mask() },
            Watcher::Rearming { .. } => Request::Watch { mask: watch_mask() },
            Watcher::Waiting => Request::Read,
            Watcher::Sleeping { .. } => Request::Sleep { seconds: RETRY_SECONDS },
            Watcher::Loading => Request::Load,
        }
    }

    /// Takes the answer to what was asked, and says what follows from it and
    /// what to do next.
    pub fn step(&mut self, answer: Answer) -> (r: Reaction)
        ensures
            *final(self) == old(self).after(answer),
            r.next == final(self).request(),
            r.publish == old(self).published(answer),
            match r.warn {
                Some(text) => old(self).warning(answer) == Some(text@),
                None => old(self).warning(answer) is None,
            },
    {
        let mut warn: Option<String> = None;
        let mut publish: Option<Config> = None;
        match (*self, answer) {
            (Watcher::Arming, Answer::Watched(_)) => {
                *self = Watcher::Waiting;
            },
            (Watcher::Waiting, Answer::Notified(masks)) => {
                let count = count_deletions(&masks);
                if count > 0 {
                    *self = Watcher::Rearming { deletions: count, failed: false };
                } else {
                    *self = Watcher::Loading;
                }
            },
            (Watcher::Waiting, Answer::ReadFailed(reason)) => {
                warn = Some(reason);
            },
            (Watcher::Rearming { deletions, failed }, Answer::Watched(done)) => {
                if done {
                    if deletions > 1 {
                        *self = Watcher::Rearming { deletions: deletions - 1, failed: false };
                    } else {
                        *self = Watcher::Loading;
                    }
                } else if failed {
                    *self = Watcher::Sleeping { deletions };
                } else {
                    *self = Watcher::Rearming { deletions, failed: true };
                }
            },
            (Watcher::Sleeping { deletions }, Answer::Slept) => {
                *self = Watcher::Rearming { deletions, failed: true };
            },
            (Watcher::Loading, Answer::Loaded(loaded)) => {
                *self = Watcher::Waiting;
                match loaded {
                    Ok(config) => {
                        publish = Some(config);
                    },
                    Err(reason) => {
                        warn = Some(reason);
                    },
                }
            },
            _ => {},
        }
        let next = self.pending();
        Reaction { warn, publish, next }
    }
}

/// An answer that tells of no watch put on the file: a failed attempt, or
/// time that has passed.
pub open spec fn without_watch(answer: Answer) -> bool {
    answer == Answer::Watched(false) || answer == Answer::Slept
}

/// Where the watcher stands after a run of answers, the oldest first.
pub open spec fn after_all(w: Watcher, answers: Seq<Answer>) -> Watcher
    decreases answers.len(),
{
    if answers.len() == 0 {
        w
    } else {
        after_all(w, answers.drop_last()).after(answers.last())
    }
}

/// The watcher is putting a watch back after this many deletions, or sleeps
/// before it tries again.
pub open spec fn rearming(w: Watcher, deletions: usize) -> bool {
    w == (Watcher::Sleeping { deletions }) || (exists|failed: bool|
        w == (Watcher::Rearming { deletions, failed }))
}

/// A deleted file is not loaded before a watch is back on it: as long as no
/// attempt succeeds, the watcher goes on trying and sleeping, and asks for
/// nothing else.
pub proof fn lemma_no_load_before_watch(w: Watcher, deletions: usize, answers: Seq<Answer>)
    requires
        rearming(w, deletions),
        forall|i: int| 0 <= i < answers.len() ==> without_watch(#[trigger] answers[i]),
    ensures
        rearming(after_all(w, answers), deletions),
        after_all(w, answers).request() != Request::Load,
        after_all(w, answers).request() != Request::Read,
    decreases answers.len(),
{
    if answers.len() > 0 {
        let earlier = answers.drop_last();
        lemma_no_load_before_watch(w, deletions, earlier);
    }
}

/// The watcher sleeps only after two attempts in a row have failed, and
/// then for the fixed time.
pub proof fn lemma_sleep_follows_two_failures(w: Watcher, answer: Answer)
    requires
        !(w is Sleeping),
        w.after(answer) is Sleeping,
    ensures
        w matches Watcher::Rearming { failed: true, .. },
        answer == Answer::Watched(false),
        w.after(answer).request() == (Request::Sleep { seconds: RETRY_SECONDS }),
{
}

/// Nothing is handed to the event loop but a configuration that was loaded
/// in answer to the watcher's own request, and a load that fails hands on
/// nothing.
pub proof fn lemma_publishes_what_was_loaded(w: Watcher, answer: Answer)
    ensures
        w.published(answer) matches Some(config) ==> w.request() == Request::Load && answer
            == Answer::Loaded(Ok(config)),
        answer matches Answer::Loaded(Err(_)) ==> w.published(answer) is None,
{
}

} // verus!
