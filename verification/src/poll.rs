//! The confirmation poller: a bounded state machine that resolves a submitted
//! transaction's terminal status from a stream of status replies.
use vstd::prelude::*;

verus! {

/// How many status polls are made before the outcome is declared unknown.
pub const MAX_POLL_ATTEMPTS: u32 = 30;

/// What one status poll observed. `Absent` means the remote node returned no
/// processed status record for the signature yet; `Present` means it returned
/// one, whose error field was `error` (None for a null or missing error).
#[derive(Debug, PartialEq, Eq, Clone)]
pub enum StatusReply {
    Absent,
    Present { error: Option<Vec<u8>> },
}

/// The mathematical value of a `StatusReply`.
pub enum StatusReplyV {
    Absent,
    Present { error: Option<Seq<u8>> },
}

impl View for StatusReply {
    type V = StatusReplyV;

    open spec fn view(&self) -> StatusReplyV {
        match self {
            StatusReply::Absent => StatusReplyV::Absent,
            StatusReply::Present { error: Option::None } => StatusReplyV::Present {
                error: Option::None,
            },
            StatusReply::Present { error: Option::Some(d) } => StatusReplyV::Present {
                error: Option::Some(d@),
            },
        }
    }
}

/// The lifecycle of a submitted transaction: created `Pending`, it moves
/// exactly once to one of the terminal states and never reverts.
#[derive(Debug, PartialEq, Eq, Clone)]
pub enum ConfirmationStatus {
    Pending,
    Confirmed,
    Failed { detail: Vec<u8> },
    TimedOut,
}

/// The mathematical value of a `ConfirmationStatus`.
pub enum ConfirmationStatusV {
    Pending,
    Confirmed,
    Failed { detail: Seq<u8> },
    TimedOut,
}

impl View for ConfirmationStatus {
    type V = ConfirmationStatusV;

    open spec fn view(&self) -> ConfirmationStatusV {
        match self {
            ConfirmationStatus::Pending => ConfirmationStatusV::Pending,
            ConfirmationStatus::Confirmed => ConfirmationStatusV::Confirmed,
            ConfirmationStatus::Failed { detail } => ConfirmationStatusV::Failed {
                detail: detail@,
            },
            ConfirmationStatus::TimedOut => ConfirmationStatusV::TimedOut,
        }
    }
}

impl ConfirmationStatusV {
    /// True of every state but `Pending`.
    pub open spec fn is_terminal(&self) -> bool {
        !(self is Pending)
    }
}

impl ConfirmationStatus {
    /// True of every state but `Pending`.
    pub fn is_terminal(&self) -> (r: bool)
        ensures
            r == self@.is_terminal(),
    {
        !matches!(self, ConfirmationStatus::Pending)
    }
}

/// The views of a sequence of replies.
pub open spec fn reply_views(rs: Seq<StatusReply>) -> Seq<StatusReplyV> {
    rs.map(|i: int, r: StatusReply| r@)
}

/// The state after one poll, `attempts_done` polls having already been made
/// before this one. A reply with a non-null error field is terminal failure;
/// a reply without one is confirmation; no reply leaves the transaction
/// pending until the attempt budget runs out.
pub open spec fn spec_poll_step(attempts_done: u32, reply: StatusReplyV) -> ConfirmationStatusV {
    match reply {
        StatusReplyV::Present { error: Option::Some(d) } => ConfirmationStatusV::Failed {
            detail: d,
        },
        StatusReplyV::Present { error: Option::None } => ConfirmationStatusV::Confirmed,
        StatusReplyV::Absent => if attempts_done + 1 >= MAX_POLL_ATTEMPTS {
            ConfirmationStatusV::TimedOut
        } else {
            ConfirmationStatusV::Pending
        },
    }
}

/// The outcome of polling through a sequence of replies with a given attempt
/// budget: the first reply that carries a status decides; running out of
/// budget, or of replies, is a timeout.
pub open spec fn spec_resolve(replies: Seq<StatusReplyV>, budget: nat) -> ConfirmationStatusV
    decreases budget,
{
    if budget == 0 || replies.len() == 0 {
        ConfirmationStatusV::TimedOut
    } else {
        match replies.first() {
            StatusReplyV::Present { error: Option::Some(d) } => ConfirmationStatusV::Failed {
                detail: d,
            },
            StatusReplyV::Present { error: Option::None } => ConfirmationStatusV::Confirmed,
            StatusReplyV::Absent => spec_resolve(replies.drop_first(), (budget - 1) as nat),
        }
    }
}

/// Tracks one transaction's confirmation across polls.
pub struct Poller {
    pub attempts: u32,
}

impl Poller {
    /// A fresh poller with the whole attempt budget left.
    pub fn new() -> (r: Poller)
        ensures
            r.attempts == 0,
    {
        Poller { attempts: 0 }
    }

    /// True while another poll may be made.
    pub fn can_poll(&self) -> (r: bool)
        ensures
            r == (self.attempts < MAX_POLL_ATTEMPTS),
    {
        self.attempts < MAX_POLL_ATTEMPTS
    }

    /// Feeds one observed reply to the machine and returns the state after it.
    pub fn observe(&mut self, reply: &StatusReply) -> (r: ConfirmationStatus)
        requires
            old(self).attempts < MAX_POLL_ATTEMPTS,
        ensures
            final(self).attempts == old(self).attempts + 1,
            r@ == spec_poll_step(old(self).attempts, reply@),
            r@ is Pending ==> final(self).attempts < MAX_POLL_ATTEMPTS,
    {
        let attempts_done = self.attempts;
        self.attempts = self.attempts + 1;
        match reply {
            StatusReply::Present { error: Option::Some(d) } => ConfirmationStatus::Failed {
                detail: crate::jsonb::copy_bytes(d),
            },
            StatusReply::Present { error: Option::None } => ConfirmationStatus::Confirmed,
            StatusReply::Absent => {
                if attempts_done + 1 >= MAX_POLL_ATTEMPTS {
                    ConfirmationStatus::TimedOut
                } else {
                    ConfirmationStatus::Pending
                }
            },
        }
    }
}

/// How many polls resolution makes: every reply up to and including the
/// first decisive one, never more than the budget nor than the replies.
pub open spec fn spec_polls_used(replies: Seq<StatusReplyV>, budget: nat) -> nat
    decreases budget,
{
    if budget == 0 || replies.len() == 0 {
        0
    } else if !(replies.first() is Absent) {
        1
    } else {
        1 + spec_polls_used(replies.drop_first(), (budget - 1) as nat)
    }
}

/// Resolves a whole stream of replies at once, one poll per reply, and also
/// reports how many polls were made: exactly the replies consumed up to and
/// including the first decisive one. The driver that polls a live node feeds
/// `Poller::observe` one reply per tick instead; both follow `spec_poll_step`.
pub fn resolve_replies(replies: &Vec<StatusReply>) -> (r: (ConfirmationStatus, usize))
    ensures
        r.0@ == spec_resolve(reply_views(replies@), MAX_POLL_ATTEMPTS as nat),
        r.0@.is_terminal(),
        r.1 == spec_polls_used(reply_views(replies@), MAX_POLL_ATTEMPTS as nat),
        r.1 <= MAX_POLL_ATTEMPTS,
        r.1 <= replies@.len(),
{
    let ghost rv = reply_views(replies@);
    proof {
        assert(rv.skip(0) =~= rv);
    }
    let mut poller = Poller::new();
    let mut i: usize = 0;
    while i < replies.len() && poller.can_poll()
        invariant
            i <= replies@.len(),
            poller.attempts == i,
            i <= MAX_POLL_ATTEMPTS,
            rv == reply_views(replies@),
            spec_resolve(rv, MAX_POLL_ATTEMPTS as nat) == spec_resolve(
                rv.skip(i as int),
                (MAX_POLL_ATTEMPTS - i) as nat,
            ),
            spec_polls_used(rv, MAX_POLL_ATTEMPTS as nat) == i + spec_polls_used(
                rv.skip(i as int),
                (MAX_POLL_ATTEMPTS - i) as nat,
            ),
        decreases replies@.len() - i,
    {
        let ghost rest = rv.skip(i as int);
        let status = poller.observe(&replies[i]);
        proof {
            assert(rest.first() == rv[i as int]);
            assert(rest.drop_first() =~= rv.skip(i as int + 1));
            if rest.first() is Absent {
                assert(spec_polls_used(rest, (MAX_POLL_ATTEMPTS - i) as nat) == 1
                    + spec_polls_used(rest.drop_first(), (MAX_POLL_ATTEMPTS - i - 1) as nat));
            } else {
                assert(spec_polls_used(rest, (MAX_POLL_ATTEMPTS - i) as nat) == 1);
            }
        }
        i += 1;
        match status {
            ConfirmationStatus::Pending => {},
            terminal => {
                return (terminal, i);
            },
        }
    }
    proof {
        if i < replies@.len() {
            // the attempt budget ran out while still pending
            assert(spec_resolve(rv.skip(i as int), 0) is TimedOut);
        } else {
            assert(rv.skip(i as int).len() == 0);
        }
    }
    (ConfirmationStatus::TimedOut, i)
}

/// The confirmation state machine always reaches a terminal state within the
/// attempt budget: whatever the replies, resolution never stays `Pending`, and
/// `resolve_replies` makes at most `MAX_POLL_ATTEMPTS` polls.
pub proof fn lemma_poll_bounded(replies: Seq<StatusReplyV>, budget: nat)
    ensures
        spec_resolve(replies, budget).is_terminal(),
    decreases budget,
{
    if budget > 0 && replies.len() > 0 {
        match replies.first() {
            StatusReplyV::Absent => {
                lemma_poll_bounded(replies.drop_first(), (budget - 1) as nat);
            },
            _ => {},
        }
    }
}

/// A status reply that carries a non-null error field always yields `Failed`,
/// never `Confirmed`, no matter how many attempts came before it.
pub proof fn lemma_error_reply_fails(attempts_done: u32, detail: Seq<u8>)
    ensures
        spec_poll_step(attempts_done, StatusReplyV::Present { error: Option::Some(detail) })
            == (ConfirmationStatusV::Failed { detail }),
        !(spec_poll_step(attempts_done, StatusReplyV::Present { error: Option::Some(detail) })
            is Confirmed),
{
}

} // verus!
