//! The re-index coordinator: a single pending flag that collapses any number
//! of requests into one follow-up cycle.

use vstd::prelude::*;

verus! {

/// Seconds between two periodic re-index requests where none is configured.
pub const DEFAULT_SLEEP_SECONDS: u64 = 1800;

/// The pending flag once `requests` more requests have been made.
pub open spec fn after_requests(pending: bool, requests: nat) -> bool
    decreases requests,
{
    if requests == 0 {
        pending
    } else {
        requested(after_requests(pending, (requests - 1) as nat))
    }
}

/// The pending flag after one request.
pub open spec fn requested(pending: bool) -> bool {
    true
}

/// The pending flag after the worker woke and claimed it.
pub open spec fn claimed(pending: bool) -> bool {
    false
}

/// How many cycles the worker runs when it wakes on this flag.
pub open spec fn cycles_on_wake(pending: bool) -> nat {
    if pending {
        1
    } else {
        0
    }
}

/// Single flight: however many requests arrive before the worker wakes, one or
/// a thousand, waking runs exactly one cycle, and waking once more without a
/// new request runs none.
pub proof fn lemma_single_flight(pending: bool, requests: nat)
    requires
        requests >= 1,
    ensures
        after_requests(pending, requests),
        cycles_on_wake(after_requests(pending, requests)) == 1,
        cycles_on_wake(claimed(after_requests(pending, requests))) == 0,
{
}

/// What reaches the shared flag: a request, or the worker waking up.
#[derive(Clone, Copy, Debug, PartialEq, Eq, Structural)]
pub enum Command {
    Trigger,
    Wake,
}

/// The pending flag after a run of commands.
pub open spec fn pending_after(pending: bool, commands: Seq<Command>) -> bool
    decreases commands.len(),
{
    if commands.len() == 0 {
        pending
    } else {
        match commands.last() {
            Command::Trigger => requested(pending_after(pending, commands.drop_last())),
            Command::Wake => claimed(pending_after(pending, commands.drop_last())),
        }
    }
}

/// How many cycles a run of commands starts.
pub open spec fn cycles_run(pending: bool, commands: Seq<Command>) -> nat
    decreases commands.len(),
{
    if commands.len() == 0 {
        0
    } else {
        match commands.last() {
            Command::Trigger => cycles_run(pending, commands.drop_last()),
            Command::Wake => cycles_run(pending, commands.drop_last()) + cycles_on_wake(
                pending_after(pending, commands.drop_last()),
            ),
        }
    }
}

/// How many requests a run of commands holds.
pub open spec fn requests_in(commands: Seq<Command>) -> nat
    decreases commands.len(),
{
    if commands.len() == 0 {
        0
    } else {
        requests_in(commands.drop_last()) + match commands.last() {
            Command::Trigger => 1nat,
            Command::Wake => 0nat,
        }
    }
}

/// No backlog: in whatever order requests and wake-ups arrive, the cycles
/// started and the one that may still be pending never outnumber the requests.
pub proof fn lemma_no_backlog(pending: bool, commands: Seq<Command>)
    ensures
        cycles_run(pending, commands) + cycles_on_wake(pending_after(pending, commands))
            <= requests_in(commands) + cycles_on_wake(pending),
    decreases commands.len(),
{
    if commands.len() > 0 {
        lemma_no_backlog(pending, commands.drop_last());
    }
}

/// A wake-up that follows a request, with any number of further requests in
/// between, starts exactly one cycle.
pub proof fn lemma_wake_after_request(pending: bool, commands: Seq<Command>)
    requires
        commands.len() > 0,
        commands.last() == Command::Trigger,
    ensures
        cycles_run(pending, commands.push(Command::Wake)) == cycles_run(pending, commands) + 1,
        !pending_after(pending, commands.push(Command::Wake)),
{
    assert(commands.push(Command::Wake).drop_last() =~= commands);
}

/// A request is idempotent: a second one changes nothing.
pub proof fn lemma_request_idempotent(pending: bool)
    ensures
        requested(requested(pending)) == requested(pending),
{
}

/// The coordinator's shared state. The caller guards it with a lock and pairs
/// it with a wake-up signal.
#[derive(Debug)]
pub struct Index {
    pending_reindex: bool,
}

impl Index {
    /// Whether a cycle has been requested and not yet claimed.
    pub closed spec fn pending(&self) -> bool {
        self.pending_reindex
    }

    pub fn new() -> (index: Self)
        ensures
            !index.pending(),
    {
        Index { pending_reindex: false }
    }

    /// Whether a cycle has been requested and not yet claimed.
    pub fn is_pending(&self) -> (pending: bool)
        ensures
            pending == self.pending(),
    {
        self.pending_reindex
    }

    /// Requests a re-scan. The caller then wakes one waiting worker.
    pub fn trigger_reindex(&mut self)
        ensures
            final(self).pending() == requested(old(self).pending()),
    {
        self.pending_reindex = true;
    }

    /// One wake-up of the command loop: claims the flag, and says whether a
    /// cycle is to run now. On `false` the worker goes back to waiting.
    pub fn process_commands(&mut self) -> (run: bool)
        ensures
            run == (cycles_on_wake(old(self).pending()) == 1),
            final(self).pending() == claimed(old(self).pending()),
    {
        let run = self.pending_reindex;
        self.pending_reindex = false;
        run
    }

    /// One round of the periodic loop: requests a re-scan and says how many
    /// seconds to sleep, the configured interval or, where it could not be
    /// read, the default.
    pub fn automatic_reindex(&mut self, configured: Option<u64>) -> (sleep_seconds: u64)
        ensures
            final(self).pending(),
            sleep_seconds == match configured {
                Some(seconds) => seconds,
                None => 1800,
            },
    {
        self.trigger_reindex();
        match configured {
            Some(seconds) => seconds,
            None => DEFAULT_SLEEP_SECONDS,
        }
    }
}

} // verus!
