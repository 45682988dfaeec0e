//! Event/Log Channel: ordered, unbounded queue of leveled, timestamped
//! status messages.
//!
//! Producers append without blocking and without an observable failure;
//! the consumer drains everything queued at once, on its own cadence,
//! without waiting for more. Messages drain in emission order, so each
//! producer's messages keep their relative order whatever other producers
//! wove in between.

use vstd::prelude::*;

verus! {

/// Severity of a status message.
#[derive(Debug, Clone, Copy, PartialEq, Eq, Structural)]
pub enum LogLevel {
    /// Routine progress.
    Info,
    /// An operation completed as hoped.
    Success,
    /// Something advisory failed; work continues.
    Warning,
    /// Something failed outright; still never fatal to the process.
    Error,
}

/// One status message. Immutable once created; ownership moves from the
/// producer through the channel to the consumer.
pub struct LogMessage {
    /// Wall-clock time of emission, second precision, as text.
    pub timestamp: String,
    /// Severity.
    pub level: LogLevel,
    /// The message text.
    pub message: String,
}

/// The queue between all producers and the single consumer. Its view is
/// the sequence of messages now queued, oldest first.
pub struct LogChannel {
    queue: Vec<LogMessage>,
}

impl View for LogChannel {
    type V = Seq<LogMessage>;

    closed spec fn view(&self) -> Seq<LogMessage> {
        self.queue@
    }
}

impl LogChannel {
    /// An empty channel.
    pub fn new() -> (c: LogChannel)
        ensures
            c@ == Seq::<LogMessage>::empty(),
    {
        LogChannel { queue: Vec::new() }
    }

    /// Appends one message behind everything already queued. Never
    /// blocks and never fails observably to the caller.
    pub fn emit(&mut self, msg: LogMessage)
        ensures
            final(self)@ == old(self)@.push(msg),
    {
        self.queue.push(msg);
    }

    /// Hands every queued message to the consumer, oldest first, and
    /// leaves the channel empty. Never blocks and never waits for more.
    pub fn drain_available(&mut self) -> (msgs: Vec<LogMessage>)
        ensures
            msgs@ == old(self)@,
            final(self)@ == Seq::<LogMessage>::empty(),
    {
        let mut out: Vec<LogMessage> = Vec::new();
        core::mem::swap(&mut self.queue, &mut out);
        out
    }

    /// How many messages are queued right now.
    pub fn len(&self) -> (n: usize)
        ensures
            n == self@.len(),
    {
        self.queue.len()
    }
}

/// `sub` appears inside `full` with its elements in the same relative
/// order, possibly with other elements in between.
pub open spec fn is_subsequence_of(sub: Seq<LogMessage>, full: Seq<LogMessage>) -> bool
    decreases full.len(), sub.len(),
{
    if sub.len() == 0 {
        true
    } else if full.len() == 0 {
        false
    } else if sub[0] == full[0] && is_subsequence_of(sub.drop_first(), full.drop_first()) {
        true
    } else {
        is_subsequence_of(sub, full.drop_first())
    }
}

/// `woven` is some interleaving of `a` and `b`: every element of each,
/// in each one's own order, and nothing else.
pub open spec fn is_interleaving_of(
    a: Seq<LogMessage>,
    b: Seq<LogMessage>,
    woven: Seq<LogMessage>,
) -> bool
    decreases woven.len(),
{
    if woven.len() == 0 {
        a.len() == 0 && b.len() == 0
    } else {
        ||| (a.len() > 0 && a[0] == woven[0] && is_interleaving_of(
            a.drop_first(),
            b,
            woven.drop_first(),
        ))
        ||| (b.len() > 0 && b[0] == woven[0] && is_interleaving_of(
            a,
            b.drop_first(),
            woven.drop_first(),
        ))
    }
}

/// Interleaved emissions from two producers preserve each producer's
/// internal order in the drained result: since every emission appends to
/// the tail, a drained run of emissions from producers `a` and `b` is an
/// interleaving of the two, and whatever that interleaving was, it keeps
/// all of `a` in order, all of `b` in order, and holds nothing else.
pub proof fn lemma_interleaving_preserves_producer_order(
    a: Seq<LogMessage>,
    b: Seq<LogMessage>,
    woven: Seq<LogMessage>,
)
    requires
        is_interleaving_of(a, b, woven),
    ensures
        is_subsequence_of(a, woven),
        is_subsequence_of(b, woven),
        woven.len() == a.len() + b.len(),
    decreases woven.len(),
{
    if woven.len() == 0 {
    } else if a.len() > 0 && a[0] == woven[0] && is_interleaving_of(
        a.drop_first(),
        b,
        woven.drop_first(),
    ) {
        lemma_interleaving_preserves_producer_order(a.drop_first(), b, woven.drop_first());
        assert(is_subsequence_of(a, woven));
        if b.len() > 0 {
            assert(is_subsequence_of(b, woven.drop_first()));
            assert(is_subsequence_of(b, woven));
        }
    } else {
        assert(b.len() > 0 && b[0] == woven[0] && is_interleaving_of(
            a,
            b.drop_first(),
            woven.drop_first(),
        ));
        lemma_interleaving_preserves_producer_order(a, b.drop_first(), woven.drop_first());
        assert(is_subsequence_of(b, woven));
        if a.len() > 0 {
            assert(is_subsequence_of(a, woven.drop_first()));
            assert(is_subsequence_of(a, woven));
        }
    }
}

} // verus!
