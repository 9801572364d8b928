use vstd::prelude::*;

verus! {

/// What one poll of a result stream produced.
#[derive(Clone, Copy, PartialEq, Eq, Debug)]
pub enum StreamPoll<T, E> {
    /// An item is ready
    Item(T),
    /// The stream failed
    Failed(E),
    /// The stream ended
    Ended,
    /// Nothing is ready yet
    Pending,
}

/// `a + b`, or the largest value when that does not fit.
pub open spec fn saturating_add(a: u64, b: u64) -> u64 {
    if a + b > u64::MAX {
        u64::MAX
    } else {
        (a + b) as u64
    }
}

/// State of a stream with an idle timeout: the time allowed between items
/// and the instant at which the stream ends unless an item arrives first.
///
/// Times are counts of one clock unit (for instance milliseconds since some
/// fixed instant); the caller picks the unit.
#[derive(Clone, Copy, PartialEq, Eq, Structural, Debug)]
pub struct TimeoutState {
    /// Time allowed between two items.
    pub duration: u64,
    /// Instant at which the stream ends if it stays silent.
    pub deadline: u64,
}

/// One poll of a stream with an idle timeout: the next state and what the
/// poll yields.
///
/// Items and errors pass through unchanged, and an item restarts the timer.
/// When the inner stream has nothing ready, the stream ends (without an
/// error) once the deadline is reached.
pub open spec fn timeout_step<T, E>(s: TimeoutState, inner: StreamPoll<T, E>, now: u64) -> (
    TimeoutState,
    StreamPoll<T, E>,
) {
    match inner {
        StreamPoll::Item(t) => (
            TimeoutState { duration: s.duration, deadline: saturating_add(now, s.duration) },
            StreamPoll::Item(t),
        ),
        StreamPoll::Failed(e) => (s, StreamPoll::Failed(e)),
        StreamPoll::Ended => (s, StreamPoll::Ended),
        StreamPoll::Pending => if now >= s.deadline {
            (s, StreamPoll::Ended)
        } else {
            (s, StreamPoll::Pending)
        },
    }
}

impl TimeoutState {
    /// Start the timer at `now`.
    pub fn new(now: u64, duration: u64) -> (r: TimeoutState)
        ensures
            r.duration == duration,
            r.deadline == saturating_add(now, duration),
    {
        TimeoutState { duration, deadline: now.saturating_add(duration) }
    }

    /// Decide what one poll yields, given what the inner stream produced
    /// and the current time.
    pub fn poll<T, E>(&mut self, inner: StreamPoll<T, E>, now: u64) -> (r: StreamPoll<T, E>)
        ensures
            (*final(self), r) == timeout_step(*old(self), inner, now),
    {
        match inner {
            StreamPoll::Item(t) => {
                self.deadline = now.saturating_add(self.duration);
                StreamPoll::Item(t)
            },
            StreamPoll::Failed(e) => StreamPoll::Failed(e),
            StreamPoll::Ended => StreamPoll::Ended,
            StreamPoll::Pending => {
                if now >= self.deadline {
                    StreamPoll::Ended
                } else {
                    StreamPoll::Pending
                }
            },
        }
    }
}

/// A stream that never yields ends once the timeout has passed since it was
/// started.
pub proof fn lemma_timeout_ends_silent_stream<T, E>(start: u64, duration: u64, now: u64)
    requires
        start + duration <= u64::MAX,
        now >= start + duration,
    ensures
        timeout_step(
            TimeoutState { duration, deadline: saturating_add(start, duration) },
            StreamPoll::<T, E>::Pending,
            now,
        ).1 == StreamPoll::<T, E>::Ended,
{
}

/// Every item is forwarded, and after an item the stream stays open for the
/// whole timeout: a stream whose items come less than the timeout apart is
/// never cut off.
pub proof fn lemma_timeout_keeps_active_stream<T, E>(
    s: TimeoutState,
    item: T,
    now: u64,
    later: u64,
)
    requires
        now + s.duration <= u64::MAX,
        later < now + s.duration,
    ensures
        timeout_step(s, StreamPoll::<T, E>::Item(item), now).1 == StreamPoll::<T, E>::Item(item),
        timeout_step(
            timeout_step(s, StreamPoll::<T, E>::Item(item), now).0,
            StreamPoll::<T, E>::Pending,
            later,
        ).1 == StreamPoll::<T, E>::Pending,
{
}

/// One poll of a fused stream: once it has failed or ended it only reports
/// its end.
pub open spec fn fuse_step<T, E>(finished: bool, inner: StreamPoll<T, E>) -> (
    bool,
    StreamPoll<T, E>,
) {
    if finished {
        (true, StreamPoll::Ended)
    } else {
        match inner {
            StreamPoll::Failed(e) => (true, StreamPoll::Failed(e)),
            StreamPoll::Ended => (true, StreamPoll::Ended),
            StreamPoll::Item(t) => (false, StreamPoll::Item(t)),
            StreamPoll::Pending => (false, StreamPoll::Pending),
        }
    }
}

/// Fuse of a result stream
///
/// An error terminates the operation: it is delivered as the last item and
/// every later poll reports the end of the stream.
#[derive(Clone, Copy, PartialEq, Eq, Structural, Debug)]
pub struct StreamFuse {
    /// Whether the stream failed or ended.
    pub finished: bool,
}

impl StreamFuse {
    /// A fuse for a running stream.
    pub fn new() -> (r: StreamFuse)
        ensures
            !r.finished,
    {
        StreamFuse { finished: false }
    }

    /// Decide what one poll yields, given what the inner stream produced.
    pub fn poll<T, E>(&mut self, inner: StreamPoll<T, E>) -> (r: StreamPoll<T, E>)
        ensures
            (final(self).finished, r) == fuse_step(old(self).finished, inner),
    {
        if self.finished {
            return StreamPoll::Ended;
        }
        match inner {
            StreamPoll::Failed(e) => {
                self.finished = true;
                StreamPoll::Failed(e)
            },
            StreamPoll::Ended => {
                self.finished = true;
                StreamPoll::Ended
            },
            StreamPoll::Item(t) => StreamPoll::Item(t),
            StreamPoll::Pending => StreamPoll::Pending,
        }
    }
}

/// What a series of polls of a fused stream yields, from the given state.
pub open spec fn fuse_run<T, E>(finished: bool, inputs: Seq<StreamPoll<T, E>>) -> Seq<
    StreamPoll<T, E>,
>
    decreases inputs.len(),
{
    if inputs.len() == 0 {
        Seq::empty()
    } else {
        let (f, out) = fuse_step(finished, inputs[0]);
        seq![out] + fuse_run(f, inputs.drop_first())
    }
}

/// After an error, whatever the inner stream does, a fused stream yields
/// that error once and then only reports its end.
pub proof fn lemma_error_is_last_item<T, E>(e: E, later: Seq<StreamPoll<T, E>>)
    ensures
        fuse_run(false, seq![StreamPoll::Failed(e)] + later)[0] == StreamPoll::<T, E>::Failed(e),
        forall|i: int|
            1 <= i < later.len() + 1 ==> #[trigger] fuse_run(
                false,
                seq![StreamPoll::Failed(e)] + later,
            )[i] == StreamPoll::<T, E>::Ended,
{
    let all = seq![StreamPoll::Failed(e)] + later;
    assert(all.drop_first() =~= later);
    lemma_finished_stays_ended(later);
}

/// A finished fused stream reports only its end.
proof fn lemma_finished_stays_ended<T, E>(inputs: Seq<StreamPoll<T, E>>)
    ensures
        fuse_run(true, inputs).len() == inputs.len(),
        forall|i: int|
            0 <= i < inputs.len() ==> #[trigger] fuse_run(true, inputs)[i]
                == StreamPoll::<T, E>::Ended,
    decreases inputs.len(),
{
    if inputs.len() > 0 {
        lemma_finished_stays_ended(inputs.drop_first());
    }
}

/// What an observer of a shared connection learns when it polls.
#[derive(Clone, Copy, PartialEq, Eq, Debug)]
pub enum SharedStatus<E> {
    /// The background driver is still running
    Healthy,
    /// The background driver failed with this error
    Failed(E),
    /// The background driver failed earlier; its error was already handed
    /// to another observer
    Gone,
}

/// Failure latch of a shared connection
///
/// The single background driver records its error here once; observers poll
/// it. The error itself goes to the first observer, every later poll
/// reports the connection as gone.
pub struct SharedFailure<E> {
    /// Error not yet handed to an observer.
    pub error: Option<E>,
    /// Whether the background driver failed.
    pub failed: bool,
}

impl<E> SharedFailure<E> {
    /// The latch of a healthy connection.
    pub fn new() -> (r: SharedFailure<E>)
        ensures
            r.error is None,
            !r.failed,
    {
        SharedFailure { error: None, failed: false }
    }

    /// Record the failure of the background driver.
    pub fn fail(&mut self, e: E)
        ensures
            final(self).failed,
            final(self).error == Some(e),
    {
        self.error = Some(e);
        self.failed = true;
    }

    /// What the next observer learns.
    pub fn poll(&mut self) -> (r: SharedStatus<E>)
        ensures
            final(self).failed == old(self).failed,
            final(self).error is None,
            !old(self).failed && old(self).error is None ==> r == SharedStatus::<E>::Healthy,
            old(self).error matches Some(e) ==> r == SharedStatus::<E>::Failed(e),
            old(self).failed && old(self).error is None ==> r == SharedStatus::<E>::Gone,
    {
        match self.error.take() {
            Some(e) => SharedStatus::Failed(e),
            None => if self.failed {
                SharedStatus::Gone
            } else {
                SharedStatus::Healthy
            },
        }
    }
}

} // verus!
