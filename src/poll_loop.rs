use vstd::prelude::*;

use crate::message_details::{
    message_error, normalizes_to, MessageDetails, MessageError, RawMessage,
};

verus! {

/// Pause between fetches when the provider advises none, in milliseconds.
pub const FALLBACK_POLL_INTERVAL_MS: u64 = 2000;

/// Largest page of chat messages asked of the provider.
pub const MAX_PAGE_SIZE: u32 = 2000;

/// The one fatal condition of the loop.
#[derive(Debug, Clone, Copy, PartialEq, Eq, Structural)]
pub enum FetchError {
    /// The chat page response had no message list at all (an empty list is
    /// valid and means that nothing is new).
    MissingItems,
}

/// The messages of a window that lie past the first `cursor` ones.
pub open spec fn unseen(window: Seq<RawMessage>, cursor: nat) -> Seq<RawMessage> {
    if cursor < window.len() {
        window.subrange(cursor as int, window.len() as int)
    } else {
        Seq::empty()
    }
}

/// The pause before the next fetch: the fixed interval when one is
/// configured, else the provider's advice, else the fallback.
pub open spec fn pause_for(fixed: Option<u64>, advised: Option<u32>) -> u64 {
    match fixed {
        Some(ms) => ms,
        None => match advised {
            Some(a) => a as u64,
            None => FALLBACK_POLL_INTERVAL_MS,
        },
    }
}

/// Chooses the pause before the next fetch.
pub fn poll_interval(fixed: Option<u64>, advised: Option<u32>) -> (r: u64)
    ensures
        r == pause_for(fixed, advised),
{
    match fixed {
        Some(ms) => ms,
        None => match advised {
            Some(a) => a as u64,
            None => FALLBACK_POLL_INTERVAL_MS,
        },
    }
}

/// Turns the provider's chat window into the messages not seen yet: drops
/// the first `skip_n` of them and advances `skip_n` past the rest. Also
/// returns the provider's advised pause, or the fallback. A response without
/// a message list fails and leaves `skip_n` as it was.
pub fn new_messages(
    items: Option<Vec<RawMessage>>,
    polling_interval_millis: Option<u32>,
    skip_n: &mut usize,
) -> (r: Result<(Vec<RawMessage>, u64), FetchError>)
    ensures
        items is None ==> r == Err::<(Vec<RawMessage>, u64), FetchError>(FetchError::MissingItems)
            && *final(skip_n) == *old(skip_n),
        items is Some ==> r is Ok && {
            let (fresh, interval) = r->Ok_0;
            let window = items->Some_0@;
            &&& fresh@ == unseen(window, *old(skip_n) as nat)
            &&& *final(skip_n) == *old(skip_n) + fresh@.len()
            &&& interval == pause_for(None, polling_interval_millis)
        },
{
    match items {
        None => Err(FetchError::MissingItems),
        Some(mut window) => {
            let fresh = if *skip_n < window.len() {
                window.split_off(*skip_n)
            } else {
                Vec::new()
            };
            *skip_n = *skip_n + fresh.len();
            Ok((fresh, poll_interval(None, polling_interval_millis)))
        },
    }
}

/// What the caller of the loop is to do next.
pub enum PollStep {
    /// Fetch the chat window from the provider and hand it to
    /// `PollLoop::page_received`.
    Fetch,
    /// Run the per-message handler on this message; whatever it returns, ask
    /// for the next step.
    Handle(MessageDetails),
    /// This message (with its id, when it had one) failed normalization: log
    /// it and ask for the next step.
    Skip(Option<String>, MessageError),
    /// Pause this many milliseconds, then ask for the next step.
    Pause(u64),
}

/// The state of the loop, as a mathematical value.
pub struct PollState {
    /// Messages of the chat window consumed so far.
    pub cursor: nat,
    /// The caller's fixed pause, which overrides the provider's advice.
    pub fixed_interval: Option<u64>,
    /// Messages of the current page not processed yet, in arrival order.
    pub pending: Seq<RawMessage>,
    /// The pause that ends the current page; `None` between pages.
    pub pause: Option<u64>,
}

/// A step, with the message it is about.
pub enum StepSpec {
    Fetch,
    Message(RawMessage),
    Pause(u64),
}

/// The state once the chat window `window` has been received.
pub open spec fn after_page(s: PollState, window: Seq<RawMessage>, advised: Option<u32>) -> PollState {
    PollState {
        cursor: s.cursor + unseen(window, s.cursor).len(),
        fixed_interval: s.fixed_interval,
        pending: unseen(window, s.cursor),
        pause: Some(pause_for(s.fixed_interval, advised)),
    }
}

/// The step that the state calls for.
pub open spec fn step_of(s: PollState) -> StepSpec {
    match s.pause {
        None => StepSpec::Fetch,
        Some(ms) => if s.pending.len() > 0 {
            StepSpec::Message(s.pending[0])
        } else {
            StepSpec::Pause(ms)
        },
    }
}

/// The state after the step that it calls for.
pub open spec fn after_step(s: PollState) -> PollState {
    match s.pause {
        None => s,
        Some(_) => if s.pending.len() > 0 {
            PollState { pending: s.pending.drop_first(), ..s }
        } else {
            PollState { pause: None, ..s }
        },
    }
}

/// The state after `n` steps.
pub open spec fn after_steps(s: PollState, n: nat) -> PollState
    decreases n,
{
    if n == 0 {
        s
    } else {
        after_steps(after_step(s), (n - 1) as nat)
    }
}

/// The state after one whole fetch cycle: the window is received, each of
/// its unseen messages is stepped through, then the pause.
pub open spec fn after_cycle(s: PollState, window: Seq<RawMessage>, advised: Option<u32>) -> PollState {
    let t = after_page(s, window, advised);
    after_steps(t, t.pending.len() + 1)
}

/// The state after a run of fetch cycles, each with its window and advice.
pub open spec fn after_cycles(s: PollState, cycles: Seq<(Seq<RawMessage>, Option<u32>)>) -> PollState
    decreases cycles.len(),
{
    if cycles.len() == 0 {
        s
    } else {
        after_cycles(after_cycle(s, cycles[0].0, cycles[0].1), cycles.drop_first())
    }
}

/// The messages handed out by a run of fetch cycles that starts at `cursor`,
/// in order.
pub open spec fn delivered(cursor: nat, cycles: Seq<(Seq<RawMessage>, Option<u32>)>) -> Seq<RawMessage>
    decreases cycles.len(),
{
    if cycles.len() == 0 {
        Seq::empty()
    } else {
        let fresh = unseen(cycles[0].0, cursor);
        fresh + delivered(cursor + fresh.len(), cycles.drop_first())
    }
}

/// Steps compose: `a` steps and then `b` steps are `a + b` steps.
pub proof fn lemma_after_steps_add(s: PollState, a: nat, b: nat)
    ensures
        after_steps(after_steps(s, a), b) == after_steps(s, a + b),
    decreases a,
{
    if a > 0 {
        lemma_after_steps_add(after_step(s), (a - 1) as nat, b);
        assert((a - 1) as nat + b == (a + b - 1) as nat);
    }
}

/// Within a page, each step hands out the next pending message and keeps
/// everything else.
proof fn lemma_drain_prefix(t: PollState, k: nat)
    requires
        t.pause is Some,
        k <= t.pending.len(),
    ensures
        after_steps(t, k) == (PollState { pending: t.pending.subrange(k as int, t.pending.len() as int), ..t }),
    decreases k,
{
    if k > 0 {
        let u = after_step(t);
        lemma_drain_prefix(u, (k - 1) as nat);
        assert(u.pending.subrange((k - 1) as int, u.pending.len() as int) =~= t.pending.subrange(
            k as int,
            t.pending.len() as int,
        ));
    } else {
        assert(t.pending.subrange(0, t.pending.len() as int) =~= t.pending);
    }
}

/// Steps never move the cursor; only a received page advances it.
pub proof fn lemma_steps_keep_cursor(s: PollState, n: nat)
    ensures
        after_steps(s, n).cursor == s.cursor,
        after_steps(s, n).fixed_interval == s.fixed_interval,
    decreases n,
{
    if n > 0 {
        lemma_steps_keep_cursor(after_step(s), (n - 1) as nat);
    }
}

/// A page of `n` unseen messages is worked off in full and in arrival
/// order: the next `n` steps are those messages, one each, whatever became of
/// the ones before (a message that fails normalization is a `Skip` step and
/// the loop goes on; a handler's outcome is no input of the loop at all);
/// then comes the pause, and then the next fetch. The cursor has advanced by
/// exactly `n`.
pub proof fn lemma_page_worked_off_in_order(s: PollState, window: Seq<RawMessage>, advised: Option<u32>)
    ensures
        ({
            let t = after_page(s, window, advised);
            let fresh = unseen(window, s.cursor);
            let n = fresh.len();
            &&& t.cursor == s.cursor + n
            &&& forall|i: nat| i < n ==> #[trigger] step_of(after_steps(t, i)) == StepSpec::Message(fresh[i as int])
            &&& forall|i: nat| i <= n ==> (#[trigger] after_steps(t, i)).cursor == s.cursor + n
            &&& step_of(after_steps(t, n)) == StepSpec::Pause(pause_for(s.fixed_interval, advised))
            &&& after_steps(t, n + 1) == (PollState {
                cursor: s.cursor + n,
                fixed_interval: s.fixed_interval,
                pending: Seq::empty(),
                pause: None,
            })
            &&& step_of(after_steps(t, n + 1)) is Fetch
        }),
{
    let t = after_page(s, window, advised);
    let fresh = unseen(window, s.cursor);
    let n = fresh.len();
    assert forall|i: nat| i < n implies #[trigger] step_of(after_steps(t, i)) == StepSpec::Message(fresh[i as int]) by {
        lemma_drain_prefix(t, i);
    }
    assert forall|i: nat| i <= n implies (#[trigger] after_steps(t, i)).cursor == s.cursor + n by {
        lemma_drain_prefix(t, i);
    }
    lemma_drain_prefix(t, n);
    let end = after_steps(t, n);
    assert(end.pending =~= Seq::<RawMessage>::empty());
    lemma_after_steps_add(t, n, 1);
    assert(after_steps(end, 1) == after_step(end));
    assert(after_steps(after_step(end), 0) == after_step(end));
}

/// A fetch that brings nothing new still yields a pause, of the configured
/// or advised length, and the fetch after it: no error, no fetch without a
/// pause in between, and the cursor stays.
pub proof fn lemma_empty_page_pauses(s: PollState, window: Seq<RawMessage>, advised: Option<u32>)
    requires
        unseen(window, s.cursor).len() == 0,
    ensures
        after_page(s, window, advised).cursor == s.cursor,
        step_of(after_page(s, window, advised)) == StepSpec::Pause(pause_for(s.fixed_interval, advised)),
        step_of(after_step(after_page(s, window, advised))) is Fetch,
{
}

/// With a fixed interval configured, every pause has that length, whatever
/// the provider advises.
pub proof fn lemma_fixed_interval_overrides(s: PollState, window: Seq<RawMessage>, advised: Option<u32>)
    requires
        s.fixed_interval is Some,
    ensures
        after_page(s, window, advised).pause == Some(s.fixed_interval->Some_0),
        step_of(after_steps(after_page(s, window, advised), unseen(window, s.cursor).len()))
            == StepSpec::Pause(s.fixed_interval->Some_0),
{
    lemma_page_worked_off_in_order(s, window, advised);
}

/// Over any run of fetch cycles, the cursor has advanced by exactly the
/// number of messages handed out, each cycle's messages are those of its
/// window past the cursor of that moment (so none counted before comes
/// again), and the loop is ready for the next fetch.
pub proof fn lemma_cursor_counts_deliveries(s: PollState, cycles: Seq<(Seq<RawMessage>, Option<u32>)>)
    ensures
        after_cycles(s, cycles).cursor == s.cursor + delivered(s.cursor, cycles).len(),
        after_cycles(s, cycles).cursor >= s.cursor,
        after_cycles(s, cycles).fixed_interval == s.fixed_interval,
        cycles.len() > 0 ==> after_cycles(s, cycles).pause is None
            && after_cycles(s, cycles).pending.len() == 0,
    decreases cycles.len(),
{
    if cycles.len() > 0 {
        let (w, a) = cycles[0];
        lemma_page_worked_off_in_order(s, w, a);
        let next = after_cycle(s, w, a);
        lemma_cursor_counts_deliveries(next, cycles.drop_first());
    }
}

/// `r` is the executable form of the step `spec`: a message becomes
/// `Handle` when it normalizes and `Skip` with its defect when it does not.
pub open spec fn step_matches(r: PollStep, spec: StepSpec) -> bool {
    match spec {
        StepSpec::Fetch => r is Fetch,
        StepSpec::Pause(ms) => r == PollStep::Pause(ms),
        StepSpec::Message(m) => match r {
            PollStep::Handle(d) => message_error(m) is None && normalizes_to(m, d),
            PollStep::Skip(id, e) => {
                &&& message_error(m) == Some(e)
                &&& id is Some <==> m.id is Some
                &&& id is Some ==> id->Some_0@ == m.id->Some_0@
            },
            _ => false,
        },
    }
}

/// The moderation loop's driver: owns the cursor, hands out the messages of
/// each page in arrival order, and paces the fetches.
pub struct PollLoop {
    cursor: usize,
    fixed_interval: Option<u64>,
    pending: Vec<RawMessage>,
    pause: Option<u64>,
}

impl View for PollLoop {
    type V = PollState;

    closed spec fn view(&self) -> PollState {
        PollState {
            cursor: self.cursor as nat,
            fixed_interval: self.fixed_interval,
            pending: self.pending@,
            pause: self.pause,
        }
    }
}

impl PollLoop {
    /// A loop at the start of a session: nothing consumed, a fetch first.
    pub fn new(fixed_interval: Option<u64>) -> (r: PollLoop)
        ensures
            r@ == (PollState {
                cursor: 0,
                fixed_interval,
                pending: Seq::empty(),
                pause: None,
            }),
    {
        PollLoop { cursor: 0, fixed_interval, pending: Vec::new(), pause: None }
    }

    /// Messages of the session consumed so far.
    pub fn cursor(&self) -> (r: usize)
        ensures
            r == self@.cursor,
    {
        self.cursor
    }

    /// Takes the outcome of a fetch: the provider's chat window, if the
    /// response had one, and its advised pause. The unseen messages become
    /// the pending page (replacing any left of the previous one) and the
    /// cursor moves past them. Without a window this fails, fatally, and
    /// nothing changes.
    pub fn page_received(
        &mut self,
        items: Option<Vec<RawMessage>>,
        polling_interval_millis: Option<u32>,
    ) -> (r: Result<(), FetchError>)
        ensures
            items is None ==> r == Err::<(), FetchError>(FetchError::MissingItems)
                && final(self)@ == old(self)@,
            items is Some ==> r is Ok && final(self)@ == after_page(
                old(self)@,
                items->Some_0@,
                polling_interval_millis,
            ),
    {
        let mut cursor = self.cursor;
        match new_messages(items, polling_interval_millis, &mut cursor) {
            Err(e) => Err(e),
            Ok((fresh, advised)) => {
                let pause = match self.fixed_interval {
                    Some(ms) => ms,
                    None => advised,
                };
                self.cursor = cursor;
                self.pending = fresh;
                self.pause = Some(pause);
                Ok(())
            },
        }
    }

    /// The next step, and the state after it.
    pub fn next_step(&mut self) -> (r: PollStep)
        ensures
            final(self)@ == after_step(old(self)@),
            step_matches(r, step_of(old(self)@)),
    {
        match self.pause {
            None => PollStep::Fetch,
            Some(ms) => {
                if self.pending.len() > 0 {
                    let message = self.pending.remove(0);
                    proof {
                        assert(self.pending@ =~= old(self)@.pending.drop_first());
                    }
                    let id = match &message.id {
                        Some(s) => Some(s.clone()),
                        None => None,
                    };
                    match MessageDetails::from_message(message) {
                        Ok(d) => PollStep::Handle(d),
                        Err(e) => PollStep::Skip(id, e),
                    }
                } else {
                    self.pause = None;
                    PollStep::Pause(ms)
                }
            },
        }
    }
}

} // verus!
