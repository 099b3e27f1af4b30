//! The queue-drain policy: how one poll of the upstream queue turns into an
//! action, and how the empty-streak backoff decides between busy-polling
//! and yielding to the scheduler.
//!
//! The code that owns the queue and the scheduler runs the loop: it polls,
//! serializes what it got, reports the outcome here, and performs the
//! returned action. Every record that serializes is broadcast, in the order
//! it was popped; a record that fails to serialize is discarded on its own;
//! an empty poll busy-polls until the streak reaches the configured
//! threshold, then yields once and starts the streak over.

use vstd::prelude::*;

verus! {

/// What one poll of the upstream queue came to: a record that serialized
/// into text, a record whose serialization failed, or an empty queue.
#[derive(Clone, Debug)]
pub enum DrainInput {
    Encoded(String),
    EncodeFailed,
    QueueEmpty,
}

/// What the drain loop must do next: hand the text to the broadcaster,
/// drop the one unserializable record and log it, poll again at once, or
/// yield to the scheduler once before polling again.
#[derive(Clone, Debug)]
pub enum DrainAction {
    Broadcast(String),
    Discard,
    Spin,
    Yield,
}

/// One step of the drain policy: from the empty streak, the backoff
/// threshold, and a poll outcome to the next streak and the action owed.
/// Any popped record resets the streak; only an unbroken run of empty
/// polls reaching the threshold yields.
pub open spec fn drain_step(streak: u32, threshold: u32, input: DrainInput) -> (u32, DrainAction) {
    match input {
        DrainInput::Encoded(text) => (0u32, DrainAction::Broadcast(text)),
        DrainInput::EncodeFailed => (0u32, DrainAction::Discard),
        DrainInput::QueueEmpty => if streak + 1 < threshold {
            ((streak + 1) as u32, DrainAction::Spin)
        } else {
            (0u32, DrainAction::Yield)
        },
    }
}

/// The actions the policy produces for a sequence of poll outcomes, first
/// outcome first.
pub open spec fn drain_run(streak: u32, threshold: u32, inputs: Seq<DrainInput>) -> Seq<
    DrainAction,
>
    decreases inputs.len(),
{
    if inputs.len() == 0 {
        Seq::empty()
    } else {
        let (next_streak, act) = drain_step(streak, threshold, inputs[0]);
        seq![act] + drain_run(next_streak, threshold, inputs.drop_first())
    }
}

/// The texts a sequence of actions hands to the broadcaster, in order.
pub open spec fn broadcast_payloads(acts: Seq<DrainAction>) -> Seq<String>
    decreases acts.len(),
{
    if acts.len() == 0 {
        Seq::empty()
    } else {
        match acts[0] {
            DrainAction::Broadcast(text) => seq![text] + broadcast_payloads(acts.drop_first()),
            _ => broadcast_payloads(acts.drop_first()),
        }
    }
}

/// The texts of the poll outcomes that carried one, in order.
pub open spec fn encoded_payloads(inputs: Seq<DrainInput>) -> Seq<String>
    decreases inputs.len(),
{
    if inputs.len() == 0 {
        Seq::empty()
    } else {
        match inputs[0] {
            DrainInput::Encoded(text) => seq![text] + encoded_payloads(inputs.drop_first()),
            _ => encoded_payloads(inputs.drop_first()),
        }
    }
}

/// Order preservation and completeness of the drain loop: whatever the
/// backoff state, the texts the policy hands to the broadcaster are exactly
/// the texts of the records that serialized, in the order they were popped.
/// Empty polls and failed serializations add nothing and drop nothing else.
pub proof fn lemma_drain_preserves_stream(streak: u32, threshold: u32, inputs: Seq<DrainInput>)
    ensures
        broadcast_payloads(drain_run(streak, threshold, inputs)) == encoded_payloads(inputs),
    decreases inputs.len(),
{
    if inputs.len() == 0 {
    } else {
        let (next_streak, act) = drain_step(streak, threshold, inputs[0]);
        let rest = drain_run(next_streak, threshold, inputs.drop_first());
        lemma_drain_preserves_stream(next_streak, threshold, inputs.drop_first());
        assert((seq![act] + rest).drop_first() =~= rest);
        assert((seq![act] + rest)[0] == act);
    }
}

/// Splitting a run of poll outcomes splits its serialized texts.
pub proof fn lemma_encoded_append(a: Seq<DrainInput>, b: Seq<DrainInput>)
    ensures
        encoded_payloads(a + b) == encoded_payloads(a) + encoded_payloads(b),
    decreases a.len(),
{
    if a.len() == 0 {
        assert(a + b =~= b);
        assert(encoded_payloads(a) + encoded_payloads(b) =~= encoded_payloads(b));
    } else {
        assert((a + b).drop_first() =~= a.drop_first() + b);
        assert((a + b)[0] == a[0]);
        lemma_encoded_append(a.drop_first(), b);
        match a[0] {
            DrainInput::Encoded(text) => {
                assert(seq![text] + (encoded_payloads(a.drop_first()) + encoded_payloads(b))
                    =~= (seq![text] + encoded_payloads(a.drop_first())) + encoded_payloads(b));
            },
            _ => {},
        }
    }
}

/// A record whose serialization fails is lost alone: no text is broadcast
/// for it, and the records before and after it are broadcast exactly as
/// their serialization produced them.
pub proof fn lemma_encode_failure_isolated(
    streak: u32,
    threshold: u32,
    before: Seq<DrainInput>,
    after: Seq<DrainInput>,
)
    ensures
        broadcast_payloads(
            drain_run(streak, threshold, before + seq![DrainInput::EncodeFailed] + after),
        ) == encoded_payloads(before) + encoded_payloads(after),
{
    let mid = seq![DrainInput::EncodeFailed];
    lemma_drain_preserves_stream(streak, threshold, before + mid + after);
    lemma_encoded_append(before + mid, after);
    lemma_encoded_append(before, mid);
    assert(mid.drop_first() =~= Seq::<DrainInput>::empty());
    assert(mid[0] == DrainInput::EncodeFailed);
    assert(encoded_payloads(Seq::<DrainInput>::empty()) =~= Seq::<String>::empty());
    assert(encoded_payloads(mid) == encoded_payloads(mid.drop_first()));
    assert(encoded_payloads(mid) =~= Seq::<String>::empty());
    assert(encoded_payloads(before) + Seq::<String>::empty() =~= encoded_payloads(before));
}

/// The drain loop's backoff state: how many polls in a row found the queue
/// empty, and the streak length at which the loop yields instead of
/// busy-polling on.
pub struct DrainState {
    pub empty_streak: u32,
    pub threshold: u32,
}

impl DrainState {
    /// The streak never reaches the threshold: the step that would have
    /// reached it yields and starts over instead.
    pub open spec fn wf(&self) -> bool {
        1 <= self.threshold && self.empty_streak < self.threshold
    }

    /// A fresh state with no empty polls seen. The threshold is the
    /// deployment's CPU-versus-latency knob; the relay's own default is
    /// `DRAIN_SPIN_THRESHOLD`.
    pub fn new(threshold: u32) -> (s: Self)
        requires
            1 <= threshold,
        ensures
            s.wf(),
            s.threshold == threshold,
            s.empty_streak == 0,
    {
        DrainState { empty_streak: 0, threshold }
    }

    /// Feed one poll outcome to the policy and learn what to do next.
    pub fn step(&mut self, input: DrainInput) -> (act: DrainAction)
        requires
            old(self).wf(),
        ensures
            final(self).wf(),
            final(self).threshold == old(self).threshold,
            (final(self).empty_streak, act) == drain_step(
                old(self).empty_streak,
                old(self).threshold,
                input,
            ),
    {
        match input {
            DrainInput::Encoded(text) => {
                self.empty_streak = 0;
                DrainAction::Broadcast(text)
            },
            DrainInput::EncodeFailed => {
                self.empty_streak = 0;
                DrainAction::Discard
            },
            DrainInput::QueueEmpty => {
                if self.empty_streak + 1 < self.threshold {
                    self.empty_streak = self.empty_streak + 1;
                    DrainAction::Spin
                } else {
                    self.empty_streak = 0;
                    DrainAction::Yield
                }
            },
        }
    }
}

/// How many consecutive empty polls the relay busy-polls through before it
/// yields to the scheduler once.
pub const DRAIN_SPIN_THRESHOLD: u32 = 1000;

} // verus!
