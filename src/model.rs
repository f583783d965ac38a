//! The model slot: a one-time loading state machine for the shared model.
//! The caller performs the load itself when told to, and reports its outcome.
use vstd::prelude::*;

verus! {

/// Where the slot stands in its life.
#[derive(Clone, Copy, Debug, PartialEq, Eq, Structural)]
pub enum Phase {
    Uninitialized,
    Loading,
    Ready,
    LoadFailed,
}

/// What can happen to a slot.
pub enum SlotEvent<M> {
    /// A caller asks for the model.
    Acquire,
    /// The load that was started produced a model.
    Loaded(M),
    /// The load that was started failed.
    Failed,
}

/// Holds the model once it is loaded; never changes after that.
pub struct ModelSlot<M> {
    phase: Phase,
    model: Option<M>,
}

impl<M> View for ModelSlot<M> {
    type V = (Phase, Option<M>);

    closed spec fn view(&self) -> (Phase, Option<M>) {
        (self.phase, self.model)
    }
}

/// The state a slot is created in.
pub open spec fn initial<M>() -> (Phase, Option<M>) {
    (Phase::Uninitialized, None)
}

/// A model is held exactly when the slot is ready.
pub open spec fn slot_wf<M>(v: (Phase, Option<M>)) -> bool {
    (v.0 == Phase::Ready) == (v.1 is Some)
}

/// The slot's state after event `e`.
pub open spec fn step<M>(v: (Phase, Option<M>), e: SlotEvent<M>) -> (Phase, Option<M>) {
    match e {
        SlotEvent::Acquire => if v.0 == Phase::Uninitialized {
            (Phase::Loading, None)
        } else {
            v
        },
        SlotEvent::Loaded(m) => if v.0 == Phase::Loading {
            (Phase::Ready, Some(m))
        } else {
            v
        },
        SlotEvent::Failed => if v.0 == Phase::Loading {
            (Phase::LoadFailed, None)
        } else {
            v
        },
    }
}

/// Whether event `e` in state `v` starts a load.
pub open spec fn starts_load<M>(v: (Phase, Option<M>), e: SlotEvent<M>) -> bool {
    e is Acquire && v.0 == Phase::Uninitialized
}

/// The state after the events `evs`, in order.
pub open spec fn run<M>(v: (Phase, Option<M>), evs: Seq<SlotEvent<M>>) -> (Phase, Option<M>)
    decreases evs.len(),
{
    if evs.len() == 0 {
        v
    } else {
        run(step(v, evs[0]), evs.drop_first())
    }
}

/// How many loads the events `evs` start, from state `v`.
pub open spec fn loads<M>(v: (Phase, Option<M>), evs: Seq<SlotEvent<M>>) -> nat
    decreases evs.len(),
{
    if evs.len() == 0 {
        0
    } else {
        (if starts_load(v, evs[0]) {
            1nat
        } else {
            0nat
        }) + loads(step(v, evs[0]), evs.drop_first())
    }
}

/// Once a slot has left its initial phase, no event starts another load.
pub proof fn lemma_no_load_after_start<M>(v: (Phase, Option<M>), evs: Seq<SlotEvent<M>>)
    requires
        v.0 != Phase::Uninitialized,
    ensures
        loads(v, evs) == 0,
        run(v, evs).0 != Phase::Uninitialized,
    decreases evs.len(),
{
    if evs.len() > 0 {
        lemma_no_load_after_start(step(v, evs[0]), evs.drop_first());
    }
}

/// Whatever happens to a new slot, the model is loaded at most once.
pub proof fn lemma_load_at_most_once<M>(evs: Seq<SlotEvent<M>>)
    ensures
        loads(initial::<M>(), evs) <= 1,
    decreases evs.len(),
{
    if evs.len() > 0 {
        let v = step(initial::<M>(), evs[0]);
        if v.0 == Phase::Uninitialized {
            assert(v == initial::<M>());
            lemma_load_at_most_once(evs.drop_first());
        } else {
            lemma_no_load_after_start(v, evs.drop_first());
        }
    }
}

/// A ready slot keeps the same model, and starts no load, whatever happens.
pub proof fn lemma_ready_is_final<M>(v: (Phase, Option<M>), evs: Seq<SlotEvent<M>>)
    requires
        v.0 == Phase::Ready,
    ensures
        run(v, evs) == v,
        loads(v, evs) == 0,
    decreases evs.len(),
{
    if evs.len() > 0 {
        lemma_ready_is_final(step(v, evs[0]), evs.drop_first());
    }
}

/// Every event keeps a slot well formed.
pub proof fn lemma_step_wf<M>(v: (Phase, Option<M>), e: SlotEvent<M>)
    requires
        slot_wf(v),
    ensures
        slot_wf(step(v, e)),
{
}

impl<M> ModelSlot<M> {
    /// A slot with no model, where no load has started.
    pub fn new() -> (r: ModelSlot<M>)
        ensures
            r@ == initial::<M>(),
    {
        ModelSlot { phase: Phase::Uninitialized, model: None }
    }

    /// The slot's phase.
    pub fn phase(&self) -> (r: Phase)
        ensures
            r == self@.0,
    {
        self.phase
    }

    /// Asks for the model. Returns `true` exactly when the caller must load it
    /// now and report the outcome with `finish_load`.
    pub fn begin_load(&mut self) -> (load_now: bool)
        ensures
            load_now == starts_load(old(self)@, SlotEvent::<M>::Acquire),
            final(self)@ == step(old(self)@, SlotEvent::<M>::Acquire),
    {
        if self.phase == Phase::Uninitialized {
            self.phase = Phase::Loading;
            self.model = None;
            true
        } else {
            false
        }
    }

    /// Reports the outcome of the load that `begin_load` asked for; ignored
    /// where no load is under way.
    pub fn finish_load<E>(&mut self, outcome: Result<M, E>)
        ensures
            final(self)@ == step(
                old(self)@,
                match outcome {
                    Ok(m) => SlotEvent::Loaded(m),
                    Err(_) => SlotEvent::<M>::Failed,
                },
            ),
    {
        if self.phase == Phase::Loading {
            match outcome {
                Ok(m) => {
                    self.phase = Phase::Ready;
                    self.model = Some(m);
                },
                Err(_) => {
                    self.phase = Phase::LoadFailed;
                    self.model = None;
                },
            }
        }
    }

    /// The model, once the slot is ready.
    pub fn get(&self) -> (r: Option<&M>)
        ensures
            match r {
                Some(m) => self@.0 == Phase::Ready && self@.1 == Some(*m),
                None => self@.0 != Phase::Ready || self@.1 is None,
            },
    {
        if self.phase == Phase::Ready {
            match &self.model {
                Some(m) => Some(m),
                None => None,
            }
        } else {
            None
        }
    }
}

} // verus!
