use crate::error::CeremonyError;
use vstd::prelude::*;

verus! {

/// An error reported by the native layer: its code and message.
#[derive(Debug, Clone, PartialEq)]
pub struct NativeError {
    pub code: i64,
    pub message: String,
}

/// Where a completion slot stands.
#[derive(Debug, PartialEq)]
pub enum SlotState<T> {
    /// Nothing has arrived and the ceiling has not elapsed.
    Pending,
    /// The native layer delivered this value; nobody has taken it yet.
    Filled(Result<T, NativeError>),
    /// The ceiling elapsed first; nobody has taken the timeout yet.
    Expired,
    /// The terminal value was taken; the slot accepts nothing more.
    Drained,
}

/// The terminal value that a slot yields, once.
#[derive(Debug, PartialEq)]
pub enum Completion<T> {
    Delivered(Result<T, NativeError>),
    TimedOut,
}

/// A single-use handoff between the native completion callback and the
/// ceremony waiting on it: at most one value is accepted, at most once it is
/// taken, and whatever arrives after the first value or after the ceiling
/// is dropped.
#[derive(Debug)]
pub struct CompletionSlot<T> {
    state: SlotState<T>,
}

/// Effect of a native delivery: accepted only by a pending slot.
pub open spec fn fire_effect<T>(s: SlotState<T>, value: Result<T, NativeError>) -> (SlotState<T>, bool) {
    match s {
        SlotState::Pending => (SlotState::Filled(value), true),
        _ => (s, false),
    }
}

/// Effect of the ceiling elapsing: only a pending slot expires.
pub open spec fn expire_effect<T>(s: SlotState<T>) -> (SlotState<T>, bool) {
    match s {
        SlotState::Pending => (SlotState::Expired, true),
        _ => (s, false),
    }
}

/// Effect of taking the terminal value: a filled or expired slot yields it
/// and is drained; a pending or drained one yields nothing and stays.
pub open spec fn take_effect<T>(s: SlotState<T>) -> (SlotState<T>, Option<Completion<T>>) {
    match s {
        SlotState::Filled(v) => (SlotState::Drained, Some(Completion::Delivered(v))),
        SlotState::Expired => (SlotState::Drained, Some(Completion::TimedOut)),
        _ => (s, None),
    }
}

impl<T> View for CompletionSlot<T> {
    type V = SlotState<T>;

    closed spec fn view(&self) -> SlotState<T> {
        self.state
    }
}

impl<T> CompletionSlot<T> {
    /// A fresh, pending slot.
    pub fn new() -> (slot: Self)
        ensures
            slot@ == SlotState::<T>::Pending,
    {
        CompletionSlot { state: SlotState::Pending }
    }

    /// Whether the slot still waits for its value.
    pub fn is_pending(&self) -> (r: bool)
        ensures
            r == (self@ is Pending),
    {
        match self.state {
            SlotState::Pending => true,
            _ => false,
        }
    }

    /// Hands the native result to the slot. Only the first delivery to a
    /// pending slot is kept; the answer says whether this one was.
    pub fn fire(&mut self, value: Result<T, NativeError>) -> (accepted: bool)
        ensures
            (final(self)@, accepted) == fire_effect(old(self)@, value),
    {
        if self.is_pending() {
            self.state = SlotState::Filled(value);
            true
        } else {
            false
        }
    }

    /// Records that the ceiling elapsed; says whether the slot was still
    /// pending and so now times out.
    pub fn expire(&mut self) -> (expired: bool)
        ensures
            (final(self)@, expired) == expire_effect(old(self)@),
    {
        if self.is_pending() {
            self.state = SlotState::Expired;
            true
        } else {
            false
        }
    }

    /// Takes the terminal value, if there is one yet.
    pub fn take(&mut self) -> (c: Option<Completion<T>>)
        ensures
            (final(self)@, c) == take_effect(old(self)@),
    {
        let mut state = SlotState::Drained;
        std::mem::swap(&mut self.state, &mut state);
        match state {
            SlotState::Filled(v) => Some(Completion::Delivered(v)),
            SlotState::Expired => Some(Completion::TimedOut),
            other => {
                self.state = other;
                None
            },
        }
    }
}

/// A slot that the native layer fires twice keeps the first value: the
/// second delivery is refused and changes nothing, and the ceremony takes
/// the first value exactly once.
pub proof fn lemma_double_fire_keeps_first<T>(first: Result<T, NativeError>, second: Result<T, NativeError>)
    ensures
        ({
            let (s1, accepted1) = fire_effect(SlotState::<T>::Pending, first);
            let (s2, accepted2) = fire_effect(s1, second);
            let (s3, taken) = take_effect(s2);
            &&& accepted1
            &&& !accepted2
            &&& s2 == s1
            &&& taken == Some(Completion::Delivered(first))
            &&& take_effect(s3).1 is None
            &&& fire_effect(s3, second) == (s3, false)
        }),
{
}

/// A slot that is not fired before the ceiling yields `TimedOut`, once;
/// a late delivery, before or after the timeout is taken, is refused and
/// leaves the slot as it was.
pub proof fn lemma_unfired_slot_times_out<T>(late: Result<T, NativeError>)
    ensures
        ({
            let (s1, expired) = expire_effect(SlotState::<T>::Pending);
            let (s2, taken) = take_effect(s1);
            &&& expired
            &&& fire_effect(s1, late) == (s1, false)
            &&& taken == Some(Completion::<T>::TimedOut)
            &&& fire_effect(s2, late) == (s2, false)
            &&& take_effect(s2).1 is None
        }),
{
}

/// Once a slot has left `Pending`, no delivery and no expiry changes it.
pub proof fn lemma_settled_slot_is_frozen<T>(s: SlotState<T>, value: Result<T, NativeError>)
    requires
        !(s is Pending),
    ensures
        fire_effect(s, value) == (s, false),
        expire_effect(s) == (s, false),
{
}

} // verus!
