//! The synthesis worker's decisions: the bounded FIFO of pending requests,
//! and what a reply holds once the engine has spoken.
//!
//! The worker owns one synthesis engine and serves one request at a time, in
//! arrival order. A producer that finds the queue full waits for room; no
//! request is dropped or refused on that account.
use vstd::prelude::*;
use std::collections::VecDeque;
use crate::codec::{decodes_to, pcm16le_to_samples};

verus! {

/// How many requests may wait for the worker at once.
pub const QUEUE_CAPACITY: usize = 8;

/// The voice the worker speaks with.
pub const SPEAKER_ID: u32 = 1;

/// Why a synthesis failed.
#[derive(Debug, Clone, Copy, PartialEq, Eq, Structural)]
pub enum SynthesisError {
    /// The engine failed, or produced audio that does not decode.
    EngineFailure,
}

impl SynthesisError {
    /// A short human-readable description.
    pub fn message(&self) -> (r: String)
        ensures
            r@.len() > 0,
    {
        proof { reveal_strlit("failed to synthesize speech"); }
        String::from_str("failed to synthesize speech")
    }
}

/// What a reply holds for an engine run that gave `engine`: the decoded
/// samples of its audio, or `EngineFailure` when the run failed or its audio
/// has an odd number of bytes.
pub open spec fn synthesis_outcome<E>(engine: Result<Vec<u8>, E>, r: Result<Vec<i16>, SynthesisError>) -> bool {
    match engine {
        Ok(bytes) => if bytes@.len() % 2 == 0 {
            r is Ok && decodes_to(bytes@, r->Ok_0@)
        } else {
            r == Err::<Vec<i16>, SynthesisError>(SynthesisError::EngineFailure)
        },
        Err(_) => r == Err::<Vec<i16>, SynthesisError>(SynthesisError::EngineFailure),
    }
}

/// Turns the engine's raw audio into the reply for its request.
pub fn finish_synthesis<E>(engine: Result<Vec<u8>, E>) -> (r: Result<Vec<i16>, SynthesisError>)
    ensures
        synthesis_outcome(engine, r),
{
    match engine {
        Ok(bytes) => {
            let decoded = pcm16le_to_samples(bytes.as_slice());
            match decoded {
                Ok(v) => Ok(v),
                Err(_) => Err(SynthesisError::EngineFailure),
            }
        },
        Err(_) => Err(SynthesisError::EngineFailure),
    }
}

/// A pending synthesis: the text to speak and the slot its reply goes to.
/// The two travel together through the queue, so a reply can only reach the
/// caller whose text it was made from.
pub struct SynthesisRequest<R> {
    pub text: String,
    pub reply: R,
}

/// Pairs the engine's answer for `request.text` with the request's own reply
/// slot.
pub fn answer<R, E>(request: SynthesisRequest<R>, engine: Result<Vec<u8>, E>) -> (r: (
    R,
    Result<Vec<i16>, SynthesisError>,
))
    ensures
        r.0 == request.reply,
        synthesis_outcome(engine, r.1),
{
    (request.reply, finish_synthesis(engine))
}

/// Whether a queue holding `len` requests has room for one more.
pub open spec fn has_room(len: nat, capacity: nat) -> bool {
    len < capacity
}

/// A bounded first-in, first-out queue of pending requests.
pub struct RequestQueue<T> {
    items: VecDeque<T>,
    capacity: usize,
}

impl<T> View for RequestQueue<T> {
    type V = Seq<T>;

    closed spec fn view(&self) -> Seq<T> {
        self.items@
    }
}

impl<T> RequestQueue<T> {
    /// The most requests the queue holds.
    pub closed spec fn bound(&self) -> nat {
        self.capacity as nat
    }

    /// The queue never holds more than its bound, and the bound is positive.
    pub closed spec fn wf(&self) -> bool {
        &&& 0 < self.capacity
        &&& self.items@.len() <= self.capacity
    }

    /// An empty queue that holds at most `capacity` requests.
    pub fn new(capacity: usize) -> (r: Self)
        requires
            capacity > 0,
        ensures
            r.wf(),
            r@ == Seq::<T>::empty(),
            r.bound() == capacity,
    {
        RequestQueue { items: VecDeque::new(), capacity }
    }

    /// How many requests wait.
    pub fn len(&self) -> (r: usize)
        requires
            self.wf(),
        ensures
            r == self@.len(),
    {
        self.items.len()
    }

    /// The most requests the queue holds.
    pub fn capacity(&self) -> (r: usize)
        ensures
            r == self.bound(),
    {
        self.capacity
    }

    /// Whether no request waits.
    pub fn is_empty(&self) -> (r: bool)
        requires
            self.wf(),
        ensures
            r == (self@.len() == 0),
    {
        self.items.len() == 0
    }

    /// Whether a producer would have to wait.
    pub fn is_full(&self) -> (r: bool)
        requires
            self.wf(),
        ensures
            r == !has_room(self@.len(), self.bound()),
    {
        self.items.len() >= self.capacity
    }

    /// Appends `item` when there is room. A full queue hands the item back
    /// untouched and stays as it was: the producer waits and tries again.
    pub fn try_push(&mut self, item: T) -> (r: Result<(), T>)
        requires
            old(self).wf(),
        ensures
            final(self).wf(),
            final(self).bound() == old(self).bound(),
            has_room(old(self)@.len(), old(self).bound()) ==> r is Ok && final(self)@ == old(self)@.push(item),
            !has_room(old(self)@.len(), old(self).bound()) ==> r == Err::<(), T>(item) && final(self)@ == old(self)@,
    {
        if self.items.len() >= self.capacity {
            Err(item)
        } else {
            self.items.push_back(item);
            Ok(())
        }
    }

    /// Takes the oldest waiting request, if any.
    pub fn pop(&mut self) -> (r: Option<T>)
        requires
            old(self).wf(),
        ensures
            final(self).wf(),
            final(self).bound() == old(self).bound(),
            old(self)@.len() == 0 ==> r is None && final(self)@ == old(self)@,
            old(self)@.len() > 0 ==> r == Some(old(self)@[0]) && final(self)@ == old(self)@.drop_first(),
    {
        self.items.pop_front()
    }
}

/// The requests that `n` pops take from a queue holding `s`, oldest first.
pub open spec fn served<T>(s: Seq<T>, n: nat) -> Seq<T>
    decreases n,
{
    if n == 0 || s.len() == 0 {
        Seq::empty()
    } else {
        seq![s[0]] + served(s.drop_first(), (n - 1) as nat)
    }
}

/// Requests are served in arrival order, each exactly once: once `x` has
/// joined a queue holding `s`, the next `s.len()` pops hand out `s` and the
/// one after hands out `x` itself, never another request's value.
pub proof fn lemma_served_in_arrival_order<T>(s: Seq<T>, x: T)
    ensures
        served(s.push(x), s.len()) == s,
        served(s.push(x), s.len() + 1) == s.push(x),
    decreases s.len(),
{
    if s.len() > 0 {
        assert(s.push(x).drop_first() =~= s.drop_first().push(x));
        lemma_served_in_arrival_order(s.drop_first(), x);
        assert(seq![s[0]] + s.drop_first() =~= s);
        assert(seq![s[0]] + s.drop_first().push(x) =~= s.push(x));
    } else {
        assert(served(s.push(x), 0) =~= s);
        assert(s.push(x).drop_first() =~= Seq::<T>::empty());
        assert(served(s.push(x).drop_first(), 0) =~= Seq::<T>::empty());
        assert(seq![x] + Seq::<T>::empty() =~= s.push(x));
    }
}

/// Backpressure: a full queue refuses a new request without losing anything,
/// and once the worker has taken one request there is room again.
pub proof fn lemma_room_after_drain<T>(s: Seq<T>, capacity: nat)
    requires
        s.len() == capacity,
        capacity > 0,
    ensures
        !has_room(s.len(), capacity),
        has_room(s.drop_first().len(), capacity),
{
}

} // verus!
