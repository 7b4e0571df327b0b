//! The transcription model registry: one swappable slot for a loaded model,
//! and the assembly of the engine's segments into the transcript.
//!
//! The registry is generic over the model handle, so the rules of loading and
//! using it hold whatever engine fills the slot. Callers share it behind a
//! reader/writer lock and take the lock exclusively for both operations.
use vstd::prelude::*;

verus! {

/// Why a model could not be loaded.
#[derive(Debug, Clone, Copy, PartialEq, Eq, Structural)]
pub enum LoadError {
    /// The engine could not open or parse the model file.
    EngineInit,
}

/// Why a transcription failed.
#[derive(Debug, Clone, Copy, PartialEq, Eq, Structural)]
pub enum TranscribeError {
    /// No model has been loaded yet.
    NotLoaded,
    /// The engine rejected the input.
    EngineFailure,
}

impl LoadError {
    /// A short human-readable description.
    pub fn message(&self) -> (r: String)
        ensures
            r@.len() > 0,
    {
        proof { reveal_strlit("failed to load model"); }
        String::from_str("failed to load model")
    }
}

impl TranscribeError {
    /// A short human-readable description.
    pub fn message(&self) -> (r: String)
        ensures
            r@.len() > 0,
    {
        match self {
            TranscribeError::NotLoaded => {
                proof { reveal_strlit("no model loaded"); }
                String::from_str("no model loaded")
            },
            TranscribeError::EngineFailure => {
                proof { reveal_strlit("failed to run model"); }
                String::from_str("failed to run model")
            },
        }
    }
}

/// One recognized stretch of speech: its start and end timestamps, as the
/// engine reports them, and its text.
#[derive(Debug, Clone, PartialEq, Eq)]
pub struct Segment {
    pub start: i64,
    pub end: i64,
    pub text: String,
}

/// The transcript of `segs`: their texts, concatenated in the order given.
pub open spec fn joined(segs: Seq<Segment>) -> Seq<char>
    decreases segs.len(),
{
    if segs.len() == 0 {
        Seq::empty()
    } else {
        joined(segs.drop_last()) + segs.last().text@
    }
}

/// Concatenates the segments' texts in the order the engine emitted them,
/// which is the order of their start timestamps.
pub fn join_segments(segs: &Vec<Segment>) -> (r: String)
    ensures
        r@ == joined(segs@),
{
    let mut out = String::new();
    let mut k: usize = 0;
    while k < segs.len()
        invariant
            k <= segs@.len(),
            out@ == joined(segs@.take(k as int)),
        decreases segs@.len() - k,
    {
        assert(segs@.take(k as int + 1).drop_last() =~= segs@.take(k as int));
        out.append(segs[k].text.as_str());
        k = k + 1;
    }
    assert(segs@.take(k as int) =~= segs@);
    out
}

/// What a transcription returns once the engine has run: the joined text of
/// its segments, or `EngineFailure` when the engine failed.
pub open spec fn transcription_outcome<E>(
    engine: Result<Vec<Segment>, E>,
) -> Result<Seq<char>, TranscribeError> {
    match engine {
        Ok(segs) => Ok(joined(segs@)),
        Err(_) => Err(TranscribeError::EngineFailure),
    }
}

/// Turns the engine's answer into the transcript or the typed failure.
pub fn finish_transcription<E>(engine: Result<Vec<Segment>, E>) -> (r: Result<String, TranscribeError>)
    ensures
        match transcription_outcome(engine) {
            Ok(t) => r is Ok && r->Ok_0@ == t,
            Err(e) => r == Err::<String, TranscribeError>(e),
        },
{
    match engine {
        Ok(segs) => Ok(join_segments(&segs)),
        Err(_) => Err(TranscribeError::EngineFailure),
    }
}

/// The slot after a load whose engine construction gave `built`: the new
/// model replaces the old one wholesale; a failed construction leaves it as it was.
pub open spec fn after_load<M, E>(slot: Option<M>, built: Result<M, E>) -> Option<M> {
    match built {
        Ok(m) => Some(m),
        Err(_) => slot,
    }
}

/// What a load reports for an engine construction that gave `built`.
pub open spec fn load_outcome<M, E>(built: Result<M, E>) -> Result<(), LoadError> {
    match built {
        Ok(_) => Ok(()),
        Err(_) => Err(LoadError::EngineInit),
    }
}

/// Whether a transcription may run against `slot`: only when a model is there.
pub open spec fn usable<M>(slot: Option<M>) -> Result<M, TranscribeError> {
    match slot {
        Some(m) => Ok(m),
        None => Err(TranscribeError::NotLoaded),
    }
}

/// Holder of the optional, swappable transcription model.
pub struct ModelRegistry<M> {
    slot: Option<M>,
}

impl<M> View for ModelRegistry<M> {
    type V = Option<M>;

    closed spec fn view(&self) -> Option<M> {
        self.slot
    }
}

impl<M> ModelRegistry<M> {
    /// An empty registry: nothing is loaded at startup.
    pub fn new() -> (r: Self)
        ensures
            r@ is None,
    {
        ModelRegistry { slot: None }
    }

    /// Whether a model is loaded.
    pub fn is_loaded(&self) -> (r: bool)
        ensures
            r == self@ is Some,
    {
        self.slot.is_some()
    }

    /// Installs the result of constructing an engine from a model file:
    /// a new model replaces any previous one, a failed construction is
    /// reported as `EngineInit` and changes nothing.
    pub fn install<E>(&mut self, built: Result<M, E>) -> (r: Result<(), LoadError>)
        ensures
            final(self)@ == after_load(old(self)@, built),
            r == load_outcome(built),
    {
        match built {
            Ok(m) => {
                self.slot = Some(m);
                Ok(())
            },
            Err(_) => Err(LoadError::EngineInit),
        }
    }

    /// The loaded model, for one exclusive use; `NotLoaded` when the slot is
    /// empty.
    pub fn model_mut(&mut self) -> (r: Result<&mut M, TranscribeError>)
        ensures
            final(self)@ is Some == old(self)@ is Some,
            match usable(old(self)@) {
                Ok(m) => r is Ok && *r->Ok_0 == m && final(self)@ == Some(*final(r->Ok_0)),
                Err(e) => r is Err && r->Err_0 == e,
            },
    {
        match self.slot.as_mut() {
            Some(m) => Ok(m),
            None => Err(TranscribeError::NotLoaded),
        }
    }
}

/// Loading is a wholesale swap: before any load a transcription is refused
/// with `NotLoaded`; after a successful load it runs against that model; after
/// a second successful load it runs against the second model only.
pub proof fn lemma_load_replaces_model<M, E>(first: M, second: M, failed: E)
    ensures
        usable(None::<M>) == Err::<M, TranscribeError>(TranscribeError::NotLoaded),
        usable(after_load(None::<M>, Ok::<M, E>(first))) == Ok::<M, TranscribeError>(first),
        usable(after_load(after_load(None::<M>, Ok::<M, E>(first)), Ok::<M, E>(second)))
            == Ok::<M, TranscribeError>(second),
        after_load(Some(first), Err::<M, E>(failed)) == Some(first),
{
}

/// The transcript keeps the engine's order: the segments of a later stretch
/// of audio come after those of an earlier one.
pub proof fn lemma_join_keeps_order(a: Seq<Segment>, b: Seq<Segment>)
    ensures
        joined(a + b) == joined(a) + joined(b),
    decreases b.len(),
{
    if b.len() == 0 {
        assert(a + b =~= a);
    } else {
        assert((a + b).drop_last() =~= a + b.drop_last());
        lemma_join_keeps_order(a, b.drop_last());
    }
}

} // verus!
