//! The durable consensus-state synchronizer: keeps the host's record of
//! the last signed (height, round, step) current with what the enclave
//! reports, across restarts, so a height/round/step already seen is never
//! signed again — even through a process crash mid-write.

use vstd::prelude::*;

use crate::errors::StateError;
use crate::wire::{
    dec_u64, dec_u8, enc_u64, enc_u8, lemma_dec_u64, lemma_dec_u8, take_u64, take_u8, put_u64,
    put_u8,
};

verus! {

/// A consensus round step, in its signing order.
#[derive(Clone, Copy, Debug, PartialEq, Eq, Structural)]
pub enum Step {
    Propose,
    Prevote,
    Precommit,
}

/// The rank of a step within one round.
pub open spec fn step_rank(s: Step) -> int {
    match s {
        Step::Propose => 1,
        Step::Prevote => 2,
        Step::Precommit => 3,
    }
}

/// The wire code of a step.
pub open spec fn spec_step_code(s: Step) -> u8 {
    match s {
        Step::Propose => 1,
        Step::Prevote => 2,
        Step::Precommit => 3,
    }
}

/// The step a wire code stands for.
pub open spec fn spec_step_of_code(c: u8) -> Option<Step> {
    if c == 1 {
        Some(Step::Propose)
    } else if c == 2 {
        Some(Step::Prevote)
    } else if c == 3 {
        Some(Step::Precommit)
    } else {
        None
    }
}

/// The last observed signing coordinates, the value that double-signing
/// prevention rests on.
#[derive(Clone, Copy, Debug, PartialEq, Eq, Structural)]
pub struct SyncedState {
    pub height: u64,
    pub round: u64,
    pub step: Step,
}

impl SyncedState {
    /// The state a fresh host starts from, before the enclave reports.
    pub open spec fn spec_zero() -> SyncedState {
        SyncedState { height: 0, round: 0, step: Step::Propose }
    }

    /// The state a fresh host starts from.
    pub fn zero() -> (r: SyncedState)
        ensures
            r == SyncedState::spec_zero(),
    {
        SyncedState { height: 0, round: 0, step: Step::Propose }
    }
}

/// Whether `next` does not regress relative to `prev`: the coordinates are
/// compared lexicographically, height first, then round, then step.
pub open spec fn monotonic(prev: SyncedState, next: SyncedState) -> bool {
    ||| next.height > prev.height
    ||| (next.height == prev.height && next.round > prev.round)
    ||| (next.height == prev.height && next.round == prev.round && step_rank(next.step)
        >= step_rank(prev.step))
}

/// Decides whether `next` regresses relative to `prev`.
pub fn check_monotonic(prev: &SyncedState, next: &SyncedState) -> (r: bool)
    ensures
        r == monotonic(*prev, *next),
{
    if next.height > prev.height {
        true
    } else if next.height == prev.height && next.round > prev.round {
        true
    } else if next.height == prev.height && next.round == prev.round {
        let prev_rank: u8 = match prev.step {
            Step::Propose => 1,
            Step::Prevote => 2,
            Step::Precommit => 3,
        };
        let next_rank: u8 = match next.step {
            Step::Propose => 1,
            Step::Prevote => 2,
            Step::Precommit => 3,
        };
        next_rank >= prev_rank
    } else {
        false
    }
}

// ---------------------------------------------------------------------------
// The durable record: a fixed-width binary triple.
// ---------------------------------------------------------------------------

/// The on-disk form: height, round (8 bytes big-endian each), step code.
pub open spec fn spec_encode_state(st: SyncedState) -> Seq<u8> {
    enc_u64(st.height) + enc_u64(st.round) + enc_u8(spec_step_code(st.step))
}

/// Parses the on-disk form; the whole file must be exactly one record.
pub open spec fn spec_decode_state(s: Seq<u8>) -> Option<SyncedState> {
    match dec_u64(s) {
        None => None,
        Some((height, r1)) => match dec_u64(r1) {
            None => None,
            Some((round, r2)) => match dec_u8(r2) {
                None => None,
                Some((code, r3)) => match spec_step_of_code(code) {
                    None => None,
                    Some(step) => if r3.len() == 0 {
                        Some(SyncedState { height, round, step })
                    } else {
                        None
                    },
                },
            },
        },
    }
}

/// Serializes a state record for durable storage.
pub fn encode_state(st: &SyncedState) -> (r: Vec<u8>)
    ensures
        r@ == spec_encode_state(*st),
{
    let mut out: Vec<u8> = Vec::new();
    put_u64(&mut out, st.height);
    put_u64(&mut out, st.round);
    let code: u8 = match st.step {
        Step::Propose => 1,
        Step::Prevote => 2,
        Step::Precommit => 3,
    };
    put_u8(&mut out, code);
    assert(out@ =~= spec_encode_state(*st));
    out
}

/// Parses a durable state record; anything else is corrupt.
pub fn decode_state(data: &Vec<u8>) -> (r: Result<SyncedState, StateError>)
    ensures
        match r {
            Ok(st) => spec_decode_state(data@) == Some(st),
            Err(e) => e == StateError::CorruptState && spec_decode_state(data@) is None,
        },
{
    proof {
        assert(data@.skip(0) =~= data@);
    }
    match take_u64(data, 0) {
        None => Err(StateError::CorruptState),
        Some((height, j1)) => match take_u64(data, j1) {
            None => Err(StateError::CorruptState),
            Some((round, j2)) => match take_u8(data, j2) {
                None => Err(StateError::CorruptState),
                Some((code, j3)) => {
                    let step = if code == 1 {
                        Some(Step::Propose)
                    } else if code == 2 {
                        Some(Step::Prevote)
                    } else if code == 3 {
                        Some(Step::Precommit)
                    } else {
                        None
                    };
                    match step {
                        None => Err(StateError::CorruptState),
                        Some(step) => {
                            if j3 == data.len() {
                                assert(data@.skip(j3 as int).len() == 0);
                                Ok(SyncedState { height, round, step })
                            } else {
                                assert(data@.skip(j3 as int).len() > 0);
                                Err(StateError::CorruptState)
                            }
                        },
                    }
                },
            },
        },
    }
}

/// Round trip: every state record is read back exactly from its own
/// durable form.
pub proof fn lemma_state_round_trip(st: SyncedState)
    ensures
        spec_decode_state(spec_encode_state(st)) == Some(st),
{
    let empty = Seq::<u8>::empty();
    let code = spec_step_code(st.step);
    assert(spec_encode_state(st) =~= enc_u64(st.height) + (enc_u64(st.round) + (enc_u8(code)
        + empty)));
    lemma_dec_u64(st.height, enc_u64(st.round) + (enc_u8(code) + empty));
    lemma_dec_u64(st.round, enc_u8(code) + empty);
    lemma_dec_u8(code, empty);
}

// ---------------------------------------------------------------------------
// The durable file, under the atomic-replace discipline.
// ---------------------------------------------------------------------------

/// A file written only by write-temporary-then-rename. `committed` is what
/// a reader of the real path sees; `staged` is the temporary file. A
/// process crash loses the temporary file and nothing else, so a reader
/// always sees a complete previous value or a complete new one — never a
/// mix.
pub struct AtomicFile {
    /// The content a reader of the path sees; `None` while no file exists.
    pub committed: Option<Vec<u8>>,
    /// The temporary file, not yet renamed over the path.
    pub staged: Option<Vec<u8>>,
}

/// The file after a write to the temporary path: the committed content is
/// untouched.
pub open spec fn spec_stage(f: AtomicFile, b: Vec<u8>) -> AtomicFile {
    AtomicFile { committed: f.committed, staged: Some(b) }
}

/// The file after the rename: the staged value becomes committed in one
/// step.
pub open spec fn spec_commit(f: AtomicFile) -> AtomicFile {
    AtomicFile { committed: f.staged, staged: None }
}

/// The file after a process crash: the temporary is lost, the committed
/// content is exactly what it was.
pub open spec fn spec_crash(f: AtomicFile) -> AtomicFile {
    AtomicFile { committed: f.committed, staged: None }
}

/// The image of the committed content.
pub open spec fn committed_view(f: AtomicFile) -> Option<Seq<u8>> {
    match f.committed {
        Some(b) => Some(b@),
        None => None,
    }
}

impl AtomicFile {
    /// A path with no file behind it yet.
    pub fn absent() -> (r: AtomicFile)
        ensures
            r.committed is None,
            r.staged is None,
    {
        AtomicFile { committed: None, staged: None }
    }

    /// A path whose file already holds `content`.
    pub fn with_content(content: Vec<u8>) -> (r: AtomicFile)
        ensures
            r.committed == Some(content),
            r.staged is None,
    {
        AtomicFile { committed: Some(content), staged: None }
    }

    /// Writes the new value to the temporary path. The committed content
    /// is untouched: an interrupted write can lose only the temporary.
    pub fn stage(&mut self, bytes: Vec<u8>)
        ensures
            *final(self) == spec_stage(*old(self), bytes),
    {
        self.staged = Some(bytes);
    }

    /// Renames the temporary over the path: the staged value becomes the
    /// committed one in one step.
    pub fn commit(&mut self)
        requires
            old(self).staged is Some,
        ensures
            *final(self) == spec_commit(*old(self)),
    {
        self.committed = self.staged.take();
    }

    /// A process crash: the temporary file is lost, the committed file
    /// stays exactly as it was.
    pub fn crash(&mut self)
        ensures
            *final(self) == spec_crash(*old(self)),
    {
        self.staged = None;
    }

    /// What a reader of the path sees.
    pub fn read(&self) -> (r: &Option<Vec<u8>>)
        ensures
            *r == self.committed,
    {
        &self.committed
    }
}

/// A crash between the temporary write and the rename leaves the
/// previous complete committed value untouched and readable: what a
/// reader sees after the crash is exactly what it saw before the write
/// began.
pub proof fn lemma_crash_mid_write_preserves_committed(f: AtomicFile, b: Vec<u8>)
    ensures
        spec_crash(spec_stage(f, b)).committed == f.committed,
        committed_view(spec_crash(spec_stage(f, b))) == committed_view(f),
{
}

// ---------------------------------------------------------------------------
// The synchronizer.
// ---------------------------------------------------------------------------

/// The state synchronizer: holds the last durable value and the
/// control-channel port the enclave reports on.
#[derive(Debug)]
pub struct StateSyncer {
    /// The last value made durable.
    pub last: SyncedState,
    /// The control-channel port the update connection is accepted on.
    pub control_port: u32,
}

impl StateSyncer {
    /// Constructs the synchronizer from whatever the state file held at
    /// start-up: no file means the zero state; a file that does not parse
    /// is corrupt and is never silently reset, because a silent reset
    /// would reopen a double-signing window.
    pub fn new(existing: Option<Vec<u8>>, control_port: u32) -> (r: Result<StateSyncer, StateError>)
        ensures
            match r {
                Ok(s) => s.control_port == control_port && match existing {
                    None => s.last == SyncedState::spec_zero(),
                    Some(b) => spec_decode_state(b@) == Some(s.last),
                },
                Err(e) => e == StateError::CorruptState && (existing matches Some(b)
                    && spec_decode_state(b@) is None),
            },
    {
        match existing {
            None => Ok(StateSyncer { last: SyncedState::zero(), control_port }),
            Some(b) => match decode_state(&b) {
                Ok(st) => Ok(StateSyncer { last: st, control_port }),
                Err(e) => Err(e),
            },
        }
    }

    /// Applies one update reported by the enclave. A monotonic update is
    /// made durable by staging the new record and renaming it over the
    /// file, and becomes the new last value. A regressing update is a
    /// protocol violation: the file and the last value stay untouched,
    /// and the caller must terminate the sync loop.
    pub fn apply_update(&mut self, update: SyncedState, file: &mut AtomicFile) -> (r: Result<
        (),
        StateError,
    >)
        ensures
            monotonic(old(self).last, update) ==> {
                &&& r is Ok
                &&& final(self).last == update
                &&& final(self).control_port == old(self).control_port
                &&& committed_view(*final(file)) == Some(spec_encode_state(update))
                &&& final(file).staged is None
            },
            !monotonic(old(self).last, update) ==> {
                &&& r == Err::<(), StateError>(StateError::RegressedUpdate)
                &&& *final(self) == *old(self)
                &&& *final(file) == *old(file)
            },
    {
        if check_monotonic(&self.last, &update) {
            let record = encode_state(&update);
            file.stage(record);
            file.commit();
            self.last = update;
            Ok(())
        } else {
            Err(StateError::RegressedUpdate)
        }
    }
}

} // verus!
