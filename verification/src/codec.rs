//! Versioned encoding of the controller's mutable state for checkpoint and
//! restore.
//!
//! The image is a sequence of `u64` words — the host's checkpoint mechanism
//! turns words into whatever byte form it keeps. Layout: format version,
//! tracking-error length `n`, first-run flag, elapsed accumulator, the `n`
//! error words, warm-start length `w`, the `w` warm-start words, output
//! length `m`, the `m` output words. Decoding accepts exactly the
//! well-formed images and rejects everything else, so a decoded state always
//! re-encodes to the image it came from.

use vstd::prelude::*;

use crate::MpcError;

verus! {

/// Version tag of the persisted-state image layout.
pub const STATE_FORMAT_VERSION: u64 = 1;

/// The mutable state a controller task persists across a checkpoint;
/// everything else is reconstructed from configuration at start-up.
#[derive(Debug)]
pub struct PersistedState {
    /// Whether the task is still waiting for its first measurement.
    pub first_run: bool,
    /// Elapsed-time accumulator, in nanoseconds.
    pub elapsed: u64,
    /// Tracking error, one binary64 bit pattern per axis.
    pub last_error: Vec<u64>,
    /// Warm-start iterate the next solve starts from — the solver state
    /// that carries across ticks.
    pub warm_start: Vec<u64>,
    /// Last produced output; empty when none was produced yet.
    pub last_output: Vec<u64>,
}

/// Mathematical model of a persisted state.
#[verifier::ext_equal]
pub struct StateView {
    pub first_run: bool,
    pub elapsed: u64,
    pub last_error: Seq<u64>,
    pub warm_start: Seq<u64>,
    pub last_output: Seq<u64>,
}

impl View for PersistedState {
    type V = StateView;

    open spec fn view(&self) -> StateView {
        StateView {
            first_run: self.first_run,
            elapsed: self.elapsed,
            last_error: self.last_error@,
            warm_start: self.warm_start@,
            last_output: self.last_output@,
        }
    }
}

/// The word image of a persisted state.
pub open spec fn spec_encode(s: StateView) -> Seq<u64> {
    seq![
        STATE_FORMAT_VERSION,
        s.last_error.len() as u64,
        if s.first_run {
            1u64
        } else {
            0u64
        },
        s.elapsed,
    ] + s.last_error + seq![s.warm_start.len() as u64] + s.warm_start + seq![
        s.last_output.len() as u64,
    ] + s.last_output
}

/// The persisted state a word image decodes to, if it is well formed.
pub open spec fn spec_decode(w: Seq<u64>) -> Option<StateView> {
    if w.len() < 6 {
        None
    } else {
        let n = w[1] as int;
        if w.len() < 6 + n {
            None
        } else {
            let wl = w[4 + n] as int;
            if w.len() < 6 + n + wl {
                None
            } else {
                let m = w[5 + n + wl] as int;
                if w.len() != 6 + n + wl + m {
                    None
                } else if w[0] != STATE_FORMAT_VERSION {
                    None
                } else if w[2] != 0 && w[2] != 1 {
                    None
                } else {
                    Some(
                        StateView {
                            first_run: w[2] == 1,
                            elapsed: w[3],
                            last_error: w.subrange(4, 4 + n),
                            warm_start: w.subrange(5 + n, 5 + n + wl),
                            last_output: w.subrange(6 + n + wl, 6 + n + wl + m),
                        },
                    )
                }
            }
        }
    }
}

/// Decoding inverts encoding: every persisted state comes back from its own
/// image exactly.
pub proof fn lemma_codec_round_trip(s: StateView)
    requires
        s.last_error.len() <= u64::MAX,
        s.warm_start.len() <= u64::MAX,
        s.last_output.len() <= u64::MAX,
    ensures
        spec_decode(spec_encode(s)) == Some(s),
{
    let w = spec_encode(s);
    let n = s.last_error.len() as int;
    let wl = s.warm_start.len() as int;
    let m = s.last_output.len() as int;
    assert(w.len() == 6 + n + wl + m);
    assert(w[1] == n as u64);
    assert(w[4 + n] == wl as u64);
    assert(w[5 + n + wl] == m as u64);
    assert(w.subrange(4, 4 + n) =~= s.last_error);
    assert(w.subrange(5 + n, 5 + n + wl) =~= s.warm_start);
    assert(w.subrange(6 + n + wl, 6 + n + wl + m) =~= s.last_output);
    assert(spec_decode(w)->Some_0 =~= s);
}

/// Appends the words of `src` to `w`.
fn append_words(w: &mut Vec<u64>, src: &Vec<u64>)
    ensures
        final(w)@ == old(w)@ + src@,
{
    let mut i: usize = 0;
    proof {
        assert(old(w)@ + src@.subrange(0, 0) =~= old(w)@);
    }
    while i < src.len()
        invariant
            i <= src@.len(),
            w@ == old(w)@ + src@.subrange(0, i as int),
        decreases src@.len() - i,
    {
        w.push(src[i]);
        i += 1;
        proof {
            assert(w@ =~= old(w)@ + src@.subrange(0, i as int));
        }
    }
    proof {
        assert(w@ =~= old(w)@ + src@);
    }
}

/// Copies `count` words of `w` starting at `start`.
fn copy_range(w: &Vec<u64>, start: usize, count: usize) -> (v: Vec<u64>)
    requires
        start + count <= w@.len(),
    ensures
        v@ == w@.subrange(start as int, start as int + count as int),
{
    let total = w.len();
    let mut v: Vec<u64> = Vec::new();
    let mut i: usize = 0;
    while i < count
        invariant
            i <= count,
            total == w@.len(),
            start + count <= total,
            v@.len() == i,
            forall|j: int| 0 <= j < i ==> v@[j] == w@[start + j],
        decreases count - i,
    {
        v.push(w[start + i]);
        i += 1;
    }
    proof {
        assert(v@ =~= w@.subrange(start as int, start as int + count as int));
    }
    v
}

/// Encodes a persisted state into its word image.
pub fn encode_state(s: &PersistedState) -> (w: Vec<u64>)
    ensures
        w@ == spec_encode(s@),
{
    let mut w: Vec<u64> = Vec::new();
    w.push(STATE_FORMAT_VERSION);
    w.push(s.last_error.len() as u64);
    w.push(if s.first_run { 1 } else { 0 });
    w.push(s.elapsed);
    append_words(&mut w, &s.last_error);
    w.push(s.warm_start.len() as u64);
    append_words(&mut w, &s.warm_start);
    w.push(s.last_output.len() as u64);
    append_words(&mut w, &s.last_output);
    proof {
        assert(w@ =~= spec_encode(s@));
    }
    w
}

/// Decodes a word image, rejecting with `SerializationError` every image
/// that no persisted state encodes to.
pub fn decode_state(w: &Vec<u64>) -> (r: Result<PersistedState, MpcError>)
    ensures
        r is Ok <==> spec_decode(w@) is Some,
        r is Ok ==> Some(r->Ok_0@) == spec_decode(w@),
        r is Err ==> r->Err_0 == MpcError::SerializationError,
{
    let len = w.len();
    if len < 6 {
        return Err(MpcError::SerializationError);
    }
    let n64 = w[1];
    if n64 > (len - 6) as u64 {
        return Err(MpcError::SerializationError);
    }
    let n = n64 as usize;
    let wl64 = w[4 + n];
    if wl64 > (len - 6 - n) as u64 {
        return Err(MpcError::SerializationError);
    }
    let wl = wl64 as usize;
    let m64 = w[5 + n + wl];
    if m64 != (len - 6 - n - wl) as u64 {
        return Err(MpcError::SerializationError);
    }
    let m = m64 as usize;
    if w[0] != STATE_FORMAT_VERSION {
        return Err(MpcError::SerializationError);
    }
    let flag = w[2];
    if flag != 0 && flag != 1 {
        return Err(MpcError::SerializationError);
    }
    let last_error = copy_range(w, 4, n);
    let warm_start = copy_range(w, 5 + n, wl);
    let last_output = copy_range(w, 6 + n + wl, m);
    let s = PersistedState {
        first_run: flag == 1,
        elapsed: w[3],
        last_error,
        warm_start,
        last_output,
    };
    proof {
        assert(spec_decode(w@)->Some_0 =~= s@);
    }
    Ok(s)
}

} // verus!
