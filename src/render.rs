//! Filling the render stream's buffer: how many frames to write, where each
//! sample's bytes go, and whether the buffer is released as silence.
use vstd::arithmetic::div_mod::lemma_fundamental_div_mod_converse;
use vstd::prelude::*;

verus! {

/// The buffer flag that tells the audio engine to ignore the contents.
pub const AUDCLNT_BUFFERFLAGS_SILENT: u32 = 2;

/// Byte `k` (0 = least significant) of the little-endian encoding of `x`.
pub open spec fn le_byte(x: u32, k: nat) -> u8 {
    ((x as nat / pow256(k)) % 256) as u8
}

/// `256` to the power `k`.
pub open spec fn pow256(k: nat) -> nat
    decreases k,
{
    if k == 0 {
        1
    } else {
        256 * pow256((k - 1) as nat)
    }
}

/// The buffer `old` after the interleaved `samples` (one slot of
/// `bytes_per_sample` bytes each) are written: a slot whose sample is present
/// gets the sample's little-endian bytes (as many of the four as fit); a slot
/// without a sample, and any byte beyond the fourth, keeps its contents.
pub open spec fn filled(old: Seq<u8>, samples: Seq<Option<u32>>, bytes_per_sample: nat) -> Seq<u8> {
    Seq::new(
        old.len(),
        |i: int|
            {
                let slot = i / bytes_per_sample as int;
                let b = i % bytes_per_sample as int;
                if b < 4 && samples[slot] is Some {
                    le_byte(samples[slot]->Some_0, b as nat)
                } else {
                    old[i]
                }
            },
    )
}

/// Whether any slot has a sample.
pub open spec fn any_present(samples: Seq<Option<u32>>) -> bool {
    exists|s: int| 0 <= s < samples.len() && #[trigger] samples[s] is Some
}

fn le_byte_of(x: u32, k: usize) -> (r: u8)
    requires
        k < 4,
    ensures
        r == le_byte(x, k as nat),
{
    let d: u32 = if k == 0 {
        1
    } else if k == 1 {
        256
    } else if k == 2 {
        65536
    } else {
        16777216
    };
    proof {
        reveal_with_fuel(pow256, 5);
    }
    ((x / d) % 256) as u8
}

/// Writes the interleaved `samples` into `data`, a buffer of one slot of
/// `bytes_per_sample` bytes per sample, and says whether any slot had a
/// sample.
pub fn fill_samples(data: &mut [u8], samples: &Vec<Option<u32>>, bytes_per_sample: usize) -> (r: bool)
    requires
        bytes_per_sample > 0,
        old(data)@.len() == samples@.len() * bytes_per_sample,
    ensures
        final(data)@ == filled(old(data)@, samples@, bytes_per_sample as nat),
        r == any_present(samples@),
{
    let n = samples.len();
    let bps = bytes_per_sample;
    let width = if bps < 4 {
        bps
    } else {
        4
    };
    let total = data.len();
    let mut any = false;
    let mut s: usize = 0;
    let mut base: usize = 0;
    while s < n
        invariant
            n == samples@.len(),
            bps == bytes_per_sample,
            0 < bps,
            width == if bps < 4 {
                bps
            } else {
                4
            },
            s <= n,
            base == s * bps,
            data@.len() == n * bps,
            data@.len() == old(data)@.len(),
            total == data@.len(),
            base <= total,
            any == exists|j: int| 0 <= j < s && #[trigger] samples@[j] is Some,
            forall|i: int|
                0 <= i < base ==> data@[i] == filled(old(data)@, samples@, bps as nat)[i],
            forall|i: int| base <= i < data@.len() ==> data@[i] == old(data)@[i],
        decreases n - s,
    {
        assert(base + bps <= n * bps) by (nonlinear_arith)
            requires
                base == s * bps,
                s < n,
        ;
        match samples[s] {
            Some(x) => {
                any = true;
                let mut b: usize = 0;
                while b < width
                    invariant
                        b <= width,
                        width <= bps,
                        width <= 4,
                        base + bps <= data@.len(),
                        data@.len() == old(data)@.len(),
                        total == data@.len(),
                        forall|i: int| 0 <= i < base + b ==> data@[i] == (if i < base {
                            filled(old(data)@, samples@, bps as nat)[i]
                        } else {
                            le_byte(x, (i - base) as nat)
                        }),
                        forall|i: int| base + b <= i < data@.len() ==> data@[i] == old(data)@[i],
                    decreases width - b,
                {
                    data[base + b] = le_byte_of(x, b);
                    b = b + 1;
                }
            },
            None => {},
        }
        proof {
            let f = filled(old(data)@, samples@, bps as nat);
            assert forall|i: int| base <= i < base + bps implies data@[i] == f[i] by {
                lemma_fundamental_div_mod_converse(i, bps as int, s as int, i - base);
                assert(s * bps == base);
            }
        }
        base = base + bps;
        s = s + 1;
        assert(base == s * bps) by (nonlinear_arith)
            requires
                base == (s - 1) * bps + bps,
        ;
    }
    proof {
        assert(base == data@.len());
        assert(data@ =~= filled(old(data)@, samples@, bps as nat));
    }
    any
}

/// The flag to release a buffer with: silent where no slot had a sample or
/// where silence is requested, none otherwise.
pub fn release_flags(any_sample: bool, is_silence: bool) -> (r: u32)
    ensures
        r == if !any_sample || is_silence {
            AUDCLNT_BUFFERFLAGS_SILENT
        } else {
            0
        },
{
    if !any_sample || is_silence {
        AUDCLNT_BUFFERFLAGS_SILENT
    } else {
        0
    }
}

/// Bytes of one sample slot in frames of `block_align` bytes holding
/// `channels` samples each; `None` where the frame does not split into equal,
/// non-empty slots.
pub fn sample_width(block_align: u16, channels: u16) -> (r: Option<usize>)
    ensures
        r is Some <==> channels > 0 && block_align % channels == 0 && block_align >= channels,
        r matches Some(w) ==> w == block_align / channels && w > 0,
{
    if channels == 0 || block_align % channels != 0 || block_align < channels {
        None
    } else {
        proof {
            vstd::arithmetic::div_mod::lemma_div_non_zero(block_align as int, channels as int);
        }
        Some((block_align / channels) as usize)
    }
}

/// Frames the render stream can take now, from its buffer size and the
/// frames still queued in it; `None` when it can take none (a spurious
/// wake-up).
pub fn available_frames(buffer_frames: u32, padding_frames: u32) -> (r: Option<u32>)
    ensures
        r is Some <==> padding_frames < buffer_frames,
        r matches Some(n) ==> n == buffer_frames - padding_frames,
{
    if padding_frames < buffer_frames {
        Some(buffer_frames - padding_frames)
    } else {
        None
    }
}

} // verus!
