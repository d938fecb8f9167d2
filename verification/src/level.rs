//! The level meter: the peak magnitude of a frame of signed 16-bit samples.

use vstd::prelude::*;

verus! {

/// Magnitude of one signed 16-bit sample.  The most negative representable
/// value is clamped to the most positive one instead of being negated, so the
/// result always fits in an `i16`.
pub open spec fn sat_abs(x: i16) -> int {
    if x == i16::MIN {
        i16::MAX as int
    } else if x < 0 {
        -(x as int)
    } else {
        x as int
    }
}

/// Peak magnitude over a sequence of samples; 0 for an empty sequence.
pub open spec fn peak_level(s: Seq<i16>) -> int
    decreases s.len(),
{
    if s.len() == 0 {
        0
    } else {
        let rest = peak_level(s.drop_last());
        if sat_abs(s.last()) > rest {
            sat_abs(s.last())
        } else {
            rest
        }
    }
}

/// The peak level is non-negative, fits in an `i16`, dominates the magnitude
/// of every sample, and (for a non-empty frame) is attained by some sample.
pub proof fn lemma_peak_level_bounds(s: Seq<i16>)
    ensures
        0 <= peak_level(s) <= i16::MAX,
        forall|i: int| 0 <= i < s.len() ==> sat_abs(s[i]) <= peak_level(s),
        s.len() > 0 ==> exists|i: int| 0 <= i < s.len() && peak_level(s) == sat_abs(s[i]),
    decreases s.len(),
{
    if s.len() > 0 {
        lemma_peak_level_bounds(s.drop_last());
        assert(forall|i: int| 0 <= i < s.len() - 1 ==> s.drop_last()[i] == s[i]);
        if peak_level(s) == sat_abs(s.last()) {
            assert(peak_level(s) == sat_abs(s[s.len() - 1]));
        }
    }
}

/// The maximum absolute sample value of a frame, computed with saturating
/// negation so that `i16::MIN` yields `i16::MAX` rather than wrapping.
pub fn audio_level(buf: &[i16]) -> (r: i16)
    ensures
        0 <= r,
        r as int == peak_level(buf@),
        forall|i: int| 0 <= i < buf@.len() ==> sat_abs(buf@[i]) <= r as int,
        buf@.len() > 0 ==> exists|i: int| 0 <= i < buf@.len() && r as int == sat_abs(buf@[i]),
{
    let mut x: i16 = 0;
    let mut i: usize = 0;
    while i < buf.len()
        invariant
            0 <= i <= buf@.len(),
            0 <= x,
            x as int == peak_level(buf@.take(i as int)),
        decreases buf@.len() - i,
    {
        let mut b: i16 = buf[i];
        if b < 0 {
            b = if b == i16::MIN {
                i16::MAX
            } else {
                -b
            };
        }
        if x < b {
            x = b;
        }
        proof {
            let t = buf@.take(i as int + 1);
            assert(t.drop_last() =~= buf@.take(i as int));
            assert(t.last() == buf@[i as int]);
        }
        i = i + 1;
    }
    proof {
        assert(buf@.take(buf@.len() as int) =~= buf@);
        lemma_peak_level_bounds(buf@);
    }
    x
}

} // verus!
