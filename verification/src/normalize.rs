//! Rebasing of raw millisecond timestamps to seconds from a zero point.

use vstd::prelude::*;
use vstd::arithmetic::div_mod::lemma_div_is_ordered;
use crate::records::RawRecord;

verus! {

/// A raw millisecond timestamp rebased against `zero` and truncated to
/// whole seconds. A raw value before the zero point clamps to 0 instead of
/// wrapping.
pub open spec fn normalized_sec(zero: u32, raw: u32) -> u32 {
    if raw >= zero {
        (((raw - zero) as int) / 1000) as u32
    } else {
        0
    }
}

/// The whole raw stream rebased against its first element.
pub open spec fn normalized_stream(raws: Seq<u32>) -> Seq<u32> {
    raws.map(|k: int, raw: u32| normalized_sec(raws[0], raw))
}

/// The zero point of a record stream: the raw timestamp of its first
/// record.
pub open spec fn batch_zero(recs: Seq<RawRecord>) -> u32 {
    if recs.len() == 0 {
        0
    } else {
        recs[0].timestamp
    }
}

/// `recs` with every timestamp rebased against `zero`; nothing else
/// changes.
pub open spec fn rebased(recs: Seq<RawRecord>, zero: u32) -> Seq<RawRecord> {
    recs.map(
        |k: int, r: RawRecord| RawRecord { timestamp: normalized_sec(zero, r.timestamp), ..r },
    )
}

/// Tracks the zero point (the first raw timestamp seen) and the raw
/// timestamp seen last, and rebases each observed value.
pub struct TimestampNormalizer {
    zero: Option<u32>,
    last: Option<u32>,
}

impl TimestampNormalizer {
    /// The zero point: the first raw timestamp this normalizer saw.
    pub closed spec fn zero_spec(self) -> Option<u32> {
        self.zero
    }

    /// The raw timestamp observed last.
    pub closed spec fn last_spec(self) -> Option<u32> {
        self.last
    }

    pub fn new() -> (n: TimestampNormalizer)
        ensures
            n.zero_spec() is None,
            n.last_spec() is None,
    {
        TimestampNormalizer { zero: None, last: None }
    }

    /// Feeds one raw timestamp: the first one becomes the zero point, and
    /// every one is rebased against it. The flag reports the
    /// `NonMonotonicTimestamp` condition, a timestamp that precedes the
    /// zero point; such a value clamps to 0 second and decoding goes on.
    pub fn observe(&mut self, raw: u32) -> (r: (u32, bool))
        ensures
            final(self).zero_spec() matches Some(z) && z == (match old(self).zero_spec() {
                Some(z0) => z0,
                None => raw,
            }),
            final(self).last_spec() == Some(raw),
            r.0 == normalized_sec(final(self).zero_spec()->0, raw),
            r.1 == (raw < final(self).zero_spec()->0),
    {
        let zero = match self.zero {
            Some(z0) => z0,
            None => {
                self.zero = Some(raw);
                raw
            }
        };
        self.last = Some(raw);
        if raw >= zero {
            ((raw - zero) / 1000, false)
        } else {
            (0, true)
        }
    }
}

/// Rebases every timestamp of a batch against the batch's first, in place
/// of a per-record pass.
pub fn normalize_all(raws: &Vec<u32>) -> (r: Vec<u32>)
    ensures
        r@.len() == raws@.len(),
        forall|k: int| 0 <= k < raws@.len() ==> r@[k] == normalized_sec(raws@[0], raws@[k]),
        r@ == normalized_stream(raws@),
{
    let mut out: Vec<u32> = Vec::new();
    let n: usize = raws.len();
    if n == 0 {
        proof {
            assert(out@ =~= normalized_stream(raws@));
        }
        return out;
    }
    let zero = raws[0];
    let mut i: usize = 0;
    while i < n
        invariant
            n == raws@.len(),
            n > 0,
            zero == raws@[0],
            i <= n,
            out@.len() == i,
            forall|k: int| 0 <= k < i ==> out@[k] == normalized_sec(zero, raws@[k]),
        decreases n - i,
    {
        let raw = raws[i];
        if raw >= zero {
            out.push((raw - zero) / 1000);
        } else {
            out.push(0);
        }
        i = i + 1;
    }
    proof {
        assert(out@ =~= normalized_stream(raws@));
    }
    out
}

/// However the raw timestamps run, the normalized stream starts at 0 and
/// holds no negative value.
pub proof fn lemma_normalized_starts_at_zero(raws: Seq<u32>)
    requires
        raws.len() > 0,
    ensures
        normalized_stream(raws)[0] == 0,
        forall|k: int| 0 <= k < raws.len() ==> normalized_stream(raws)[k] >= 0,
{
}

/// Over raw timestamps that never step backwards, the normalized stream is
/// non-decreasing.
pub proof fn lemma_normalized_nondecreasing(raws: Seq<u32>)
    requires
        raws.len() > 0,
        forall|i: int, j: int| 0 <= i <= j < raws.len() ==> raws[i] <= raws[j],
    ensures
        forall|i: int, j: int|
            0 <= i <= j < raws.len() ==> normalized_stream(raws)[i] <= normalized_stream(raws)[j],
{
    assert forall|i: int, j: int|
        0 <= i <= j < raws.len() implies normalized_stream(raws)[i] <= normalized_stream(
        raws,
    )[j] by {
        let zero = raws[0];
        if raws[i] >= zero && raws[j] >= zero {
            lemma_div_is_ordered((raws[i] - zero) as int, (raws[j] - zero) as int, 1000);
        }
    }
}

} // verus!
