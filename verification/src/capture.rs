//! Sample preparation on the capture side: multi-channel frames are
//! downmixed to mono by averaging the channel values of each frame. A
//! trailing incomplete frame is averaged over the full channel count, like
//! every other frame.

use vstd::prelude::*;
use vstd::arithmetic::div_mod::lemma_div_nonincreasing;

verus! {

/// Sum of the samples at indices `a..b`.
pub open spec fn sum_range(data: Seq<i16>, a: int, b: int) -> int
    decreases b - a,
{
    if a >= b {
        0
    } else {
        sum_range(data, a, b - 1) + data[b - 1]
    }
}

/// Division truncating toward zero, as Rust's integer division behaves
/// on a possibly negative sum.
pub open spec fn trunc_div(a: int, d: int) -> int {
    if a >= 0 {
        a / d
    } else {
        -((-a) / d)
    }
}

/// The mono samples for interleaved frames of `ch` channels: each frame of
/// up to `ch` samples becomes the truncating average of its samples over
/// `ch`.
pub open spec fn downmix_spec(data: Seq<i16>, ch: int) -> Seq<i16>
    decreases data.len(),
{
    if data.len() == 0 || ch < 1 {
        Seq::empty()
    } else {
        let take: int = if data.len() < ch {
            data.len() as int
        } else {
            ch
        };
        seq![trunc_div(sum_range(data, 0, take), ch) as i16] + downmix_spec(data.skip(take), ch)
    }
}

proof fn lemma_sum_range_shift(data: Seq<i16>, pos: int, k: int)
    requires
        0 <= pos <= data.len(),
        0 <= k <= data.len() - pos,
    ensures
        sum_range(data.skip(pos), 0, k) == sum_range(data, pos, pos + k),
    decreases k,
{
    if k > 0 {
        lemma_sum_range_shift(data, pos, k - 1);
        assert(data.skip(pos)[k - 1] == data[pos + k - 1]);
    }
}

/// Averages interleaved multi-channel frames down to one mono sample per
/// frame.
pub fn downmix_to_mono(data: &Vec<i16>, channels: usize) -> (out: Vec<i16>)
    requires
        1 <= channels <= 0x10000,
    ensures
        out@ == downmix_spec(data@, channels as int),
{
    let n = data.len();
    let ch = channels;
    let mut out: Vec<i16> = Vec::new();
    let mut pos: usize = 0;
    proof {
        assert(data@.skip(0) =~= data@);
        assert(out@ + downmix_spec(data@, ch as int) =~= downmix_spec(data@, ch as int));
    }
    while pos < n
        invariant
            n == data@.len(),
            1 <= ch <= 0x10000,
            pos <= n,
            downmix_spec(data@, ch as int) == out@ + downmix_spec(
                data@.skip(pos as int),
                ch as int,
            ),
        decreases n - pos,
    {
        let end = if n - pos < ch {
            n
        } else {
            pos + ch
        };
        let mut sum: i64 = 0;
        let mut j = pos;
        while j < end
            invariant
                pos <= j <= end <= n,
                end - pos <= ch <= 0x10000,
                n == data@.len(),
                sum == sum_range(data@, pos as int, j as int),
                (j - pos) * (-0x8000) <= sum <= (j - pos) * 0x7fff,
            decreases end - j,
        {
            sum = sum + data[j] as i64;
            j = j + 1;
        }
        let avg: i64 = if sum >= 0 {
            proof {
                lemma_div_nonincreasing(sum as int, ch as int);
            }
            ((sum as u64) / (ch as u64)) as i64
        } else {
            proof {
                lemma_div_nonincreasing(-sum as int, ch as int);
            }
            let m = ((-sum) as u64) / (ch as u64);
            -(m as i64)
        };
        proof {
            let rem = data@.skip(pos as int);
            let take: int = end - pos;
            lemma_sum_range_shift(data@, pos as int, take);
            assert(rem.skip(take) =~= data@.skip(end as int));
            assert(downmix_spec(rem, ch as int) == seq![
                trunc_div(sum_range(data@, pos as int, end as int), ch as int) as i16,
            ] + downmix_spec(data@.skip(end as int), ch as int));
            assert(avg == trunc_div(sum_range(data@, pos as int, end as int), ch as int));
        }
        let ghost out_before = out@;
        out.push(avg as i16);
        proof {
            assert(out@ + downmix_spec(data@.skip(end as int), ch as int) =~= out_before
                + downmix_spec(data@.skip(pos as int), ch as int));
        }
        pos = end;
    }
    proof {
        assert(data@.skip(n as int) =~= Seq::<i16>::empty());
        assert(out@ + downmix_spec(data@.skip(n as int), ch as int) =~= out@);
    }
    out
}

} // verus!
