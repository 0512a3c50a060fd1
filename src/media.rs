use vstd::prelude::*;

verus! {

/// Mono PCM samples and their sample rate.
#[derive(Debug, Clone, PartialEq)]
pub struct PcmFrames {
    /// Interleaved mono samples.
    pub data: Vec<i16>,
    pub sample_rate: u32,
}

/// Number of samples in 20 ms at `sample_rate`, and at least one.
pub open spec fn samples_per_20ms(sample_rate: u32) -> nat {
    if sample_rate / 50 == 0 {
        1
    } else {
        (sample_rate / 50) as nat
    }
}

/// `s` cut into consecutive pieces of `n` samples; the last piece holds what
/// is left and may be shorter.
pub open spec fn chunks(s: Seq<i16>, n: nat) -> Seq<Seq<i16>>
    decreases s.len(),
{
    if s.len() == 0 || n == 0 {
        seq![]
    } else if s.len() <= n {
        seq![s]
    } else {
        seq![s.take(n as int)] + chunks(s.skip(n as int), n)
    }
}

/// The views of a sequence of sample vectors.
pub open spec fn frame_views(v: Seq<Vec<i16>>) -> Seq<Seq<i16>> {
    v.map_values(|f: Vec<i16>| f@)
}

/// Copies `pcm[from..to]`.
fn copy_range(pcm: &[i16], from: usize, to: usize) -> (r: Vec<i16>)
    requires
        from <= to <= pcm@.len(),
    ensures
        r@ == pcm@.subrange(from as int, to as int),
{
    let mut r: Vec<i16> = Vec::new();
    let mut i: usize = from;
    while i < to
        invariant
            from <= i <= to,
            to <= pcm@.len(),
            r@ == pcm@.subrange(from as int, i as int),
        decreases to - i,
    {
        r.push(pcm[i]);
        proof {
            assert(r@ =~= pcm@.subrange(from as int, i + 1));
        }
        i = i + 1;
    }
    r
}

/// Cuts PCM samples into frames of 20 ms at `sample_rate` (at least one
/// sample each); the last frame holds what is left and may be shorter.
pub fn split_into_20ms_frames(pcm: &[i16], sample_rate: u32) -> (r: Vec<Vec<i16>>)
    ensures
        frame_views(r@) == chunks(pcm@, samples_per_20ms(sample_rate)),
{
    let per = sample_rate / 50;
    let n: usize = if per == 0 {
        1
    } else {
        per as usize
    };
    let len = pcm.len();
    let mut r: Vec<Vec<i16>> = Vec::new();
    let mut start: usize = 0;
    proof {
        assert(pcm@.skip(0) =~= pcm@);
        assert(frame_views(r@) + chunks(pcm@, n as nat) =~= chunks(pcm@, n as nat));
    }
    while start < len
        invariant
            len == pcm@.len(),
            n == samples_per_20ms(sample_rate),
            start <= len,
            frame_views(r@) + chunks(pcm@.skip(start as int), n as nat) == chunks(pcm@, n as nat),
        decreases len - start,
    {
        let ghost rest = pcm@.skip(start as int);
        let end: usize = if len - start <= n {
            len
        } else {
            start + n
        };
        let f = copy_range(pcm, start, end);
        let ghost old_r = r@;
        r.push(f);
        proof {
            assert(frame_views(r@) =~= frame_views(old_r).push(f@));
            if len - start <= n {
                assert(f@ =~= rest);
                assert(pcm@.skip(end as int) =~= Seq::<i16>::empty());
                assert(chunks(rest, n as nat) == seq![rest]);
                assert(frame_views(r@) + chunks(pcm@.skip(end as int), n as nat) =~= frame_views(
                    old_r,
                ) + chunks(rest, n as nat));
            } else {
                assert(f@ =~= rest.take(n as int));
                assert(pcm@.skip(end as int) =~= rest.skip(n as int));
                assert(frame_views(r@) + chunks(pcm@.skip(end as int), n as nat) =~= frame_views(
                    old_r,
                ) + chunks(rest, n as nat));
            }
        }
        start = end;
    }
    proof {
        assert(pcm@.skip(start as int) =~= Seq::<i16>::empty());
        assert(frame_views(r@) + Seq::<Seq<i16>>::empty() =~= frame_views(r@));
    }
    r
}

/// Sum of the samples of a frame.
pub open spec fn sample_sum(s: Seq<i16>) -> int
    decreases s.len(),
{
    if s.len() == 0 {
        0
    } else {
        sample_sum(s.drop_last()) + s.last() as int
    }
}

/// Integer quotient rounded toward zero.
pub open spec fn div_toward_zero(a: int, b: int) -> int {
    if a >= 0 {
        a / b
    } else {
        -((-a) / b)
    }
}

/// Mean of an interleaved frame, rounded toward zero.
pub open spec fn frame_mean(f: Seq<i16>) -> i16 {
    div_toward_zero(sample_sum(f), f.len() as int) as i16
}

/// Interleaved samples of `ch` channels mixed down to one: each complete
/// frame of `ch` samples becomes its mean; an incomplete frame at the end is
/// dropped.
pub open spec fn mixed_down(s: Seq<i16>, ch: nat) -> Seq<i16>
    decreases s.len(),
{
    if ch == 0 || s.len() < ch {
        seq![]
    } else {
        seq![frame_mean(s.take(ch as int))] + mixed_down(s.skip(ch as int), ch)
    }
}

/// The mean of the frame `pcm[from..from + ch]`.
fn mean_at(pcm: &[i16], from: usize, ch: usize) -> (r: i16)
    requires
        ch > 0,
        from + ch <= pcm@.len(),
    ensures
        r == frame_mean(pcm@.subrange(from as int, from + ch)),
{
    let len = pcm.len();
    let mut sum: i128 = 0;
    let mut k: usize = 0;
    while k < ch
        invariant
            len == pcm@.len(),
            from + ch <= pcm@.len(),
            k <= ch,
            sum == sample_sum(pcm@.subrange(from as int, from + k)),
            -32768 * (k as int) <= sum <= 32767 * (k as int),
        decreases ch - k,
    {
        proof {
            let f = pcm@.subrange(from as int, from + k + 1);
            assert(f.drop_last() =~= pcm@.subrange(from as int, from + k));
        }
        sum = sum + pcm[from + k] as i128;
        k = k + 1;
    }
    let q: i128 = if sum >= 0 {
        (sum as u128 / ch as u128) as i128
    } else {
        -(((-sum) as u128 / ch as u128) as i128)
    };
    #[verifier::truncate]
    (q as i16)
}

/// Mixes interleaved samples of `channels` channels down to mono (see
/// `mixed_down`); with one channel or none the samples are kept as they are.
pub fn downmix_to_mono(samples: &[i16], channels: usize) -> (r: Vec<i16>)
    ensures
        channels <= 1 ==> r@ == samples@,
        channels > 1 ==> r@ == mixed_down(samples@, channels as nat),
{
    let n = samples.len();
    if channels <= 1 {
        return copy_range(samples, 0, n);
    }
    let mut r: Vec<i16> = Vec::new();
    let mut start: usize = 0;
    proof {
        assert(samples@.skip(0) =~= samples@);
        assert(r@ + mixed_down(samples@, channels as nat) =~= mixed_down(samples@, channels as nat));
    }
    while start < n && n - start >= channels
        invariant
            n == samples@.len(),
            channels > 1,
            start <= n,
            r@ + mixed_down(samples@.skip(start as int), channels as nat) == mixed_down(samples@, channels as nat),
        decreases n - start,
    {
        let ghost rest = samples@.skip(start as int);
        let m = mean_at(samples, start, channels);
        let ghost old_r = r@;
        r.push(m);
        proof {
            assert(rest.take(channels as int) =~= samples@.subrange(start as int, start + channels));
            assert(samples@.skip(start + channels) =~= rest.skip(channels as int));
            assert(r@ + mixed_down(samples@.skip(start + channels), channels as nat) =~= old_r + (seq![m]
                + mixed_down(rest.skip(channels as int), channels as nat)));
        }
        start = start + channels;
    }
    proof {
        assert(mixed_down(samples@.skip(start as int), channels as nat) == Seq::<i16>::empty());
        assert(r@ + Seq::<i16>::empty() =~= r@);
    }
    r
}

} // verus!
