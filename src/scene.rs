use vstd::prelude::*;
use crate::csg::{is_nearest, nearest};

verus! {

/// Whether a ray at depth `bounce` is still traced: only while the bounce
/// budget lasts, which bounds the sampler's recursion.
pub fn keeps_sampling(bounce: u32, bounce_limit: u32) -> (r: bool)
    ensures
        r == (bounce < bounce_limit),
{
    bounce < bounce_limit
}

/// Chooses the body that a ray of the recursive sampler goes on with, given
/// each body's collision along the ray as an order key (`None`: missed). Once
/// the bounce budget is spent nothing is chosen and the sample is black,
/// whatever the ray and the scene; otherwise the nearest body is chosen, and
/// nothing when the ray misses them all.
pub fn sample_target(bounce: u32, bounce_limit: u32, hits: &Vec<Option<i64>>) -> (r: Option<usize>)
    ensures
        bounce >= bounce_limit ==> r is None,
        bounce < bounce_limit ==> (r is None <==> forall|j: int|
            0 <= j < hits@.len() ==> hits@[j] is None),
        r matches Some(i) ==> is_nearest(hits@, i as int),
{
    if !keeps_sampling(bounce, bounce_limit) {
        return None;
    }
    nearest(hits)
}

/// The ASCII digits of `n` in base ten, without leading zeros.
pub open spec fn decimal(n: nat) -> Seq<u8>
    decreases n,
{
    if n < 10 {
        seq![(48 + n) as u8]
    } else {
        decimal(n / 10).push((48 + n % 10) as u8)
    }
}

/// The header of a binary PPM image: `P6 <width> <height> 255 `.
pub open spec fn ppm_header(width: nat, height: nat) -> Seq<u8> {
    seq![80u8, 54u8, 32u8] + decimal(width) + seq![32u8] + decimal(height) + seq![
        32u8,
        50u8,
        53u8,
        53u8,
        32u8,
    ]
}

fn push_decimal(out: &mut Vec<u8>, n: u32)
    ensures
        final(out)@ == old(out)@ + decimal(n as nat),
    decreases n,
{
    if n >= 10 {
        push_decimal(out, n / 10);
    }
    let digit: u8 = (n % 10) as u8;
    out.push(48 + digit);
    proof {
        if n < 10 {
            assert(decimal(n as nat) == seq![(48 + n) as u8]);
        } else {
            assert(decimal(n as nat) == decimal((n / 10) as nat).push((48 + n % 10) as u8));
        }
    }
    assert(out@ =~= old(out)@ + decimal(n as nat));
}

/// Frames a picture as a binary PPM image: the header, then the pixels as
/// they are given, three bytes (red, green, blue) each, row by row from the
/// top, each row from the left.
pub fn encode_ppm(width: u32, height: u32, pixels: &Vec<u8>) -> (r: Vec<u8>)
    ensures
        r@ == ppm_header(width as nat, height as nat) + pixels@,
{
    let mut out: Vec<u8> = Vec::new();
    out.push(80);
    out.push(54);
    out.push(32);
    push_decimal(&mut out, width);
    out.push(32);
    push_decimal(&mut out, height);
    out.push(32);
    out.push(50);
    out.push(53);
    out.push(53);
    out.push(32);
    assert(out@ =~= ppm_header(width as nat, height as nat));
    let ghost head = out@;
    let mut k: usize = 0;
    while k < pixels.len()
        invariant
            0 <= k <= pixels@.len(),
            out@ == head + pixels@.subrange(0, k as int),
        decreases pixels@.len() - k,
    {
        out.push(pixels[k]);
        assert(pixels@.subrange(0, k + 1) =~= pixels@.subrange(0, k as int).push(pixels@[k as int]));
        k = k + 1;
    }
    assert(pixels@.subrange(0, pixels@.len() as int) =~= pixels@);
    out
}

} // verus!
