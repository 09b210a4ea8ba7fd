//! Decimal digits of a counter, zero-padded to a fixed width.
use vstd::prelude::*;

verus! {

/// The ASCII decimal digits of `n`, padded on the left with `'0'` to at least
/// `width` digits; zero with no width is the empty sequence.
pub open spec fn padded(n: nat, width: nat) -> Seq<u8>
    decreases n + width,
{
    if n == 0 && width == 0 {
        seq![]
    } else {
        padded(n / 10, if width > 0 { (width - 1) as nat } else { 0 }).push((48 + n % 10) as u8)
    }
}

/// The decimal digits of `n` in ASCII, zero-padded on the left to `width`.
pub fn padded_digits(n: u64, width: usize) -> (r: Vec<u8>)
    ensures
        r@ == padded(n as nat, width as nat),
{
    let mut out: Vec<u8> = Vec::new();
    let mut m: u64 = n;
    let mut w: usize = width;
    while m > 0 || w > 0
        invariant
            padded(n as nat, width as nat) == padded(m as nat, w as nat) + out@,
        decreases m + w,
    {
        let d: u8 = (m % 10) as u8;
        let ghost before = out@;
        out.insert(0, 48 + d);
        assert(padded(m as nat, w as nat) == padded((m / 10) as nat, (if w > 0 { (w - 1) as nat } else { 0 })).push((48 + m % 10) as u8));
        assert(padded((m / 10) as nat, (if w > 0 { (w - 1) as nat } else { 0 })).push((48 + d) as u8) + before
            =~= padded((m / 10) as nat, (if w > 0 { (w - 1) as nat } else { 0 })) + out@);
        m = m / 10;
        if w > 0 {
            w = w - 1;
        }
    }
    assert(padded(0, 0) + out@ =~= out@);
    out
}

} // verus!
