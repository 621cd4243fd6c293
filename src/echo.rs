use vstd::prelude::*;

verus! {

/// An ASCII lower-case letter turned upper case; every other byte unchanged.
pub open spec fn upper_byte(c: u8) -> u8 {
    if 0x61 <= c && c <= 0x7a {
        (c - 0x20) as u8
    } else {
        c
    }
}

/// Turns the ASCII lower-case letters of `buf` upper case, in place.
pub fn to_upper_ascii(buf: &mut Vec<u8>)
    ensures
        final(buf)@.len() == old(buf)@.len(),
        forall|i: int| 0 <= i < old(buf)@.len() ==> #[trigger] final(buf)@[i] == upper_byte(old(buf)@[i]),
{
    let n: usize = buf.len();
    let mut i: usize = 0;
    while i < n
        invariant
            n == old(buf)@.len(),
            buf@.len() == n,
            i <= n,
            forall|j: int| 0 <= j < i ==> #[trigger] buf@[j] == upper_byte(old(buf)@[j]),
            forall|j: int| i <= j < n ==> #[trigger] buf@[j] == old(buf)@[j],
        decreases n - i,
    {
        let c: u8 = buf[i];
        if 0x61 <= c && c <= 0x7a {
            assert((c & !0x20u8) == c - 0x20) by (bit_vector)
                requires
                    0x61 <= c && c <= 0x7a,
            ;
            buf.set(i, c & !0x20u8);
        }
        i = i + 1;
    }
}

} // verus!
