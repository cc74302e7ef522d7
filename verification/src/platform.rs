//! Text handed to the operating system.

use vstd::prelude::*;

verus! {

/// UTF-16 code units of a character: one below U+10000, else a surrogate
/// pair.
pub open spec fn utf16_units(c: char) -> Seq<u16> {
    let v = c as int;
    if v < 0x10000 {
        seq![v as u16]
    } else {
        let u = v - 0x10000;
        seq![(0xd800 + u / 0x400) as u16, (0xdc00 + u % 0x400) as u16]
    }
}

/// UTF-16 encoding of a text.
pub open spec fn utf16_of(s: Seq<char>) -> Seq<u16>
    decreases s.len(),
{
    if s.len() == 0 {
        Seq::empty()
    } else {
        utf16_of(s.drop_last()) + utf16_units(s.last())
    }
}

/// A URL as the wide-character shell expects it: UTF-16 followed by a NUL.
pub fn windows_url_argument(url: &str) -> (r: Vec<u16>)
    ensures
        r@ == utf16_of(url@).push(0),
{
    let n = url.unicode_len();
    let mut r: Vec<u16> = Vec::new();
    let mut i: usize = 0;
    while i < n
        invariant
            n == url@.len(),
            i <= n,
            r@ == utf16_of(url@.take(i as int)),
        decreases n - i,
    {
        let c = url.get_char(i);
        let v = c as u32;
        assert(url@.take(i + 1).drop_last() =~= url@.take(i as int));
        assert(url@.take(i + 1).last() == c);
        if v < 0x10000 {
            r.push(v as u16);
        } else {
            let u = v - 0x10000;
            r.push((0xd800 + u / 0x400) as u16);
            r.push((0xdc00 + u % 0x400) as u16);
        }
        proof {
            assert(r@ =~= utf16_of(url@.take(i as int)) + utf16_units(c));
        }
        i = i + 1;
    }
    assert(url@.take(n as int) =~= url@);
    r.push(0);
    r
}

} // verus!
