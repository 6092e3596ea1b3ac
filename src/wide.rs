use vstd::prelude::*;

verus! {

/// The UTF-16 code units of one character: the value itself below 0x10000,
/// otherwise a high and a low surrogate.
pub open spec fn utf16_units(c: char) -> Seq<u16> {
    let v = c as u32 as int;
    if v < 0x10000 {
        seq![v as u16]
    } else {
        let w = v - 0x10000;
        seq![(0xD800 + w / 0x400) as u16, (0xDC00 + w % 0x400) as u16]
    }
}

/// The UTF-16 encoding of a character sequence.
pub open spec fn utf16_of(s: Seq<char>) -> Seq<u16>
    decreases s.len(),
{
    if s.len() == 0 {
        seq![]
    } else {
        utf16_of(s.drop_last()) + utf16_units(s.last())
    }
}

/// `value` as the null-terminated UTF-16 string that wide-character OS
/// calls take.
pub fn win32_string(value: &str) -> (r: Vec<u16>)
    ensures
        r@ == utf16_of(value@).push(0),
{
    broadcast use vstd::string::group_string_axioms;

    let mut r: Vec<u16> = Vec::new();
    for c in it: value.chars()
        invariant
            it.seq() == value@,
            r@ == utf16_of(value@.take(it.index() as int)),
    {
        let ghost i = it.index() as int;
        proof {
            vstd::utf8::char_is_scalar(c);
            assert(value@.take(i + 1).drop_last() =~= value@.take(i));
        }
        let v = c as u32;
        if v < 0x10000 {
            r.push(v as u16);
        } else {
            let w = v - 0x10000;
            r.push((0xD800 + w / 0x400) as u16);
            r.push((0xDC00 + w % 0x400) as u16);
        }
    }
    assert(value@.take(value@.len() as int) =~= value@);
    r.push(0);
    r
}

} // verus!
