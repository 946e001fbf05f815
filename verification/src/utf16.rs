//! UTF-16, the encoding of the strings that plugins exchange with the host.

use vstd::prelude::*;
use vstd::string::*;

verus! {

/// The character that stands for a code unit that encodes nothing.
pub const REPLACEMENT: char = '\u{FFFD}';

/// The first half of a surrogate pair.
pub open spec fn is_high_surrogate(u: u16) -> bool {
    0xD800 <= u < 0xDC00
}

/// The second half of a surrogate pair.
pub open spec fn is_low_surrogate(u: u16) -> bool {
    0xDC00 <= u < 0xE000
}

/// The character that a surrogate pair encodes.
pub open spec fn paired(high: u16, low: u16) -> char {
    (0x10000 + (high - 0xD800) * 0x400 + (low - 0xDC00)) as u32 as char
}

/// The one or two code units of a character.
pub open spec fn units_of(c: char) -> Seq<u16> {
    if c as int <= 0xFFFF {
        seq![c as u16]
    } else {
        seq![
            (0xD800 + (c as int - 0x10000) / 0x400) as u16,
            (0xDC00 + (c as int - 0x10000) % 0x400) as u16,
        ]
    }
}

/// The code units of a string.
pub open spec fn encoded(s: Seq<char>) -> Seq<u16>
    decreases s.len(),
{
    if s.len() == 0 {
        Seq::empty()
    } else {
        units_of(s[0]) + encoded(s.skip(1))
    }
}

/// The string that a sequence of code units encodes. Each surrogate that is not part of a pair
/// gives one replacement character.
pub open spec fn decoded(units: Seq<u16>) -> Seq<char>
    decreases units.len(),
{
    if units.len() == 0 {
        Seq::empty()
    } else if units.len() >= 2 && is_high_surrogate(units[0]) && is_low_surrogate(units[1]) {
        seq![paired(units[0], units[1])] + decoded(units.skip(2))
    } else if is_high_surrogate(units[0]) || is_low_surrogate(units[0]) {
        seq![REPLACEMENT] + decoded(units.skip(1))
    } else {
        seq![units[0] as u32 as char] + decoded(units.skip(1))
    }
}

/// `char::from_u32` gives the character with a code point, and `None` for surrogates and for
/// what lies above the last code point.
pub assume_specification[ char::from_u32 ](i: u32) -> (c: Option<char>)
    ensures
        c == (if i < 0xD800 || 0xE000 <= i <= 0x10FFFF {
            Some(i as char)
        } else {
            None
        }),
;

fn push_units(units: &mut Vec<u16>, c: char)
    ensures
        final(units)@ == old(units)@ + units_of(c),
{
    let v: u32 = c as u32;
    if v <= 0xFFFF {
        units.push(v as u16);
    } else {
        let offset: u32 = v - 0x10000;
        units.push((0xD800 + offset / 0x400) as u16);
        units.push((0xDC00 + offset % 0x400) as u16);
    }
    assert(units@ =~= old(units)@ + units_of(c));
}

/// Encodes a string.
pub fn encode(s: &str) -> (units: Vec<u16>)
    ensures
        units@ == encoded(s@),
{
    let mut units: Vec<u16> = Vec::new();
    assert(s@.skip(0) =~= s@);
    for c in it: s.chars()
        invariant
            it.seq() == s@,
            encoded(s@) == units@ + encoded(s@.skip(it.index() as int)),
    {
        push_units(&mut units, c);
        proof {
            let i = it.index() as int;
            assert(s@.skip(i)[0] == c);
            assert(s@.skip(i).skip(1) =~= s@.skip(i + 1));
            assert(encoded(s@) =~= units@ + encoded(s@.skip(i + 1)));
        }
    }
    assert(units@ =~= encoded(s@));
    units
}

/// Decodes the first `end` code units of a buffer.
pub fn decode(units: &[u16], end: usize) -> (s: String)
    requires
        end <= units@.len(),
    ensures
        s@ == decoded(units@.take(end as int)),
{
    let mut s: String = String::new();
    let mut i: usize = 0;
    let ghost all = units@.take(end as int);
    assert(all.skip(0) =~= all);
    while i < end
        invariant
            i <= end <= units@.len(),
            all == units@.take(end as int),
            decoded(all) == s@ + decoded(all.skip(i as int)),
        decreases end - i,
    {
        let first: u16 = units[i];
        let high: bool = 0xD800 <= first && first < 0xDC00;
        let low: bool = 0xDC00 <= first && first < 0xE000;
        let ghost before = s@;
        let ghost rest = all.skip(i as int);
        assert(rest[0] == first);
        if high && i + 1 < end && 0xDC00 <= units[i + 1] && units[i + 1] < 0xE000 {
            let second: u16 = units[i + 1];
            let v: u32 = 0x10000 + (first as u32 - 0xD800) * 0x400 + (second as u32 - 0xDC00);
            assert(rest[1] == second);
            match char::from_u32(v) {
                Some(c) => {
                    s.push(c);
                    assert(c == paired(first, second));
                },
                None => {},
            }
            assert(rest.skip(2) =~= all.skip(i + 2));
            assert(decoded(all) =~= s@ + decoded(all.skip(i + 2)));
            i = i + 2;
        } else {
            if high || low {
                s.push(REPLACEMENT);
            } else {
                match char::from_u32(first as u32) {
                    Some(c) => {
                        s.push(c);
                        assert(c == first as u32 as char);
                    },
                    None => {},
                }
            }
            assert(rest.skip(1) =~= all.skip(i + 1));
            assert(decoded(all) =~= s@ + decoded(all.skip(i + 1)));
            i = i + 1;
        }
    }
    assert(s@ =~= decoded(all));
    s
}

/// The code units of one character decode to that character and are not zero unless it is.
proof fn lemma_units_of(c: char)
    ensures
        c as int <= 0xFFFF ==> units_of(c).len() == 1 && !is_high_surrogate(units_of(c)[0])
            && !is_low_surrogate(units_of(c)[0]) && units_of(c)[0] as u32 as char == c,
        c as int > 0xFFFF ==> units_of(c).len() == 2 && is_high_surrogate(units_of(c)[0])
            && is_low_surrogate(units_of(c)[1]) && paired(units_of(c)[0], units_of(c)[1]) == c,
        c != '\0' ==> forall|i: int| 0 <= i < units_of(c).len() ==> units_of(c)[i] != 0,
{
    let v = c as u32;
    assert(v < 0xD800 || 0xE000 <= v <= 0x10FFFF);
    assert(v as char == c);
}

/// Decoding gives back what was encoded, whatever the string.
pub proof fn lemma_decoded_encoded(s: Seq<char>)
    ensures
        decoded(encoded(s)) == s,
    decreases s.len(),
{
    if s.len() > 0 {
        lemma_decoded_encoded(s.skip(1));
        lemma_units_of(s[0]);
        let units = encoded(s);
        if s[0] as int <= 0xFFFF {
            assert(units.skip(1) =~= encoded(s.skip(1)));
        } else {
            assert(units.skip(2) =~= encoded(s.skip(1)));
        }
        assert(decoded(units) =~= s);
    }
}

/// A string without the null character encodes to code units none of which is zero.
pub proof fn lemma_encoded_non_zero(s: Seq<char>)
    requires
        !s.contains('\0'),
    ensures
        forall|i: int| 0 <= i < encoded(s).len() ==> encoded(s)[i] != 0,
    decreases s.len(),
{
    if s.len() > 0 {
        assert(s.contains(s[0]));
        assert forall|c: char| s.skip(1).contains(c) implies s.contains(c) by {
            let i = choose|i: int| 0 <= i < s.skip(1).len() && s.skip(1)[i] == c;
            assert(s[i + 1] == c);
        }
        lemma_encoded_non_zero(s.skip(1));
        lemma_units_of(s[0]);
        let first = units_of(s[0]);
        let rest = encoded(s.skip(1));
        assert forall|i: int| 0 <= i < encoded(s).len() implies encoded(s)[i] != 0 by {
            if i < first.len() {
                assert(encoded(s)[i] == first[i]);
            } else {
                assert(encoded(s)[i] == rest[i - first.len()]);
            }
        }
    }
}

/// A character within the first 65536 code points is its own code unit. Any other is two: ten bits
/// of what its code point exceeds that range by in each, the upper ones first.
pub proof fn lemma_units(c: char)
    ensures
        c as int <= 0xFFFF ==> units_of(c).len() == 1 && units_of(c)[0] == c as int,
        c as int > 0xFFFF ==> {
            &&& units_of(c).len() == 2
            &&& 0xD800 <= units_of(c)[0] < 0xDC00
            &&& 0xDC00 <= units_of(c)[1] < 0xE000
            &&& c as int == 0x10000 + (units_of(c)[0] - 0xD800) * 0x400 + (units_of(c)[1] - 0xDC00)
        },
{
    let v = c as u32;
    assert(v <= 0x10FFFF);
}

/// The code units of a string are those of its characters, one after the other.
pub proof fn lemma_encoded_flat(s: Seq<char>)
    ensures
        encoded(s) == s.map_values(|c: char| units_of(c)).flatten(),
    decreases s.len(),
{
    let f = |c: char| units_of(c);
    if s.len() > 0 {
        lemma_encoded_flat(s.skip(1));
        assert(s.map_values(f).drop_first() =~= s.skip(1).map_values(f));
    } else {
        assert(s.map_values(f) =~= Seq::<Seq<u16>>::empty());
    }
}

/// How code units are read from the first one on: a pair gives one character, a half of a pair on
/// its own gives the replacement character, and any other unit is the character with that number.
pub proof fn lemma_decoded_first(units: Seq<u16>)
    requires
        units.len() > 0,
    ensures
        ({
            let first = units[0];
            let high = 0xD800 <= first < 0xDC00;
            let low = 0xDC00 <= first < 0xE000;
            if high && units.len() > 1 && 0xDC00 <= units[1] < 0xE000 {
                &&& decoded(units)[0] as int == 0x10000 + (first - 0xD800) * 0x400 + (units[1]
                    - 0xDC00)
                &&& decoded(units).skip(1) == decoded(units.skip(2))
            } else if high || low {
                &&& decoded(units)[0] as int == 0xFFFD
                &&& decoded(units).skip(1) == decoded(units.skip(1))
            } else {
                &&& decoded(units)[0] as int == first
                &&& decoded(units).skip(1) == decoded(units.skip(1))
            }
        }),
        decoded(Seq::<u16>::empty()) == Seq::<char>::empty(),
{
    let first = units[0];
    if 0xD800 <= first < 0xDC00 && units.len() > 1 && 0xDC00 <= units[1] < 0xE000 {
        let v = (0x10000 + (first - 0xD800) * 0x400 + (units[1] - 0xDC00)) as u32;
        assert(0x10000 <= v <= 0x10FFFF);
        assert(decoded(units).skip(1) =~= decoded(units.skip(2)));
    } else {
        assert(decoded(units).skip(1) =~= decoded(units.skip(1)));
    }
}

} // verus!
