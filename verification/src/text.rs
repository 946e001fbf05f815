//! Building of the messages that the host prints and reports.

use vstd::prelude::*;
use vstd::string::*;

verus! {

/// The decimal digit `d`.
pub open spec fn digit(d: nat) -> char
    recommends
        d < 10,
{
    ('0' as int + d) as char
}

/// The decimal notation of a natural number, without leading zeros.
pub open spec fn digits(n: nat) -> Seq<char>
    decreases n,
{
    if n < 10 {
        seq![digit(n)]
    } else {
        digits(n / 10).push(digit(n % 10))
    }
}

/// The decimal notation of an integer.
pub open spec fn decimal(n: int) -> Seq<char> {
    if n < 0 {
        seq!['-'] + digits((-n) as nat)
    } else {
        digits(n as nat)
    }
}

/// `s` with as many spaces in front as it takes to make it `width` characters long.
pub open spec fn right_aligned(s: Seq<char>, width: nat) -> Seq<char> {
    if s.len() < width {
        Seq::new((width - s.len()) as nat, |i: int| ' ') + s
    } else {
        s
    }
}

/// A text where the condition holds, and nothing where it does not.
pub open spec fn shown_if(condition: bool, s: Seq<char>) -> Seq<char> {
    if condition {
        s
    } else {
        Seq::empty()
    }
}

/// `String::push` appends one character.
pub assume_specification[ String::push ](s: &mut String, c: char)
    ensures
        final(s)@ == old(s)@.push(c),
;

/// The characters of a string.
pub fn chars_of(s: &str) -> (chars: Vec<char>)
    ensures
        chars@ == s@,
{
    let mut chars: Vec<char> = Vec::new();
    for c in it: s.chars()
        invariant
            it.seq() == s@,
            chars@ == s@.take(it.index() as int),
    {
        chars.push(c);
        assert(chars@ =~= s@.take(it.index() + 1));
    }
    assert(chars@ =~= s@);
    chars
}

/// Two strings are the same.
pub fn same_text(a: &str, b: &str) -> (same: bool)
    ensures
        same == (a@ == b@),
{
    String::from_str(a) == String::from_str(b)
}

/// Appends a text where the condition holds.
pub fn push_if(out: &mut String, condition: bool, s: &str)
    ensures
        final(out)@ == old(out)@ + shown_if(condition, s@),
{
    if condition {
        out.append(s);
    } else {
        assert(out@ =~= old(out)@ + shown_if(condition, s@));
    }
}

/// Appends the decimal notation of `n`.
pub fn push_digits(out: &mut String, n: u64)
    ensures
        final(out)@ == old(out)@ + digits(n as nat),
    decreases n,
{
    let d: u8 = (n % 10) as u8;
    let c: char = (48 + d) as char;
    if n < 10 {
        out.push(c);
        assert(out@ =~= old(out)@ + digits(n as nat));
    } else {
        push_digits(out, n / 10);
        out.push(c);
        assert(out@ =~= old(out)@ + digits(n as nat));
    }
}

/// Appends the decimal notation of `n`, with a minus sign where it is negative.
pub fn push_decimal(out: &mut String, n: i64)
    ensures
        final(out)@ == old(out)@ + decimal(n as int),
{
    if n < 0 {
        out.push('-');
        let magnitude: u64 = if n == i64::MIN {
            0x8000_0000_0000_0000
        } else {
            (-n) as u64
        };
        push_digits(out, magnitude);
        assert(out@ =~= old(out)@ + decimal(n as int));
    } else {
        push_digits(out, n as u64);
    }
}

/// Appends the decimal notation of `n`, right-aligned in a column of `width` characters.
pub fn push_right_aligned(out: &mut String, n: u64, width: usize)
    ensures
        final(out)@ == old(out)@ + right_aligned(digits(n as nat), width as nat),
{
    let mut number: String = String::new();
    push_digits(&mut number, n);
    assert(number@ =~= digits(n as nat));
    let len: usize = number.as_str().unicode_len();
    let mut filled: usize = len;
    while filled < width
        invariant
            len == number@.len(),
            number@ == digits(n as nat),
            len <= filled,
            filled <= width || filled == len,
            out@ == old(out)@ + Seq::new((filled - len) as nat, |i: int| ' '),
        decreases width - filled,
    {
        out.push(' ');
        filled = filled + 1;
        assert(out@ =~= old(out)@ + Seq::new((filled - len) as nat, |i: int| ' '));
    }
    out.append(number.as_str());
    assert(out@ =~= old(out)@ + right_aligned(digits(n as nat), width as nat));
}

/// Texts one behind the other: with one more it is that one which comes last.
pub proof fn lemma_joined(texts: spec_fn(int) -> Seq<char>, n: nat)
    ensures
        Seq::new(n + 1, texts).flatten() == Seq::new(n, texts).flatten() + texts(n as int),
        Seq::new(0, texts).flatten() == Seq::<char>::empty(),
{
    Seq::new(n, texts).lemma_flatten_push(texts(n as int));
    assert(Seq::new(n + 1, texts) =~= Seq::new(n, texts).push(texts(n as int)));
}

/// The decimal notation of a number is made of digits, does not begin with a zero but for the
/// number zero itself, and is read back as that number.
pub proof fn lemma_digits(n: nat)
    ensures
        digits(n).len() > 0,
        forall|i: int| 0 <= i < digits(n).len() ==> '0' <= #[trigger] digits(n)[i] <= '9',
        digits(n)[0] == '0' ==> n == 0 && digits(n).len() == 1,
        digits(n).fold_left(0int, |value: int, c: char| 10 * value + (c as int - 48)) == n,
    decreases n,
{
    let read = |value: int, c: char| 10 * value + (c as int - 48);
    reveal_with_fuel(Seq::fold_left, 2);
    if n >= 10 {
        lemma_digits(n / 10);
        assert(digits(n).drop_last() =~= digits(n / 10));
    } else {
        assert(digits(n).drop_last() =~= Seq::<char>::empty());
    }
}

/// The decimal notation of an integer is that of its magnitude, behind a minus sign where it is
/// negative and with nothing in front where it is not.
pub proof fn lemma_decimal(n: int)
    ensures
        n >= 0 ==> decimal(n) == digits(n as nat),
        n < 0 ==> decimal(n) == seq!['-'] + decimal(-n),
{
}

/// A number in a column is as long as the column is wide, or longer where it does not fit, ends
/// with its digits, and has only spaces in front of them.
pub proof fn lemma_right_aligned(s: Seq<char>, width: nat)
    ensures
        s.len() <= width ==> right_aligned(s, width).len() == width,
        s.len() >= width ==> right_aligned(s, width) == s,
        right_aligned(s, width).skip(right_aligned(s, width).len() - s.len()) == s,
        forall|i: int|
            0 <= i < right_aligned(s, width).len() - s.len() ==> #[trigger] right_aligned(
                s,
                width,
            )[i] == ' ',
{
    assert(right_aligned(s, width).skip(right_aligned(s, width).len() - s.len()) =~= s);
}

} // verus!
