//! Text that the viewer shows or hands to the media pipeline: decimal
//! numbers, clock times, and the character-wise rewriting of a string.

use vstd::prelude::*;

verus! {

/// `String::push` appends the given character to the end of the string and
/// changes nothing before it.
pub assume_specification[ String::push ](s: &mut String, c: char)
    ensures
        final(s)@ == old(s)@.push(c),
;

/// The character that writes the digit `d` (0 to 9).
pub open spec fn digit(d: nat) -> char {
    ('0' as nat + d) as char
}

/// The decimal numeral of `n`, without leading zeros.
pub open spec fn decimal(n: nat) -> Seq<char>
    decreases n,
{
    if n < 10 {
        seq![digit(n)]
    } else {
        decimal(n / 10).push(digit(n % 10))
    }
}

/// `n` as two digits, for `n` below one hundred.
pub open spec fn two_digits(n: nat) -> Seq<char> {
    seq![digit(n / 10), digit(n % 10)]
}

/// A time of `secs` whole seconds as the viewer writes it: minutes, a colon,
/// and the remaining seconds as two digits.
pub open spec fn clock_text(secs: nat) -> Seq<char> {
    decimal(secs / 60) + seq![':'] + two_digits(secs % 60)
}

/// Nanoseconds in one second.
pub const NANOS_PER_SEC: u64 = 1_000_000_000;

fn digit_char(d: u8) -> (c: char)
    requires
        d < 10,
    ensures
        c == digit(d as nat),
{
    (48 + d) as char
}

/// Appends the decimal numeral of `n`.
fn push_decimal(out: &mut String, n: u128)
    ensures
        final(out)@ == old(out)@ + decimal(n as nat),
    decreases n,
{
    if n >= 10 {
        push_decimal(out, n / 10);
    }
    out.push(digit_char((n % 10) as u8));
    proof {
        assert(out@ =~= old(out)@ + decimal(n as nat));
    }
}

/// Writes a time given in nanoseconds as `minutes:seconds`; a started second
/// does not count.
pub fn format_time(nanos: u128) -> (text: String)
    ensures
        text@ == clock_text(nanos as nat / NANOS_PER_SEC as nat),
        shows_time(text@, nanos as nat / 1_000_000_000),
{
    let secs: u128 = nanos / (NANOS_PER_SEC as u128);
    let rest: u8 = (secs % 60) as u8;
    let mut text = String::new();
    push_decimal(&mut text, secs / 60);
    text.push(':');
    text.push(digit_char(rest / 10));
    text.push(digit_char(rest % 10));
    proof {
        assert(text@ =~= clock_text(secs as nat));
        clock_text_shows_its_time(secs as nat);
    }
    text
}

/// The text that [`replace_char`] makes of `s`.
pub open spec fn replaced(s: Seq<char>, from: char, to: char) -> Seq<char> {
    s.map_values(
        |c: char|
            if c == from {
                to
            } else {
                c
            },
    )
}

/// A copy of `s` in which every `from` is written as `to`.
pub fn replace_char(s: &str, from: char, to: char) -> (out: String)
    ensures
        out@ == replaced(s@, from, to),
        out@.len() == s@.len(),
        forall|i: int|
            0 <= i < s@.len() ==> #[trigger] out@[i] == if s@[i] == from {
                to
            } else {
                s@[i]
            },
{
    let mut out = String::new();
    for c in iter: s.chars()
        invariant
            iter.seq() == s@,
            out@ == replaced(s@.take(iter.index() as int), from, to),
    {
        proof {
            assert(s@.take(iter.index() + 1) =~= s@.take(iter.index() as int).push(c));
        }
        out.push(
            if c == from {
                to
            } else {
                c
            },
        );
        proof {
            assert(out@ =~= replaced(s@.take(iter.index() + 1), from, to));
        }
    }
    proof {
        assert(s@.take(s@.len() as int) =~= s@);
    }
    out
}

/// The number that a decimal numeral stands for.
pub open spec fn decimal_value(s: Seq<char>) -> nat
    decreases s.len(),
{
    if s.len() == 0 {
        0
    } else {
        (10 * decimal_value(s.drop_last()) + (s.last() as nat - '0' as nat)) as nat
    }
}

/// Reading a decimal numeral gives back the number that was written.
pub proof fn decimal_reads_back(n: nat)
    ensures
        decimal_value(decimal(n)) == n,
    decreases n,
{
    if n < 10 {
        assert(decimal(n).drop_last() =~= Seq::<char>::empty());
        assert(decimal_value(Seq::<char>::empty()) == 0);
        assert(decimal(n).last() == digit(n));
    } else {
        decimal_reads_back(n / 10);
        assert(decimal(n).drop_last() =~= decimal(n / 10));
    }
}

/// Two times are shown by the same text only if they fall in the same second:
/// the text of a time loses nothing but the fraction of its second.
pub proof fn clock_text_tells_seconds_apart(a: nat, b: nat)
    requires
        clock_text(a) == clock_text(b),
    ensures
        a == b,
{
    let n: int = clock_text(a).len() as int;
    assert(decimal(a / 60) =~= clock_text(a).take(n - 3));
    assert(decimal(b / 60) =~= clock_text(b).take(n - 3));
    decimal_reads_back(a / 60);
    decimal_reads_back(b / 60);
    assert(two_digits(a % 60) =~= clock_text(a).skip(n - 2));
    assert(two_digits(b % 60) =~= clock_text(b).skip(n - 2));
    assert(two_digits(a % 60)[0] == digit(a % 60 / 10));
    assert(two_digits(b % 60)[0] == digit(b % 60 / 10));
    assert(two_digits(a % 60)[1] == digit(a % 60 % 10));
    assert(two_digits(b % 60)[1] == digit(b % 60 % 10));
}

/// `s` is a decimal numeral as one writes it: digits only, and no zero in front
/// of another digit.
pub open spec fn is_numeral(s: Seq<char>) -> bool {
    &&& s.len() > 0
    &&& forall|i: int| 0 <= i < s.len() ==> '0' <= #[trigger] s[i] && s[i] <= '9'
    &&& s.len() > 1 ==> s[0] != '0'
}

/// `text` shows a time of `secs` seconds: a numeral of minutes, a colon, and
/// two digits of seconds, the first of them below six, which together make up
/// the time.
pub open spec fn shows_time(text: Seq<char>, secs: nat) -> bool {
    let n = text.len() as int;
    &&& n >= 4
    &&& is_numeral(text.take(n - 3))
    &&& text[n - 3] == ':'
    &&& '0' <= text[n - 2] && text[n - 2] <= '5'
    &&& '0' <= text[n - 1] && text[n - 1] <= '9'
    &&& 60 * decimal_value(text.take(n - 3)) + 10 * (text[n - 2] as int - 48) + (text[n - 1] as int
        - 48) == secs
}

/// The numeral of a number is a proper one.
pub proof fn decimal_is_a_numeral(n: nat)
    ensures
        is_numeral(decimal(n)),
        n > 0 ==> decimal(n)[0] != '0',
    decreases n,
{
    if n >= 10 {
        decimal_is_a_numeral(n / 10);
        let d = decimal(n / 10);
        assert forall|i: int| 0 <= i < decimal(n).len() implies '0' <= #[trigger] decimal(n)[i]
            && decimal(n)[i] <= '9' by {
            if i < d.len() {
                assert(decimal(n)[i] == d[i]);
            }
        }
        assert(decimal(n)[0] == d[0]);
    }
}

/// Of two proper numerals the number tells them apart: there is one for each
/// number.
pub proof fn numerals_are_unique(s: Seq<char>)
    requires
        is_numeral(s),
    ensures
        s == decimal(decimal_value(s)),
    decreases s.len(),
{
    let last = (s.last() as int - 48) as nat;
    assert(s.last() == s[s.len() - 1]);
    if s.len() == 1 {
        assert(s.drop_last() =~= Seq::<char>::empty());
        assert(decimal_value(Seq::<char>::empty()) == 0);
        assert(decimal_value(s) == last);
        assert(s =~= decimal(last));
    } else {
        let t = s.drop_last();
        assert forall|i: int| 0 <= i < t.len() implies '0' <= #[trigger] t[i] && t[i] <= '9' by {
            assert(t[i] == s[i]);
        }
        assert(t[0] == s[0]);
        numerals_are_unique(t);
        let v = decimal_value(t);
        assert(v > 0) by {
            if v == 0 {
                assert(t == decimal(0));
                assert(t[0] == digit(0));
            }
        }
        assert(decimal_value(s) == 10 * v + last);
        assert((10 * v + last) / 10 == v && (10 * v + last) % 10 == last);
        assert(s =~= t.push(s.last()));
        assert(s =~= decimal(decimal_value(s)));
    }
}

/// The text of a time shows that time.
pub proof fn clock_text_shows_its_time(secs: nat)
    ensures
        shows_time(clock_text(secs), secs),
{
    let t = clock_text(secs);
    let n = t.len() as int;
    decimal_is_a_numeral(secs / 60);
    decimal_reads_back(secs / 60);
    assert(t.take(n - 3) =~= decimal(secs / 60));
    assert(t[n - 2] == digit(secs % 60 / 10));
    assert(t[n - 1] == digit(secs % 60 % 10));
}

/// No other text shows it.
pub proof fn times_are_shown_in_one_way(text: Seq<char>, secs: nat)
    requires
        shows_time(text, secs),
    ensures
        text == clock_text(secs),
{
    let n = text.len() as int;
    let m = decimal_value(text.take(n - 3));
    let tens = text[n - 2] as int - 48;
    let ones = text[n - 1] as int - 48;
    numerals_are_unique(text.take(n - 3));
    assert(secs == 60 * m + 10 * tens + ones);
    assert(secs / 60 == m && secs % 60 == 10 * tens + ones);
    assert(text =~= clock_text(secs));
}

/// Replacing a character changes each of its occurrences and nothing else.
pub proof fn replacing_touches_one_character(s: Seq<char>, from: char, to: char)
    ensures
        replaced(s, from, to).len() == s.len(),
        forall|i: int|
            0 <= i < s.len() && s[i] != from ==> #[trigger] replaced(s, from, to)[i] == s[i],
        forall|i: int|
            0 <= i < s.len() && s[i] == from ==> #[trigger] replaced(s, from, to)[i] == to,
{
}

} // verus!
