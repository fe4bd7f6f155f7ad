//! Text helpers: comparing strings, cutting a line into words, reading and
//! writing decimal numbers.

use vstd::prelude::*;
use vstd::string::StringExecFns;
use vstd::string::StrSliceExecFns;
use vstd::string::StringSliceAdditionalSpecFns;
use vstd::utf8::encode_utf8_decode_utf8;

verus! {

/// Whether two strings hold the same characters.
pub fn str_eq(a: &str, b: &str) -> (r: bool)
    ensures
        r == (a@ == b@),
{
    let x = a.as_bytes();
    let y = b.as_bytes();
    if x.len() != y.len() {
        return false;
    }
    let mut i: usize = 0;
    while i < x.len()
        invariant
            i <= x.len(),
            x.len() == y.len(),
            x@ == a.spec_bytes(),
            y@ == b.spec_bytes(),
            forall|j: int| 0 <= j < i ==> x@[j] == y@[j],
        decreases x.len() - i,
    {
        if x[i] != y[i] {
            return false;
        }
        i += 1;
    }
    proof {
        assert(x@ =~= y@);
        encode_utf8_decode_utf8(a@);
        encode_utf8_decode_utf8(b@);
    }
    true
}

/// The characters of a string.
pub fn chars_of(s: &str) -> (v: Vec<char>)
    ensures
        v@ == s@,
{
    let mut v: Vec<char> = Vec::new();
    for c in it: s.chars()
        invariant
            it.seq() == s@,
            v@ =~= it.seq().take(it.index() as int),
    {
        v.push(c);
    }
    assert(v@ =~= s@);
    v
}

/// An owned copy of a string slice.
pub fn owned(s: &str) -> (r: String)
    ensures
        r@ == s@,
{
    String::from_str(s)
}

/// White space as Unicode defines it (the property `White_Space`).
pub open spec fn is_space(c: char) -> bool {
    let u = c as u32;
    ||| 0x09 <= u <= 0x0d
    ||| u == 0x20
    ||| u == 0x85
    ||| u == 0xa0
    ||| u == 0x1680
    ||| 0x2000 <= u <= 0x200a
    ||| u == 0x2028
    ||| u == 0x2029
    ||| u == 0x202f
    ||| u == 0x205f
    ||| u == 0x3000
}

pub fn char_is_space(c: char) -> (r: bool)
    ensures
        r == is_space(c),
{
    let u: u32 = c as u32;
    (0x09 <= u && u <= 0x0d) || u == 0x20 || u == 0x85 || u == 0xa0 || u == 0x1680 || (0x2000 <= u
        && u <= 0x200a) || u == 0x2028 || u == 0x2029 || u == 0x202f || u == 0x205f || u == 0x3000
}

/// `done` followed by `word`, where `word` is not empty.
pub open spec fn close_word(done: Seq<Seq<char>>, word: Seq<char>) -> Seq<Seq<char>> {
    if word.len() > 0 {
        done.push(word)
    } else {
        done
    }
}

/// The words of `rest`, read from left to right, after the words `done` and
/// the beginning `word` of a word have been read.
pub open spec fn words_after(rest: Seq<char>, done: Seq<Seq<char>>, word: Seq<char>) -> Seq<
    Seq<char>,
>
    decreases rest.len(),
{
    if rest.len() == 0 {
        close_word(done, word)
    } else if is_space(rest[0]) {
        words_after(rest.drop_first(), close_word(done, word), Seq::empty())
    } else {
        words_after(rest.drop_first(), done, word.push(rest[0]))
    }
}

/// The words of a line: its longest runs of characters that are not white
/// space, from left to right.
pub open spec fn words(line: Seq<char>) -> Seq<Seq<char>> {
    words_after(line, Seq::empty(), Seq::empty())
}

/// The views of a list of string slices.
pub open spec fn views_of(parts: Seq<&str>) -> Seq<Seq<char>> {
    Seq::new(parts.len(), |i: int| parts[i]@)
}

/// Cuts a line into its words.
pub fn split_whitespace<'a>(line: &'a str) -> (parts: Vec<&'a str>)
    ensures
        views_of(parts@) == words(line@),
{
    let chars = chars_of(line);
    let mut parts: Vec<&'a str> = Vec::new();
    let mut start: usize = 0;
    let mut i: usize = 0;
    proof {
        assert(line@.skip(0) =~= line@);
        assert(views_of(parts@) =~= Seq::<Seq<char>>::empty());
        assert(line@.subrange(0, 0) =~= Seq::<char>::empty());
    }
    while i < chars.len()
        invariant
            chars@ == line@,
            start <= i <= chars.len(),
            words(line@) == words_after(
                line@.skip(i as int),
                views_of(parts@),
                line@.subrange(start as int, i as int),
            ),
        decreases chars.len() - i,
    {
        let ghost before = views_of(parts@);
        let ghost word = line@.subrange(start as int, i as int);
        assert(line@.skip(i as int).drop_first() =~= line@.skip(i as int + 1));
        assert(line@.skip(i as int)[0] == line@[i as int]);
        if char_is_space(chars[i]) {
            if start < i {
                parts.push(line.substring_char(start, i));
                assert(views_of(parts@) =~= before.push(word));
            }
            start = i + 1;
            assert(line@.subrange(start as int, i as int + 1) =~= Seq::<char>::empty());
        } else {
            assert(line@.subrange(start as int, i as int + 1) =~= word.push(line@[i as int]));
        }
        i += 1;
    }
    let ghost before = views_of(parts@);
    if start < i {
        parts.push(line.substring_char(start, i));
        assert(views_of(parts@) =~= before.push(line@.subrange(start as int, i as int)));
    }
    parts
}

/// The value of a decimal digit, if the character is one.
pub open spec fn digit_value(c: char) -> Option<nat> {
    if '0' <= c <= '9' {
        Some((c as u32 - '0' as u32) as nat)
    } else {
        None
    }
}

/// Every character is a decimal digit.
pub open spec fn all_digits(s: Seq<char>) -> bool {
    forall|i: int| 0 <= i < s.len() ==> (#[trigger] digit_value(s[i])) is Some
}

/// The number that a run of decimal digits writes.
pub open spec fn digits_value(s: Seq<char>) -> nat
    decreases s.len(),
{
    if s.len() == 0 {
        0
    } else {
        digits_value(s.drop_last()) * 10 + digit_value(s.last()).unwrap_or(0)
    }
}

/// The number that `s` writes: an optional `+`, then at least one decimal
/// digit and nothing else.
pub open spec fn parse_number(s: Seq<char>) -> Option<nat> {
    let digits = if s.len() > 0 && s[0] == '+' {
        s.drop_first()
    } else {
        s
    };
    if digits.len() > 0 && all_digits(digits) {
        Some(digits_value(digits))
    } else {
        None
    }
}

proof fn lemma_digits_value_grows(s: Seq<char>, k: int)
    requires
        0 <= k <= s.len(),
    ensures
        digits_value(s.take(k)) <= digits_value(s),
    decreases s.len() - k,
{
    if k < s.len() {
        lemma_digits_value_grows(s, k + 1);
        assert(s.take(k + 1).drop_last() =~= s.take(k));
    } else {
        assert(s.take(k) =~= s);
    }
}

/// Reads a number that fits `u32`.
pub fn parse_u32(s: &str) -> (r: Option<u32>)
    ensures
        r == match parse_number(s@) {
            Some(n) => if n <= u32::MAX {
                Some(n as u32)
            } else {
                None
            },
            None => None,
        },
{
    let chars = chars_of(s);
    let first: usize = if chars.len() > 0 && chars[0] == '+' {
        1
    } else {
        0
    };
    let ghost digits = s@.skip(first as int);
    assert(first == 1 ==> s@.drop_first() =~= digits);
    assert(first == 0 ==> s@ =~= digits);
    if first >= chars.len() {
        return None;
    }
    let mut value: u64 = 0;
    let mut i: usize = first;
    assert(digits.take(0) =~= Seq::<char>::empty());
    while i < chars.len()
        invariant
            chars@ == s@,
            digits == s@.skip(first as int),
            digits == if s@.len() > 0 && s@[0] == '+' {
                s@.drop_first()
            } else {
                s@
            },
            first <= i <= chars.len(),
            value <= u32::MAX,
            all_digits(digits.take(i - first)),
            value == digits_value(digits.take(i - first)),
        decreases chars.len() - i,
    {
        let c: char = chars[i];
        assert(digits[i - first] == c);
        if !('0' <= c && c <= '9') {
            assert(digit_value(digits[i - first]) is None);
            return None;
        }
        let d: u64 = (c as u32 - '0' as u32) as u64;
        let ghost shorter = digits.take(i - first);
        let ghost longer = digits.take(i - first + 1);
        assert(longer.drop_last() =~= shorter);
        assert(longer.last() == c);
        assert(all_digits(longer)) by {
            assert forall|j: int| 0 <= j < longer.len() implies (#[trigger] digit_value(
                longer[j],
            )) is Some by {
                if j < shorter.len() {
                    assert(longer[j] == shorter[j]);
                }
            }
        }
        value = value * 10 + d;
        if value > u32::MAX as u64 {
            proof {
                lemma_digits_value_grows(digits, i - first + 1);
            }
            assert(all_digits(digits) ==> digits_value(digits) > u32::MAX);
            return None;
        }
        i += 1;
    }
    assert(digits.take(i - first) =~= digits);
    Some(value as u32)
}

/// The decimal digit that writes `d`.
pub open spec fn digit_char(d: nat) -> char
    recommends
        d < 10,
{
    ((d + '0' as u32) as u32) as char
}

/// `n` in decimal, without leading zeros.
pub open spec fn decimal(n: nat) -> Seq<char>
    decreases n,
{
    if n < 10 {
        seq![digit_char(n)]
    } else {
        decimal(n / 10).push(digit_char(n % 10))
    }
}

fn digit_str(d: u64) -> (r: &'static str)
    requires
        d < 10,
    ensures
        r@ == seq![digit_char(d as nat)],
{
    proof {
        reveal_strlit("0");
        reveal_strlit("1");
        reveal_strlit("2");
        reveal_strlit("3");
        reveal_strlit("4");
        reveal_strlit("5");
        reveal_strlit("6");
        reveal_strlit("7");
        reveal_strlit("8");
        reveal_strlit("9");
    }
    let r: &'static str = if d == 0 {
        "0"
    } else if d == 1 {
        "1"
    } else if d == 2 {
        "2"
    } else if d == 3 {
        "3"
    } else if d == 4 {
        "4"
    } else if d == 5 {
        "5"
    } else if d == 6 {
        "6"
    } else if d == 7 {
        "7"
    } else if d == 8 {
        "8"
    } else {
        "9"
    };
    assert(r@ =~= seq![digit_char(d as nat)]);
    r
}

/// Appends `n` in decimal to `out`.
pub fn push_decimal(out: &mut String, n: u64)
    ensures
        final(out)@ == old(out)@ + decimal(n as nat),
    decreases n,
{
    if n >= 10 {
        push_decimal(out, n / 10);
    }
    out.append(digit_str(n % 10));
    proof {
        if n >= 10 {
            assert(final(out)@ =~= old(out)@ + decimal(n as nat));
        } else {
            assert(final(out)@ =~= old(out)@ + decimal(n as nat));
        }
    }
}

/// `n` in decimal.
pub fn decimal_string(n: u64) -> (s: String)
    ensures
        s@ == decimal(n as nat),
{
    let mut s = String::new();
    push_decimal(&mut s, n);
    assert(s@ =~= decimal(n as nat));
    s
}

} // verus!
