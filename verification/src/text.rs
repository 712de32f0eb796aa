//! Small string utilities shared by the builders, the log presenter and the
//! role resolver: decimal formatting and parsing, padding, newline trimming,
//! and joining with a separator.
use vstd::prelude::*;

use itertools::Itertools;

verus! {

/// Relies on std's String::push: appends exactly one character.
#[verifier::external_body]
pub fn push_char(s: &mut String, c: char)
    ensures
        final(s)@ == old(s)@.push(c),
{
    s.push(c)
}

/// Relies on itertools' Itertools::join (via the Display of String, which
/// renders a string as itself): concatenates the items with the separator
/// between consecutive items.
#[verifier::external_body]
pub fn join_all(items: &Vec<String>, sep: &str) -> (r: String)
    ensures
        r@ == spec_join(items.deep_view(), sep@),
{
    items.iter().join(sep)
}

/// The text that results from writing the given pieces in order with `sep`
/// between consecutive pieces.
pub open spec fn spec_join(items: Seq<Seq<char>>, sep: Seq<char>) -> Seq<char>
    decreases items.len(),
{
    if items.len() == 0 {
        Seq::empty()
    } else if items.len() == 1 {
        items[0]
    } else {
        spec_join(items.drop_last(), sep) + sep + items.last()
    }
}

/// The numeric value of a decimal digit character, or -1 for any other character.
pub open spec fn digit_val(c: char) -> int {
    match c {
        '0' => 0,
        '1' => 1,
        '2' => 2,
        '3' => 3,
        '4' => 4,
        '5' => 5,
        '6' => 6,
        '7' => 7,
        '8' => 8,
        '9' => 9,
        _ => -1,
    }
}

pub open spec fn is_digit(c: char) -> bool {
    digit_val(c) >= 0
}

/// The decimal digit character for a value in 0..10.
pub open spec fn digit_char(d: int) -> char {
    if d == 0 {
        '0'
    } else if d == 1 {
        '1'
    } else if d == 2 {
        '2'
    } else if d == 3 {
        '3'
    } else if d == 4 {
        '4'
    } else if d == 5 {
        '5'
    } else if d == 6 {
        '6'
    } else if d == 7 {
        '7'
    } else if d == 8 {
        '8'
    } else {
        '9'
    }
}

/// The usual decimal rendering of a non-negative integer, no leading zeros
/// except for the number 0 itself.
pub open spec fn spec_decimal(n: int) -> Seq<char>
    decreases n,
{
    if n < 10 {
        seq![digit_char(n)]
    } else {
        spec_decimal(n / 10).push(digit_char(n % 10))
    }
}

pub open spec fn all_digits(s: Seq<char>) -> bool {
    forall|i: int| 0 <= i < s.len() ==> is_digit(#[trigger] s[i])
}

/// The value of a digit string read as a decimal number.
pub open spec fn spec_num(s: Seq<char>) -> int
    decreases s.len(),
{
    if s.len() == 0 {
        0
    } else {
        spec_num(s.drop_last()) * 10 + digit_val(s.last())
    }
}

fn digit_to_char(d: u64) -> (c: char)
    requires
        d < 10,
    ensures
        c == digit_char(d as int),
{
    match d {
        0 => '0',
        1 => '1',
        2 => '2',
        3 => '3',
        4 => '4',
        5 => '5',
        6 => '6',
        7 => '7',
        8 => '8',
        _ => '9',
    }
}

/// Renders a number in decimal.
pub fn fmt_u64(n: u64) -> (r: String)
    ensures
        r@ == spec_decimal(n as int),
    decreases n,
{
    let mut s = if n >= 10 {
        fmt_u64(n / 10)
    } else {
        String::new()
    };
    let c = digit_to_char(n % 10);
    push_char(&mut s, c);
    proof {
        if n < 10 {
            assert(s@ =~= seq![digit_char(n as int)]);
        }
    }
    s
}

pub fn fmt_usize(n: usize) -> (r: String)
    ensures
        r@ == spec_decimal(n as int),
{
    fmt_u64(n as u64)
}

/// The decimal rendering of a signed number: a minus sign before the digits
/// when it is negative.
pub open spec fn spec_decimal_i64(n: int) -> Seq<char> {
    if n >= 0 {
        spec_decimal(n)
    } else {
        seq!['-'] + spec_decimal(-n)
    }
}

pub fn fmt_i64(n: i64) -> (r: String)
    ensures
        r@ == spec_decimal_i64(n as int),
{
    if n >= 0 {
        fmt_u64(n as u64)
    } else {
        let mut s = String::new();
        push_char(&mut s, '-');
        let mag: u64 = ((-(n + 1)) as u64) + 1;
        let digits = fmt_u64(mag);
        let r = s.concat(digits.as_str());
        proof {
            assert(mag as int == -(n as int));
            assert(r@ =~= seq!['-'] + spec_decimal(mag as int));
        }
        r
    }
}

/// A longer digit string never names a smaller number: each further digit
/// multiplies the value so far by ten.
proof fn lemma_spec_num_grows(s: Seq<char>, j: int)
    requires
        all_digits(s),
        0 <= j <= s.len(),
    ensures
        spec_num(s.take(j)) <= spec_num(s),
    decreases s.len() - j,
{
    if j < s.len() {
        assert(s.take(j + 1).drop_last() =~= s.take(j));
        assert(s.take(j + 1).last() == s[j]);
        assert(spec_num(s.take(j)) * 10 >= spec_num(s.take(j)) * 1) by {
            lemma_spec_num_nonneg(s.take(j));
        }
        lemma_spec_num_grows(s, j + 1);
    } else {
        assert(s.take(j) =~= s);
    }
}

proof fn lemma_spec_num_nonneg(s: Seq<char>)
    requires
        all_digits(s),
    ensures
        spec_num(s) >= 0,
    decreases s.len(),
{
    if s.len() > 0 {
        assert(all_digits(s.drop_last()));
        lemma_spec_num_nonneg(s.drop_last());
    }
}

/// Reads a decimal ordinal. Returns the value exactly when the whole string
/// is one or more digits and the value fits in a usize.
pub fn parse_usize(s: &str) -> (r: Option<usize>)
    ensures
        r is Some <==> s@.len() > 0 && all_digits(s@) && spec_num(s@) <= usize::MAX,
        r is Some ==> r->0 == spec_num(s@),
{
    let n = s.unicode_len();
    if n == 0 {
        return None;
    }
    let mut acc: usize = 0;
    let mut i: usize = 0;
    while i < n
        invariant
            0 < n == s@.len(),
            0 <= i <= n,
            all_digits(s@.take(i as int)),
            acc == spec_num(s@.take(i as int)),
        decreases n - i,
    {
        let c = s.get_char(i);
        let d: usize = match c {
            '0' => 0,
            '1' => 1,
            '2' => 2,
            '3' => 3,
            '4' => 4,
            '5' => 5,
            '6' => 6,
            '7' => 7,
            '8' => 8,
            '9' => 9,
            _ => {
                proof {
                    assert(!is_digit(s@[i as int]));
                }
                return None;
            },
        };
        proof {
            assert(s@.take(i + 1).drop_last() =~= s@.take(i as int));
            assert(s@.take(i + 1).last() == s@[i as int]);
        }
        if acc > (usize::MAX - d) / 10 {
            proof {
                assert(all_digits(s@.take(i + 1)));
                assert(spec_num(s@.take(i + 1)) == acc * 10 + d > usize::MAX);
                if all_digits(s@) {
                    lemma_spec_num_grows(s@, i + 1);
                }
            }
            return None;
        }
        acc = acc * 10 + d;
        i = i + 1;
    }
    proof {
        assert(s@.take(n as int) =~= s@);
    }
    Some(acc)
}

/// A run of `n` spaces.
pub open spec fn spaces(n: int) -> Seq<char> {
    Seq::new(n as nat, |i: int| ' ')
}

/// Pads with trailing spaces up to the given width; text already that wide
/// is returned unchanged.
pub fn pad_right(s: &str, width: usize) -> (r: String)
    ensures
        s@.len() >= width ==> r@ == s@,
        s@.len() < width ==> r@ == s@ + spaces(width - s@.len()),
{
    let n = s.unicode_len();
    let mut r = s.to_owned();
    if n >= width {
        proof {
            assert(r@ =~= s@);
        }
        return r;
    }
    let mut i: usize = n;
    while i < width
        invariant
            n == s@.len(),
            n <= i <= width,
            r@ == s@ + spaces(i - n),
        decreases width - i,
    {
        push_char(&mut r, ' ');
        proof {
            assert(s@ + spaces(i + 1 - n) =~= (s@ + spaces(i - n)).push(' '));
        }
        i = i + 1;
    }
    r
}

pub open spec fn is_space(c: char) -> bool {
    c == ' ' || c == '\t' || c == '\r' || c == '\n'
}

/// Whether the text holds nothing but whitespace (in particular, whether it
/// is empty).
pub open spec fn is_blank(s: Seq<char>) -> bool {
    forall|i: int| 0 <= i < s.len() ==> is_space(#[trigger] s[i])
}

pub fn is_blank_str(s: &str) -> (r: bool)
    ensures
        r == is_blank(s@),
{
    let n = s.unicode_len();
    let mut i: usize = 0;
    while i < n
        invariant
            n == s@.len(),
            0 <= i <= n,
            forall|j: int| 0 <= j < i ==> is_space(#[trigger] s@[j]),
        decreases n - i,
    {
        let c = s.get_char(i);
        if !(c == ' ' || c == '\t' || c == '\r' || c == '\n') {
            return false;
        }
        i = i + 1;
    }
    true
}

/// The text with every leading and trailing newline removed.
pub open spec fn trim_nl(s: Seq<char>) -> Seq<char>
    decreases s.len(),
{
    if s.len() == 0 {
        s
    } else if s.first() == '\n' {
        trim_nl(s.drop_first())
    } else if s.last() == '\n' {
        trim_nl(s.drop_last())
    } else {
        s
    }
}

pub fn trim_newlines(s: &str) -> (r: String)
    ensures
        r@ == trim_nl(s@),
    decreases s@.len(),
{
    let n = s.unicode_len();
    if n == 0 {
        let r = String::new();
        proof {
            assert(r@ =~= s@);
        }
        r
    } else if s.get_char(0) == '\n' {
        let rest = s.substring_char(1, n);
        proof {
            assert(rest@ =~= s@.drop_first());
        }
        trim_newlines(rest)
    } else if s.get_char(n - 1) == '\n' {
        let rest = s.substring_char(0, n - 1);
        proof {
            assert(rest@ =~= s@.drop_last());
        }
        trim_newlines(rest)
    } else {
        s.to_owned()
    }
}

} // verus!
