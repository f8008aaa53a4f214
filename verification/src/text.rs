//! Text helpers shared by the whole crate: decimal rendering of integers,
//! blank texts, and the joining of lines.

use vstd::prelude::*;

verus! {

/// The views of a sequence of strings, element by element.
pub open spec fn texts(v: Seq<String>) -> Seq<Seq<char>> {
    Seq::new(v.len(), |i: int| v[i]@)
}

/// The view of an optional string.
pub open spec fn opt_text(v: Option<String>) -> Option<Seq<char>> {
    match v {
        Some(s) => Some(s@),
        None => None,
    }
}

/// The character that stands for one decimal digit.
pub open spec fn digit_char(d: int) -> char {
    if d == 0 {
        '0'
    } else if d == 1 {
        '1'
    } else if d == 2 {
        '2'
    } else if d == 3 {
        '3'
    } else if d == 4 {
        '4'
    } else if d == 5 {
        '5'
    } else if d == 6 {
        '6'
    } else if d == 7 {
        '7'
    } else if d == 8 {
        '8'
    } else {
        '9'
    }
}

pub open spec fn is_digit_char(c: char) -> bool {
    c == '0' || c == '1' || c == '2' || c == '3' || c == '4' || c == '5' || c == '6' || c == '7'
        || c == '8' || c == '9'
}

/// Decimal digits of a natural number, most significant first, without
/// leading zeros.
pub open spec fn decimal_nat(n: nat) -> Seq<char>
    decreases n,
{
    if n < 10 {
        seq![digit_char(n as int)]
    } else {
        decimal_nat(n / 10).push(digit_char((n % 10) as int))
    }
}

/// Decimal rendering of an integer: a minus sign for negative numbers, then
/// the digits of the magnitude.
pub open spec fn decimal(v: int) -> Seq<char> {
    if v < 0 {
        seq!['-'] + decimal_nat((-v) as nat)
    } else {
        decimal_nat(v as nat)
    }
}

/// A decimal rendering is never empty and ends with a digit.
pub proof fn lemma_decimal_ends_with_digit(v: int)
    ensures
        decimal(v).len() > 0,
        is_digit_char(decimal(v).last()),
{
    let n: nat = if v < 0 {
        (-v) as nat
    } else {
        v as nat
    };
    assert(decimal_nat(n).len() > 0 && is_digit_char(decimal_nat(n).last())) by {
        if n < 10 {
            assert(decimal_nat(n) == seq![digit_char(n as int)]);
        } else {
            assert(decimal_nat(n) == decimal_nat(n / 10).push(digit_char((n % 10) as int)));
        }
    }
}

fn digit_text(d: u64) -> (r: &'static str)
    requires
        d < 10,
    ensures
        r@ == seq![digit_char(d as int)],
{
    proof {
        reveal_strlit("0");
        reveal_strlit("1");
        reveal_strlit("2");
        reveal_strlit("3");
        reveal_strlit("4");
        reveal_strlit("5");
        reveal_strlit("6");
        reveal_strlit("7");
        reveal_strlit("8");
        reveal_strlit("9");
    }
    let r = if d == 0 {
        "0"
    } else if d == 1 {
        "1"
    } else if d == 2 {
        "2"
    } else if d == 3 {
        "3"
    } else if d == 4 {
        "4"
    } else if d == 5 {
        "5"
    } else if d == 6 {
        "6"
    } else if d == 7 {
        "7"
    } else if d == 8 {
        "8"
    } else {
        "9"
    };
    assert(r@ =~= seq![digit_char(d as int)]);
    r
}

fn append_decimal(out: &mut String, n: u64)
    ensures
        final(out)@ == old(out)@ + decimal_nat(n as nat),
    decreases n,
{
    if n >= 10 {
        append_decimal(out, n / 10);
    }
    out.append(digit_text(n % 10));
    assert(out@ =~= old(out)@ + decimal_nat(n as nat));
}

/// Renders an unsigned number in decimal.
pub fn u64_to_string(n: u64) -> (r: String)
    ensures
        r@ == decimal(n as int),
{
    let mut out = String::new();
    append_decimal(&mut out, n);
    assert(out@ =~= decimal(n as int));
    out
}

/// Renders a signed number in decimal, with a leading `-` when it is
/// negative.
pub fn i32_to_string(v: i32) -> (r: String)
    ensures
        r@ == decimal(v as int),
{
    let mut out = String::new();
    let wide: i64 = v as i64;
    if wide < 0 {
        proof {
            reveal_strlit("-");
        }
        out.append("-");
        append_decimal(&mut out, (0 - wide) as u64);
        assert(out@ =~= decimal(v as int));
    } else {
        append_decimal(&mut out, wide as u64);
        assert(out@ =~= decimal(v as int));
    }
    out
}

/// Whether a character is whitespace to `str::trim`: whether it has the
/// Unicode property `White_Space`. The set of these characters is Unicode's
/// and has changed from one version of the standard to another, so it is
/// named here and not listed.
pub uninterp spec fn is_whitespace(c: char) -> bool;

/// Number of whitespace characters at the front of `s`.
pub open spec fn leading_whitespace(s: Seq<char>) -> nat
    decreases s.len(),
{
    if s.len() > 0 && is_whitespace(s[0]) {
        1 + leading_whitespace(s.drop_first())
    } else {
        0
    }
}

/// `s` without its trailing whitespace.
pub open spec fn trim_end(s: Seq<char>) -> Seq<char>
    decreases s.len(),
{
    if s.len() > 0 && is_whitespace(s.last()) {
        trim_end(s.drop_last())
    } else {
        s
    }
}

/// `s` without its leading and trailing whitespace.
pub open spec fn trimmed(s: Seq<char>) -> Seq<char> {
    trim_end(s.skip(leading_whitespace(s) as int))
}

/// A text is blank when nothing is left of it after trimming.
pub open spec fn is_blank(s: Seq<char>) -> bool {
    trimmed(s).len() == 0
}

/// Calls `str::trim`. The contract restates the documentation of that
/// function: the result is the argument with every leading and every trailing
/// `White_Space` character removed, and nothing else changed. The second
/// clause names the predicate the contract rests on; it adds nothing to the
/// first, as `lemma_trimmed_ends` proves.
#[verifier::external_body]
pub(crate) fn trim_text(s: &str) -> (r: &str)
    ensures
        r@ == trimmed(s@),
        r@.len() > 0 ==> !is_whitespace(r@.first()) && !is_whitespace(r@.last()),
{
    s.trim()
}

proof fn lemma_leading_whitespace(s: Seq<char>)
    ensures
        leading_whitespace(s) <= s.len(),
        leading_whitespace(s) < s.len() ==> !is_whitespace(s[leading_whitespace(s) as int]),
    decreases s.len(),
{
    if s.len() > 0 && is_whitespace(s[0]) {
        let rest = s.drop_first();
        lemma_leading_whitespace(rest);
        let k = leading_whitespace(rest) as int;
        if k < rest.len() {
            assert(rest[k] == s[k + 1]);
        }
    }
}

proof fn lemma_trim_end(s: Seq<char>)
    ensures
        trim_end(s).len() <= s.len(),
        trim_end(s).len() > 0 ==> !is_whitespace(trim_end(s).last()) && trim_end(s)[0] == s[0],
    decreases s.len(),
{
    if s.len() > 0 && is_whitespace(s.last()) {
        let rest = s.drop_last();
        lemma_trim_end(rest);
        if trim_end(rest).len() > 0 {
            assert(rest[0] == s[0]);
        }
    }
}

/// What is left of a text after trimming neither begins nor ends with
/// whitespace.
pub proof fn lemma_trimmed_ends(s: Seq<char>)
    ensures
        trimmed(s).len() > 0 ==> !is_whitespace(trimmed(s).first()) && !is_whitespace(
            trimmed(s).last(),
        ),
{
    lemma_leading_whitespace(s);
    let k = leading_whitespace(s) as int;
    let rest = s.skip(k);
    lemma_trim_end(rest);
    if trimmed(s).len() > 0 {
        assert(rest.len() > 0);
        assert(rest[0] == s[k]);
    }
}

/// A text as `Debug` of `str` writes it: between double quotes, with the
/// characters that need it escaped.
pub uninterp spec fn debug_quoted(s: Seq<char>) -> Seq<char>;

/// Calls `Debug` of `str`, which writes a text between double quotes and
/// escapes what needs it. The result depends on the text alone.
#[verifier::external_body]
pub(crate) fn quote_text(s: &str) -> (r: String)
    ensures
        r@ == debug_quoted(s@),
{
    format!("{:?}", s)
}

/// The parts put together, with `sep` between each two neighbours and
/// nothing at either end.
pub open spec fn join_with(sep: Seq<char>, parts: Seq<Seq<char>>) -> Seq<char>
    decreases parts.len(),
{
    if parts.len() == 0 {
        seq![]
    } else if parts.len() == 1 {
        parts[0]
    } else {
        join_with(sep, parts.drop_last()) + sep + parts.last()
    }
}

/// The lines of a text put together again, with one line feed between each
/// two neighbours and none at the end.
pub open spec fn join_lines(lines: Seq<Seq<char>>) -> Seq<char> {
    join_with(seq!['\n'], lines)
}

/// Joins the parts with `sep` between them.
pub fn join(parts: &Vec<String>, sep: &str) -> (r: String)
    ensures
        r@ == join_with(sep@, texts(parts@)),
{
    let mut out = String::new();
    let mut i: usize = 0;
    while i < parts.len()
        invariant
            i <= parts.len(),
            out@ == join_with(sep@, texts(parts@).take(i as int)),
        decreases parts.len() - i,
    {
        let ghost before = texts(parts@).take(i as int);
        let ghost after = texts(parts@).take(i + 1);
        proof {
            assert(after.drop_last() =~= before);
            assert(after.last() == parts@[i as int]@);
        }
        if i > 0 {
            out.append(sep);
        }
        out.append(parts[i].as_str());
        proof {
            if i == 0 {
                assert(out@ =~= after[0]);
            } else {
                assert(out@ =~= join_with(sep@, before) + sep@ + after.last());
            }
        }
        i = i + 1;
    }
    assert(texts(parts@).take(parts.len() as int) =~= texts(parts@));
    out
}

/// A line without the line terminator at its end: without a final line feed,
/// and without the carriage return before that line feed. Nothing else is
/// taken away.
pub open spec fn without_terminator(line: Seq<char>) -> Seq<char> {
    if line.len() >= 2 && line[line.len() - 2] == '\r' && line[line.len() - 1] == '\n' {
        line.subrange(0, line.len() - 2)
    } else if line.len() >= 1 && line[line.len() - 1] == '\n' {
        line.subrange(0, line.len() - 1)
    } else {
        line
    }
}

/// Every line without its line terminator, in order.
pub open spec fn without_terminators(lines: Seq<Seq<char>>) -> Seq<Seq<char>> {
    Seq::new(lines.len(), |i: int| without_terminator(lines[i]))
}

/// Takes the line terminator off the end of a line, if there is one.
pub fn strip_terminator(line: &str) -> (r: String)
    ensures
        r@ == without_terminator(line@),
{
    let len = line.unicode_len();
    if len >= 1 && line.get_char(len - 1) == '\n' {
        if len >= 2 && line.get_char(len - 2) == '\r' {
            line.substring_char(0, len - 2).to_owned()
        } else {
            line.substring_char(0, len - 1).to_owned()
        }
    } else {
        line.to_owned()
    }
}

/// Takes the line terminator off the end of every line.
pub fn strip_terminators(lines: &Vec<String>) -> (r: Vec<String>)
    ensures
        texts(r@) == without_terminators(texts(lines@)),
{
    let mut out: Vec<String> = Vec::new();
    let mut i: usize = 0;
    while i < lines.len()
        invariant
            i <= lines.len(),
            out.len() == i,
            forall|k: int| 0 <= k < i ==> (#[trigger] out@[k])@ == without_terminator(lines@[k]@),
        decreases lines.len() - i,
    {
        let t = strip_terminator(lines[i].as_str());
        out.push(t);
        i = i + 1;
    }
    assert(texts(out@) =~= without_terminators(texts(lines@)));
    out
}

} // verus!
