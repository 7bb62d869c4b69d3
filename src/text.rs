//! Text helpers shared by the request planning and the renderers.

use vstd::prelude::*;

verus! {

/// The decimal digit for `d` (0 to 9).
pub open spec fn digit_char(d: nat) -> char {
    seq!['0', '1', '2', '3', '4', '5', '6', '7', '8', '9'][d as int]
}

/// Decimal notation of `n`, without leading zeros.
pub open spec fn decimal(n: nat) -> Seq<char>
    decreases n,
{
    if n < 10 {
        seq![digit_char(n)]
    } else {
        decimal(n / 10).push(digit_char(n % 10))
    }
}

/// Decimal notation of a signed number: a minus sign before the magnitude
/// of a negative one.
pub open spec fn signed_decimal(n: int) -> Seq<char> {
    if n < 0 {
        seq!['-'] + decimal((-n) as nat)
    } else {
        decimal(n as nat)
    }
}

/// What `str::trim` leaves of a string.
pub uninterp spec fn trimmed(s: Seq<char>) -> Seq<char>;

/// Relies on `u64::to_string` (through `Display`): plain decimal notation.
#[verifier::external_body]
pub(crate) fn u64_text(n: u64) -> (r: String)
    ensures
        r@ == decimal(n as nat),
{
    n.to_string()
}

/// Relies on `str::trim`: the string without leading and trailing white space.
#[verifier::external_body]
pub(crate) fn trim(s: &str) -> (r: String)
    ensures
        r@ == trimmed(s@),
{
    s.trim().to_string()
}

/// Decimal notation of a signed number.
pub fn i64_text(n: i64) -> (r: String)
    ensures
        r@ == signed_decimal(n as int),
{
    if n < 0 {
        let magnitude: u64 = if n == i64::MIN {
            9223372036854775808u64
        } else {
            (-n) as u64
        };
        let mut r = String::from_str("-");
        let digits = u64_text(magnitude);
        r.append(digits.as_str());
        proof {
            reveal_strlit("-");
        }
        r
    } else {
        u64_text(n as u64)
    }
}

/// Appends `line` and a line break to `out`.
pub fn push_line(out: &mut String, line: &str)
    ensures
        final(out)@ == old(out)@ + line@ + seq!['\n'],
{
    out.append(line);
    out.append("\n");
    proof {
        reveal_strlit("\n");
    }
}

/// `s` followed by spaces up to `width` characters.
pub open spec fn pad_right(s: Seq<char>, width: nat) -> Seq<char> {
    if s.len() >= width {
        s
    } else {
        s + Seq::new((width - s.len()) as nat, |i: int| ' ')
    }
}

/// Spaces up to `width` characters, followed by `s`.
pub open spec fn pad_left(s: Seq<char>, width: nat) -> Seq<char> {
    if s.len() >= width {
        s
    } else {
        Seq::new((width - s.len()) as nat, |i: int| ' ') + s
    }
}

fn spaces(n: usize) -> (r: String)
    ensures
        r@ == Seq::new(n as nat, |i: int| ' '),
{
    let mut r = String::new();
    let mut i: usize = 0;
    while i < n
        invariant
            i <= n,
            r@ == Seq::new(i as nat, |k: int| ' '),
        decreases n - i,
    {
        r.append(" ");
        proof {
            reveal_strlit(" ");
        }
        i = i + 1;
        assert(r@ =~= Seq::new(i as nat, |k: int| ' '));
    }
    r
}

/// `s` padded with spaces on the right to `width` characters.
pub fn padded_right(s: &str, width: usize) -> (r: String)
    ensures
        r@ == pad_right(s@, width as nat),
{
    let n = s.unicode_len();
    let mut r = String::from_str(s);
    if n < width {
        let fill = spaces(width - n);
        r.append(fill.as_str());
    }
    r
}

/// `s` padded with spaces on the left to `width` characters.
pub fn padded_left(s: &str, width: usize) -> (r: String)
    ensures
        r@ == pad_left(s@, width as nat),
{
    let n = s.unicode_len();
    if n < width {
        let mut r = spaces(width - n);
        r.append(s);
        r
    } else {
        String::from_str(s)
    }
}

/// `unit` written `n` times.
pub open spec fn repeat(unit: Seq<char>, n: nat) -> Seq<char>
    decreases n,
{
    if n == 0 {
        Seq::empty()
    } else {
        repeat(unit, (n - 1) as nat) + unit
    }
}

/// `unit` written `n` times.
pub fn repeated(unit: &str, n: usize) -> (r: String)
    ensures
        r@ == repeat(unit@, n as nat),
{
    let mut r = String::new();
    let mut i: usize = 0;
    while i < n
        invariant
            i <= n,
            r@ == repeat(unit@, i as nat),
        decreases n - i,
    {
        r.append(unit);
        i = i + 1;
    }
    r
}

/// The text of each string.
pub open spec fn texts(v: Seq<String>) -> Seq<Seq<char>> {
    v.map_values(|s: String| s@)
}

/// `s` cut at every line feed; there is always at least one piece.
pub open spec fn split_at_newlines(s: Seq<char>) -> Seq<Seq<char>>
    decreases s.len(),
{
    if s.len() == 0 {
        seq![Seq::empty()]
    } else {
        let init = split_at_newlines(s.drop_last());
        if s.last() == '\n' {
            init.push(Seq::empty())
        } else {
            init.update(init.len() - 1, init.last().push(s.last()))
        }
    }
}

/// A line without its carriage return, if it ends in one.
pub open spec fn without_cr(line: Seq<char>) -> Seq<char> {
    if line.len() > 0 && line.last() == '\r' {
        line.drop_last()
    } else {
        line
    }
}

/// The lines of `s` as `str::lines` yields them: cut at line feeds, each
/// line that a line feed ends without a final carriage return, the line
/// ending after the last line being optional.
pub open spec fn text_lines(s: Seq<char>) -> Seq<Seq<char>> {
    let pieces = split_at_newlines(s);
    let ended = pieces.drop_last().map_values(|l: Seq<char>| without_cr(l));
    if s.len() == 0 || s.last() == '\n' {
        ended
    } else {
        ended.push(pieces.last())
    }
}

fn strip_cr(line: &str) -> (r: String)
    ensures
        r@ == without_cr(line@),
{
    let n = line.unicode_len();
    if n > 0 && line.get_char(n - 1) == '\r' {
        line.substring_char(0, n - 1).to_owned()
    } else {
        String::from_str(line)
    }
}

/// The lines of `s`, as `str::lines` yields them.
pub fn lines_of(s: &str) -> (r: Vec<String>)
    ensures
        texts(r@) == text_lines(s@),
{
    let n = s.unicode_len();
    let mut out: Vec<String> = Vec::new();
    let ghost mut raw: Seq<Seq<char>> = Seq::empty();
    let mut start: usize = 0;
    let mut i: usize = 0;
    assert(s@.subrange(0, 0) =~= Seq::<char>::empty());
    assert(s@.subrange(0, 0) =~= Seq::<char>::empty());
    while i < n
        invariant
            n == s@.len(),
            start <= i <= n,
            split_at_newlines(s@.subrange(0, i as int)) == raw.push(s@.subrange(start as int, i as int)),
            texts(out@) == raw.map_values(|l: Seq<char>| without_cr(l)),
            i > 0 ==> (s@[i - 1] == '\n' <==> start == i),
        decreases n - i,
    {
        let c = s.get_char(i);
        let ghost prefix = s@.subrange(0, i + 1);
        assert(prefix.drop_last() =~= s@.subrange(0, i as int));
        assert(prefix.last() == c);
        if c == '\n' {
            let piece = s.substring_char(start, i);
            let line = strip_cr(piece);
            let ghost old_out = out@;
            out.push(line);
            proof {
                assert(texts(out@) =~= texts(old_out).push(line@));
                raw = raw.push(s@.subrange(start as int, i as int));
                assert(s@.subrange(i + 1, i + 1) =~= Seq::<char>::empty());
                assert(texts(out@) =~= raw.map_values(|l: Seq<char>| without_cr(l)));
            }
            start = i + 1;
        } else {
            proof {
                assert(s@.subrange(start as int, i + 1) =~= s@.subrange(start as int, i as int).push(c));
                assert(raw.push(s@.subrange(start as int, i as int)).update(raw.len() as int, s@.subrange(start as int, i + 1))
                    =~= raw.push(s@.subrange(start as int, i + 1)));
            }
        }
        i = i + 1;
    }
    assert(s@.subrange(0, n as int) =~= s@);
    if start < n {
        let line = s.substring_char(start, n).to_owned();
        let ghost old_out = out@;
        out.push(line);
        proof {
            assert(texts(out@) =~= texts(old_out).push(line@));
            assert(raw.push(s@.subrange(start as int, n as int)).drop_last() =~= raw);
            assert(texts(out@) =~= raw.map_values(|l: Seq<char>| without_cr(l)).push(s@.subrange(start as int, n as int)));
        }
    } else {
        proof {
            assert(raw.push(s@.subrange(start as int, n as int)).drop_last() =~= raw);
        }
    }
    out
}

} // verus!
