//! Operations on text that the rules are built from: removing a character,
//! looking an item up in a separated list, replacing a marker, and writing an
//! integer in decimal.
//!
//! Texts are read one character at a time with `get_char`, which walks the
//! string from its start on every call. The texts here are field values and
//! messages, which are short.
use vstd::prelude::*;
use vstd::string::*;

verus! {

/// `s` with every occurrence of `c` left out.
pub open spec fn without(s: Seq<char>, c: char) -> Seq<char>
    decreases s.len(),
{
    if s.len() == 0 {
        s
    } else if s.last() == c {
        without(s.drop_last(), c)
    } else {
        without(s.drop_last(), c).push(s.last())
    }
}

/// The pieces that `s` falls into when it is cut at every `sep`. There is
/// always at least one piece; two separators in a row, or one at either end,
/// give an empty piece.
pub open spec fn pieces(s: Seq<char>, sep: char) -> Seq<Seq<char>>
    decreases s.len(),
{
    if s.len() == 0 {
        seq![Seq::<char>::empty()]
    } else {
        let before = pieces(s.drop_last(), sep);
        if s.last() == sep {
            before.push(Seq::<char>::empty())
        } else {
            before.drop_last().push(before.last().push(s.last()))
        }
    }
}

/// `s` with every occurrence of `pat` replaced by `to`, found from left to
/// right without overlap. An empty `pat` occurs nowhere.
pub open spec fn replace_all(s: Seq<char>, pat: Seq<char>, to: Seq<char>) -> Seq<char>
    decreases s.len(),
{
    if pat.len() == 0 || s.len() < pat.len() {
        s
    } else if s.take(pat.len() as int) == pat {
        to + replace_all(s.skip(pat.len() as int), pat, to)
    } else {
        seq![s[0]] + replace_all(s.skip(1), pat, to)
    }
}

/// The character that stands for a digit.
pub open spec fn digit(d: nat) -> char {
    if d == 0 {
        '0'
    } else if d == 1 {
        '1'
    } else if d == 2 {
        '2'
    } else if d == 3 {
        '3'
    } else if d == 4 {
        '4'
    } else if d == 5 {
        '5'
    } else if d == 6 {
        '6'
    } else if d == 7 {
        '7'
    } else if d == 8 {
        '8'
    } else {
        '9'
    }
}

/// The decimal digits of `n`, most significant first, without leading zeros.
pub open spec fn digits(n: nat) -> Seq<char>
    decreases n,
{
    if n < 10 {
        seq![digit(n)]
    } else {
        digits(n / 10).push(digit(n % 10))
    }
}

/// An integer in decimal, with a minus sign in front when it is negative.
pub open spec fn decimal(v: int) -> Seq<char> {
    if v < 0 {
        seq!['-'] + digits((-v) as nat)
    } else {
        digits(v as nat)
    }
}

/// Appends the character at position `i` of `s` to `out`.
fn push_char_at(out: &mut String, s: &str, n: usize, i: usize)
    requires
        n == s@.len(),
        i < n,
    ensures
        final(out)@ == old(out)@.push(s@[i as int]),
{
    let one = s.substring_char(i, i + 1);
    assert(one@ =~= seq![s@[i as int]]);
    out.append(one);
    assert(out@ =~= old(out)@.push(s@[i as int]));
}

/// Removes every occurrence of `c` from `s`.
pub fn remove_char(s: &str, c: char) -> (out: String)
    ensures
        out@ == without(s@, c),
{
    let n: usize = s.unicode_len();
    let mut out = String::new();
    let mut i: usize = 0;
    assert(s@.take(0) =~= Seq::<char>::empty());
    while i < n
        invariant
            n == s@.len(),
            i <= n,
            out@ == without(s@.take(i as int), c),
        decreases n - i,
    {
        assert(s@.take(i + 1).drop_last() =~= s@.take(i as int));
        if s.get_char(i) != c {
            push_char_at(&mut out, s, n, i);
        }
        i += 1;
    }
    assert(s@.take(n as int) =~= s@);
    out
}

/// Whether two strings hold the same characters.
pub fn same_text(a: &str, b: &str) -> (same: bool)
    ensures
        same == (a@ == b@),
{
    let n: usize = a.unicode_len();
    if b.unicode_len() != n {
        return false;
    }
    let mut i: usize = 0;
    while i < n
        invariant
            n == a@.len(),
            n == b@.len(),
            i <= n,
            a@.take(i as int) == b@.take(i as int),
        decreases n - i,
    {
        if a.get_char(i) != b.get_char(i) {
            return false;
        }
        assert(a@.take(i + 1) =~= a@.take(i as int).push(a@[i as int]));
        assert(b@.take(i + 1) =~= b@.take(i as int).push(b@[i as int]));
        i += 1;
    }
    assert(a@.take(n as int) =~= a@);
    assert(b@.take(n as int) =~= b@);
    true
}

/// Whether `item` is one of the pieces of `list` cut at `sep`.
pub fn listed(list: &str, sep: char, item: &str) -> (found: bool)
    ensures
        found == pieces(list@, sep).contains(item@),
{
    let n: usize = list.unicode_len();
    let mut found = false;
    let mut start: usize = 0;
    let mut i: usize = 0;
    let ghost mut closed: Seq<Seq<char>> = Seq::empty();
    assert(list@.take(0) =~= Seq::<char>::empty());
    assert(pieces(list@.take(0), sep) =~= closed.push(list@.subrange(0, 0)));
    while i < n
        invariant
            n == list@.len(),
            start <= i <= n,
            pieces(list@.take(i as int), sep) == closed.push(list@.subrange(start as int, i as int)),
            found == closed.contains(item@),
        decreases n - i,
    {
        let ghost open_piece = list@.subrange(start as int, i as int);
        assert(list@.take(i + 1).drop_last() =~= list@.take(i as int));
        assert(closed.push(open_piece).drop_last() =~= closed);
        assert(closed.push(open_piece).last() == open_piece);
        if list.get_char(i) == sep {
            let piece = list.substring_char(start, i);
            let hit = same_text(piece, item);
            proof {
                let grown = closed.push(open_piece);
                assert(grown.contains(item@) == (closed.contains(item@) || open_piece == item@)) by {
                    if open_piece == item@ {
                        assert(grown[closed.len() as int] == item@);
                    }
                    if closed.contains(item@) {
                        let k = choose|k: int| 0 <= k < closed.len() && closed[k] == item@;
                        assert(grown[k] == item@);
                    }
                }
                closed = grown;
                assert(list@.subrange(i + 1, i + 1) =~= Seq::<char>::empty());
            }
            found = found || hit;
            start = i + 1;
        } else {
            assert(list@.subrange(start as int, i + 1) =~= open_piece.push(list@[i as int]));
        }
        i += 1;
    }
    assert(list@.take(n as int) =~= list@);
    let piece = list.substring_char(start, n);
    let hit = same_text(piece, item);
    proof {
        let open_piece = list@.subrange(start as int, n as int);
        let grown = closed.push(open_piece);
        assert(grown.contains(item@) == (closed.contains(item@) || open_piece == item@)) by {
            if open_piece == item@ {
                assert(grown[closed.len() as int] == item@);
            }
            if closed.contains(item@) {
                let k = choose|k: int| 0 <= k < closed.len() && closed[k] == item@;
                assert(grown[k] == item@);
            }
        }
    }
    found || hit
}

/// Whether `pat` stands in `s` at position `at`.
fn occurs_at(s: &str, n: usize, at: usize, pat: &str, m: usize) -> (hit: bool)
    requires
        n == s@.len(),
        m == pat@.len(),
        at <= n,
        m <= n - at,
    ensures
        hit == (s@.subrange(at as int, at + m) == pat@),
{
    let mut j: usize = 0;
    while j < m
        invariant
            n == s@.len(),
            m == pat@.len(),
            at <= n,
            m <= n - at,
            j <= m,
            s@.subrange(at as int, at + j) == pat@.take(j as int),
        decreases m - j,
    {
        if s.get_char(at + j) != pat.get_char(j) {
            assert(s@.subrange(at as int, at + m)[j as int] != pat@[j as int]);
            return false;
        }
        assert(s@.subrange(at as int, at + j + 1) =~= s@.subrange(at as int, at + j).push(
            s@[at + j],
        ));
        assert(pat@.take(j + 1) =~= pat@.take(j as int).push(pat@[j as int]));
        j += 1;
    }
    assert(pat@.take(m as int) =~= pat@);
    true
}

/// Replaces every occurrence of `pat` in `s` by `to`, from left to right.
pub fn replace_text(s: &str, pat: &str, to: &str) -> (out: String)
    ensures
        out@ == replace_all(s@, pat@, to@),
{
    let n: usize = s.unicode_len();
    let m: usize = pat.unicode_len();
    if m == 0 {
        return String::from_str(s);
    }
    let mut out = String::new();
    let mut i: usize = 0;
    assert(s@.skip(0) =~= s@);
    assert(out@ + replace_all(s@, pat@, to@) =~= replace_all(s@, pat@, to@));
    while i < n && m <= n - i
        invariant
            n == s@.len(),
            m == pat@.len(),
            m > 0,
            i <= n,
            out@ + replace_all(s@.skip(i as int), pat@, to@) == replace_all(s@, pat@, to@),
        decreases n - i,
    {
        let ghost rest = s@.skip(i as int);
        let ghost before = out@;
        assert(rest.take(m as int) =~= s@.subrange(i as int, i + m));
        if occurs_at(s, n, i, pat, m) {
            assert(rest.skip(m as int) =~= s@.skip(i + m));
            out.append(to);
            assert(out@ + replace_all(s@.skip(i + m), pat@, to@) =~= before + (to@ + replace_all(
                s@.skip(i + m),
                pat@,
                to@,
            )));
            i += m;
        } else {
            assert(rest.skip(1) =~= s@.skip(i + 1));
            push_char_at(&mut out, s, n, i);
            assert(out@ + replace_all(s@.skip(i + 1), pat@, to@) =~= before + (seq![rest[0]]
                + replace_all(s@.skip(i + 1), pat@, to@)));
            i += 1;
        }
    }
    let tail = s.substring_char(i, n);
    assert(tail@ =~= s@.skip(i as int));
    out.append(tail);
    out
}

/// The one-character text of a digit.
fn digit_text(d: u64) -> (text: &'static str)
    requires
        d < 10,
    ensures
        text@ == seq![digit(d as nat)],
{
    proof {
        reveal_strlit("0");
        reveal_strlit("1");
        reveal_strlit("2");
        reveal_strlit("3");
        reveal_strlit("4");
        reveal_strlit("5");
        reveal_strlit("6");
        reveal_strlit("7");
        reveal_strlit("8");
        reveal_strlit("9");
    }
    let text = if d == 0 {
        "0"
    } else if d == 1 {
        "1"
    } else if d == 2 {
        "2"
    } else if d == 3 {
        "3"
    } else if d == 4 {
        "4"
    } else if d == 5 {
        "5"
    } else if d == 6 {
        "6"
    } else if d == 7 {
        "7"
    } else if d == 8 {
        "8"
    } else {
        "9"
    };
    assert(text@ =~= seq![digit(d as nat)]);
    text
}

/// Appends the decimal digits of `n` to `out`.
fn push_digits(out: &mut String, n: u64)
    ensures
        final(out)@ == old(out)@ + digits(n as nat),
    decreases n,
{
    if n >= 10 {
        push_digits(out, n / 10);
    }
    let ghost before = out@;
    out.append(digit_text(n % 10));
    assert(out@ =~= old(out)@ + digits(n as nat)) by {
        if n >= 10 {
            assert(before == old(out)@ + digits((n / 10) as nat));
        }
    }
}

/// Writes an integer in decimal.
pub fn decimal_text(v: i64) -> (out: String)
    ensures
        out@ == decimal(v as int),
{
    let mut out = String::new();
    if v < 0 {
        let magnitude: u64 = (-(v + 1)) as u64 + 1;
        proof {
            reveal_strlit("-");
        }
        out.append("-");
        push_digits(&mut out, magnitude);
        assert(out@ =~= decimal(v as int));
    } else {
        push_digits(&mut out, v as u64);
        assert(out@ =~= decimal(v as int));
    }
    out
}

} // verus!
