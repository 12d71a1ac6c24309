//! Verified text utilities the response parsers are built on: finding line
//! breaks, splitting a body into lines, suffix tests, substring search and
//! decimal formatting, each specified over sequences of characters.

use vstd::prelude::*;
use vstd::string::StrSliceExecFns;
use vstd::string::StringExecFns;

verus! {

/// Index of the first `'\n'` in `s`, or `s.len()` if there is none.
pub open spec fn first_line_break(s: Seq<char>) -> int
    decreases s.len(),
{
    if s.len() == 0 {
        0
    } else if s[0] == '\n' {
        0
    } else {
        1 + first_line_break(s.skip(1))
    }
}

pub proof fn lemma_first_line_break_bounds(s: Seq<char>)
    ensures
        0 <= first_line_break(s) <= s.len(),
        forall|k: int| 0 <= k < first_line_break(s) ==> s[k] != '\n',
        first_line_break(s) < s.len() ==> s[first_line_break(s)] == '\n',
    decreases s.len(),
{
    if s.len() == 0 {
    } else if s[0] == '\n' {
    } else {
        lemma_first_line_break_bounds(s.skip(1));
        assert forall|k: int| 0 <= k < first_line_break(s) implies s[k] != '\n' by {
            if k > 0 {
                assert(s.skip(1)[k - 1] == s[k]);
            }
        }
        if first_line_break(s) < s.len() {
            assert(s.skip(1)[first_line_break(s) - 1] == s[first_line_break(s)]);
        }
    }
}

/// A position with no `'\n'` before it that is either the end of `s` or
/// holds `'\n'` is exactly `first_line_break(s)`.
pub proof fn lemma_first_line_break_at(s: Seq<char>, j: int)
    requires
        0 <= j <= s.len(),
        forall|k: int| 0 <= k < j ==> s[k] != '\n',
        j < s.len() ==> s[j] == '\n',
    ensures
        first_line_break(s) == j,
    decreases s.len(),
{
    if j == 0 {
    } else {
        assert(s[0] != '\n');
        assert forall|k: int| 0 <= k < j - 1 implies s.skip(1)[k] != '\n' by {
            assert(s.skip(1)[k] == s[k + 1]);
        }
        if j < s.len() {
            assert(s.skip(1)[j - 1] == s[j]);
        }
        lemma_first_line_break_at(s.skip(1), j - 1);
    }
}

/// Index of the first `'\n'` in `s`, or the character length of `s` if
/// there is none.
pub fn find_line_break(s: &str) -> (i: usize)
    ensures
        i as int == first_line_break(s@),
        i <= s@.len(),
{
    let n: usize = s.unicode_len();
    let mut j: usize = 0;
    while j < n
        invariant
            0 <= j <= n,
            n == s@.len(),
            forall|k: int| 0 <= k < j ==> s@[k] != '\n',
        decreases n - j,
    {
        let c: char = s.get_char(j);
        if c == '\n' {
            proof {
                lemma_first_line_break_at(s@, j as int);
            }
            return j;
        }
        j = j + 1;
    }
    proof {
        lemma_first_line_break_at(s@, n as int);
    }
    n
}

/// `s` ends with `suffix`.
pub open spec fn ends_with(s: Seq<char>, suffix: Seq<char>) -> bool {
    s.len() >= suffix.len() && s.subrange(s.len() - suffix.len(), s.len() as int) == suffix
}

/// Whether `s` ends with `suffix`, by comparing characters from the end.
pub fn str_ends_with(s: &str, suffix: &str) -> (r: bool)
    ensures
        r == ends_with(s@, suffix@),
{
    let n: usize = s.unicode_len();
    let m: usize = suffix.unicode_len();
    if m > n {
        return false;
    }
    let off: usize = n - m;
    let mut j: usize = 0;
    while j < m
        invariant
            0 <= j <= m,
            m <= n,
            n == s@.len(),
            m == suffix@.len(),
            off == n - m,
            forall|k: int| 0 <= k < j ==> s@[off + k] == suffix@[k],
        decreases m - j,
    {
        let a: char = s.get_char(off + j);
        let b: char = suffix.get_char(j);
        if a != b {
            proof {
                assert(s@.subrange(off as int, n as int)[j as int] == s@[off + j]);
            }
            return false;
        }
        j = j + 1;
    }
    proof {
        assert(s@.subrange(off as int, n as int) =~= suffix@);
    }
    true
}

/// The first `s.len() - m` characters of `s`: `s` with its last `m`
/// characters removed.
pub fn chop_end(s: &str, m: usize) -> (r: String)
    requires
        m <= s@.len(),
    ensures
        r@ == s@.take(s@.len() - m as int),
{
    let n: usize = s.unicode_len();
    let p: &str = s.substring_char(0, n - m);
    p.to_owned()
}

/// `l` with one trailing carriage return removed, as the standard line
/// splitter does to a line ended by `"\r\n"`.
pub open spec fn strip_cr(l: Seq<char>) -> Seq<char> {
    if l.len() > 0 && l[l.len() - 1] == '\r' {
        l.take(l.len() - 1)
    } else {
        l
    }
}

/// The lines of `s`, in order: pieces separated by `'\n'`, a trailing
/// carriage return stripped from each terminated line, and no empty final
/// piece for a body that ends in a line break.
pub open spec fn split_lines(s: Seq<char>) -> Seq<Seq<char>>
    decreases s.len(),
    via split_lines_decreases
{
    if s.len() == 0 {
        Seq::empty()
    } else {
        let i = first_line_break(s);
        if i == s.len() {
            seq![s]
        } else {
            seq![strip_cr(s.take(i))].add(split_lines(s.skip(i + 1)))
        }
    }
}

#[via_fn]
proof fn split_lines_decreases(s: Seq<char>) {
    lemma_first_line_break_bounds(s);
}

/// The lines of `s`, each as its own `String`.
pub fn lines_of(s: &str) -> (r: Vec<String>)
    ensures
        r@.len() == split_lines(s@).len(),
        forall|k: int| 0 <= k < r@.len() ==> (#[trigger] r@[k])@ == split_lines(s@)[k],
    decreases s@.len(),
{
    proof {
        lemma_first_line_break_bounds(s@);
    }
    let n: usize = s.unicode_len();
    if n == 0 {
        let r: Vec<String> = Vec::new();
        return r;
    }
    let i: usize = find_line_break(s);
    if i == n {
        let mut r: Vec<String> = Vec::new();
        r.push(s.to_owned());
        return r;
    }
    let head_raw: &str = s.substring_char(0, i);
    let head: String = strip_cr_str(head_raw);
    let tail: &str = s.substring_char(i + 1, n);
    proof {
        assert(tail@ =~= s@.skip(i + 1));
        assert(head_raw@ =~= s@.take(i as int));
    }
    let mut rest: Vec<String> = lines_of(tail);
    rest.insert(0, head);
    proof {
        assert(split_lines(s@) == seq![strip_cr(s@.take(i as int))].add(split_lines(s@.skip(i + 1))));
        assert forall|k: int| 0 <= k < rest@.len() implies (#[trigger] rest@[k])@ == split_lines(
            s@,
        )[k] by {
            if k > 0 {
                assert(rest@[k]@ == split_lines(tail@)[k - 1]);
            }
        }
    }
    rest
}

/// `needle` occurs somewhere in `hay` as a contiguous run of characters.
pub open spec fn has_substring(hay: Seq<char>, needle: Seq<char>) -> bool {
    exists|i: int|
        0 <= i && i + needle.len() <= hay.len() && #[trigger] hay.subrange(i, i + needle.len())
            == needle
}

/// Whether `needle` matches `hay` at position `i`.
fn matches_at(hay: &str, needle: &str, i: usize) -> (r: bool)
    requires
        i + needle@.len() <= hay@.len(),
    ensures
        r == (hay@.subrange(i as int, i as int + needle@.len() as int) == needle@),
{
    let n: usize = hay.unicode_len();
    let m: usize = needle.unicode_len();
    let mut j: usize = 0;
    while j < m
        invariant
            0 <= j <= m,
            m == needle@.len(),
            n == hay@.len(),
            i + m <= n,
            forall|k: int| 0 <= k < j ==> hay@[i + k] == needle@[k],
        decreases m - j,
    {
        let a: char = hay.get_char(i + j);
        let b: char = needle.get_char(j);
        if a != b {
            proof {
                assert(hay@.subrange(i as int, i as int + needle@.len() as int)[j as int] == hay@[
                    i + j
                ]);
            }
            return false;
        }
        j = j + 1;
    }
    proof {
        assert(hay@.subrange(i as int, i as int + needle@.len() as int) =~= needle@);
    }
    true
}

/// Whether `needle` occurs anywhere in `hay`.
pub fn contains_str(hay: &str, needle: &str) -> (r: bool)
    ensures
        r == has_substring(hay@, needle@),
{
    let n: usize = hay.unicode_len();
    let m: usize = needle.unicode_len();
    if m > n {
        return false;
    }
    let bound: usize = n - m;
    let mut i: usize = 0;
    loop
        invariant
            0 <= i <= bound,
            bound == n - m,
            m <= n,
            n == hay@.len(),
            m == needle@.len(),
            forall|k: int|
                0 <= k < i ==> #[trigger] hay@.subrange(k, k + needle@.len() as int) != needle@,
        decreases bound - i,
    {
        if matches_at(hay, needle, i) {
            return true;
        }
        if i == bound {
            proof {
                assert forall|k: int|
                    0 <= k && k + needle@.len() <= hay@.len() implies #[trigger] hay@.subrange(
                    k,
                    k + needle@.len() as int,
                ) != needle@ by {
                    assert(k <= bound as int);
                }
            }
            return false;
        }
        i = i + 1;
    }
}

/// The character for a decimal digit value.
pub open spec fn digit_char(d: nat) -> char {
    ((d + 48) as u8) as char
}

/// The decimal digits of `n`, most significant first, with no leading
/// zeros (a single `'0'` for zero).
pub open spec fn dec_digits(n: nat) -> Seq<char>
    decreases n,
{
    if n < 10 {
        seq![digit_char(n)]
    } else {
        dec_digits(n / 10).push(digit_char(n % 10))
    }
}

fn digit_str(d: u8) -> (r: &'static str)
    requires
        d < 10,
    ensures
        r@.len() == 1,
        r@[0] == digit_char(d as nat),
{
    proof {
        reveal_strlit("0");
        reveal_strlit("1");
        reveal_strlit("2");
        reveal_strlit("3");
        reveal_strlit("4");
        reveal_strlit("5");
        reveal_strlit("6");
        reveal_strlit("7");
        reveal_strlit("8");
        reveal_strlit("9");
    }
    match d {
        0 => "0",
        1 => "1",
        2 => "2",
        3 => "3",
        4 => "4",
        5 => "5",
        6 => "6",
        7 => "7",
        8 => "8",
        _ => "9",
    }
}

/// The decimal rendering of `n`.
pub fn u64_to_decimal(n: u64) -> (r: String)
    ensures
        r@ == dec_digits(n as nat),
    decreases n,
{
    if n < 10 {
        let s: &str = digit_str(n as u8);
        let r: String = s.to_owned();
        proof {
            assert(r@ =~= dec_digits(n as nat));
        }
        r
    } else {
        let q: u64 = n / 10;
        let rest: String = u64_to_decimal(q);
        let d: &str = digit_str((n % 10) as u8);
        let r: String = rest.concat(d);
        proof {
            assert(r@ =~= dec_digits(n as nat));
        }
        r
    }
}

fn strip_cr_str(l: &str) -> (r: String)
    ensures
        r@ == strip_cr(l@),
{
    let n: usize = l.unicode_len();
    if n > 0 {
        let c: char = l.get_char(n - 1);
        if c == '\r' {
            let p: &str = l.substring_char(0, n - 1);
            return p.to_owned();
        }
    }
    l.to_owned()
}

} // verus!
