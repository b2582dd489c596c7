//! Verified text primitives: character search, prefix tests, string
//! equality, line splitting, and decimal rendering. Everything here is
//! stated over `Seq<char>` views and proved; there is no trusted code.
use vstd::prelude::*;
use vstd::string::*;

verus! {

/// Index of the first occurrence of `c` in `s` at or after `from`,
/// or `s.len()` if there is none.
pub open spec fn find_char(s: Seq<char>, from: int, c: char) -> int
    decreases s.len() - from,
{
    if from < 0 || from >= s.len() {
        s.len() as int
    } else if s[from] == c {
        from
    } else {
        find_char(s, from + 1, c)
    }
}

pub proof fn lemma_find_char(s: Seq<char>, from: int, c: char)
    requires
        0 <= from <= s.len(),
    ensures
        from <= find_char(s, from, c) <= s.len(),
        find_char(s, from, c) < s.len() ==> s[find_char(s, from, c)] == c,
        forall|i: int| from <= i < find_char(s, from, c) ==> s[i] != c,
    decreases s.len() - from,
{
    if from < s.len() && s[from] != c {
        lemma_find_char(s, from + 1, c);
    }
}

/// `find_char` is pinned by its defining properties: if no `c` occurs in
/// `[from, k)` and `k` is either the end or an occurrence, then `k` is it.
pub proof fn lemma_find_char_value(s: Seq<char>, from: int, c: char, k: int)
    requires
        0 <= from <= k <= s.len(),
        forall|i: int| from <= i < k ==> s[i] != c,
        k == s.len() || s[k] == c,
    ensures
        find_char(s, from, c) == k,
    decreases k - from,
{
    if from < k {
        lemma_find_char_value(s, from + 1, c, k);
    }
}

pub open spec fn has_prefix(s: Seq<char>, p: Seq<char>) -> bool {
    p.len() <= s.len() && s.subrange(0, p.len() as int) == p
}

/// True when `s` begins with `p`.
pub fn starts_with(s: &str, p: &str) -> (r: bool)
    ensures
        r == has_prefix(s@, p@),
{
    let sn = s.unicode_len();
    let pn = p.unicode_len();
    if pn > sn {
        return false;
    }
    let mut i: usize = 0;
    while i < pn
        invariant
            0 <= i <= pn,
            pn == p@.len(),
            sn == s@.len(),
            pn <= sn,
            forall|j: int| 0 <= j < i ==> s@[j] == p@[j],
        decreases pn - i,
    {
        if s.get_char(i) != p.get_char(i) {
            assert(s@.subrange(0, pn as int)[i as int] != p@[i as int]);
            return false;
        }
        i = i + 1;
    }
    assert(s@.subrange(0, pn as int) =~= p@);
    true
}

/// True when the two strings hold the same characters.
pub fn str_eq(a: &str, b: &str) -> (r: bool)
    ensures
        r == (a@ == b@),
{
    let an = a.unicode_len();
    let bn = b.unicode_len();
    if an != bn {
        return false;
    }
    let mut i: usize = 0;
    while i < an
        invariant
            0 <= i <= an,
            an == a@.len(),
            bn == b@.len(),
            an == bn,
            forall|j: int| 0 <= j < i ==> a@[j] == b@[j],
        decreases an - i,
    {
        if a.get_char(i) != b.get_char(i) {
            return false;
        }
        i = i + 1;
    }
    assert(a@ =~= b@);
    true
}

/// First index of `c` in `s` at or after `from`, or `s@.len()` if none.
pub fn find_char_at(s: &str, from: usize, c: char) -> (r: usize)
    requires
        from <= s@.len(),
    ensures
        r == find_char(s@, from as int, c),
        from <= r <= s@.len(),
{
    proof {
        lemma_find_char(s@, from as int, c);
    }
    let n = s.unicode_len();
    let mut i: usize = from;
    while i < n
        invariant
            from <= i <= n,
            n == s@.len(),
            find_char(s@, from as int, c) == find_char(s@, i as int, c),
        decreases n - i,
    {
        if s.get_char(i) == c {
            return i;
        }
        i = i + 1;
    }
    i
}

/// The lines of `s`, split at `'\n'`; a trailing newline yields no empty
/// final line, and the empty text has no lines.
pub open spec fn lines_of(s: Seq<char>) -> Seq<Seq<char>>
    decreases s.len(),
{
    if s.len() == 0 {
        Seq::empty()
    } else {
        let k = find_char(s, 0, '\n');
        if 0 <= k < s.len() {
            seq![s.subrange(0, k)] + lines_of(s.subrange(k + 1, s.len() as int))
        } else {
            seq![s]
        }
    }
}

/// Searching a suffix finds the same character, shifted.
pub proof fn lemma_find_char_in_suffix(s: Seq<char>, from: int, c: char)
    requires
        0 <= from <= s.len(),
    ensures
        find_char(s.subrange(from, s.len() as int), 0, c) == find_char(s, from, c) - from,
{
    let t = s.subrange(from, s.len() as int);
    lemma_find_char(s, from, c);
    let k = find_char(s, from, c);
    assert(forall|i: int| 0 <= i < k - from ==> t[i] != c);
    lemma_find_char_value(t, 0, c, k - from);
}

/// Whether some line of `out` is exactly `l`.
pub open spec fn contains_line(out: Seq<char>, l: Seq<char>) -> bool {
    lines_of(out).contains(l)
}

/// True when one of the lines of `out` is exactly `l`.
pub fn has_line(out: &str, l: &str) -> (r: bool)
    ensures
        r == contains_line(out@, l@),
{
    let n = out.unicode_len();
    let mut pos: usize = 0;
    proof {
        assert(out@.subrange(0, n as int) =~= out@);
    }
    while pos < n
        invariant
            0 <= pos <= n,
            n == out@.len(),
            contains_line(out@, l@) == contains_line(
                out@.subrange(pos as int, n as int),
                l@,
            ),
        decreases n - pos,
    {
        let k = find_char_at(out, pos, '\n');
        let line = out.substring_char(pos, k);
        let ghost suf = out@.subrange(pos as int, n as int);
        proof {
            lemma_find_char_in_suffix(out@, pos as int, '\n');
            assert(line@ =~= suf.subrange(0, k - pos));
        }
        if str_eq(line, l) {
            proof {
                if k < n {
                    assert(lines_of(suf) == seq![suf.subrange(0, k - pos)] + lines_of(
                        suf.subrange(k - pos + 1, suf.len() as int),
                    ));
                    assert(lines_of(suf)[0] == l@);
                } else {
                    assert(suf.subrange(0, k - pos) =~= suf);
                    assert(lines_of(suf) == seq![suf]);
                    assert(lines_of(suf)[0] == l@);
                }
            }
            return true;
        }
        if k == n {
            proof {
                assert(suf.subrange(0, k - pos) =~= suf);
                assert(lines_of(suf) == seq![suf]);
                assert(forall|i: int| 0 <= i < lines_of(suf).len() ==> lines_of(suf)[i] != l@);
            }
            return false;
        }
        proof {
            let rest = suf.subrange(k - pos + 1, suf.len() as int);
            assert(lines_of(suf) == seq![suf.subrange(0, k - pos)] + lines_of(rest));
            assert(rest =~= out@.subrange(k + 1, n as int));
            assert forall|x: Seq<char>| lines_of(rest).contains(x) implies lines_of(
                suf,
            ).contains(x) by {
                let i = choose|i: int| 0 <= i < lines_of(rest).len() && lines_of(rest)[i] == x;
                assert(lines_of(suf)[i + 1] == x);
            }
            assert forall|x: Seq<char>|
                lines_of(suf).contains(x) && x != suf.subrange(
                    0,
                    k - pos,
                ) implies lines_of(rest).contains(x) by {
                let i = choose|i: int| 0 <= i < lines_of(suf).len() && lines_of(suf)[i] == x;
                assert(lines_of(rest)[i - 1] == x);
            }
        }
        pos = k + 1;
    }
    proof {
        assert(out@.subrange(pos as int, n as int) =~= Seq::<char>::empty());
        assert(lines_of(Seq::<char>::empty()).len() == 0);
    }
    false
}

/// The empty text is the only text without lines.
pub proof fn lemma_lines_empty(s: Seq<char>)
    ensures
        (lines_of(s).len() == 0) == (s.len() == 0),
{
}

/// The character for one decimal digit.
pub open spec fn digit_char(d: int) -> char {
    if d == 0 {
        '0'
    } else if d == 1 {
        '1'
    } else if d == 2 {
        '2'
    } else if d == 3 {
        '3'
    } else if d == 4 {
        '4'
    } else if d == 5 {
        '5'
    } else if d == 6 {
        '6'
    } else if d == 7 {
        '7'
    } else if d == 8 {
        '8'
    } else {
        '9'
    }
}

/// The decimal rendering of a non-negative integer, most significant
/// digit first, without leading zeros (except for zero itself).
pub open spec fn dec_str(n: int) -> Seq<char>
    decreases n,
{
    if n < 10 {
        seq![digit_char(n)]
    } else {
        dec_str(n / 10).push(digit_char(n % 10))
    }
}

fn digit_str(d: u32) -> (r: &'static str)
    requires
        d < 10,
    ensures
        r@ == seq![digit_char(d as int)],
{
    proof {
        reveal_strlit("0");
        reveal_strlit("1");
        reveal_strlit("2");
        reveal_strlit("3");
        reveal_strlit("4");
        reveal_strlit("5");
        reveal_strlit("6");
        reveal_strlit("7");
        reveal_strlit("8");
        reveal_strlit("9");
    }
    let r = if d == 0 {
        "0"
    } else if d == 1 {
        "1"
    } else if d == 2 {
        "2"
    } else if d == 3 {
        "3"
    } else if d == 4 {
        "4"
    } else if d == 5 {
        "5"
    } else if d == 6 {
        "6"
    } else if d == 7 {
        "7"
    } else if d == 8 {
        "8"
    } else {
        "9"
    };
    proof {
        assert(r@ =~= seq![digit_char(d as int)]);
    }
    r
}

/// Appends the decimal rendering of `n` to `out`.
pub fn append_decimal(n: u32, out: &mut String)
    ensures
        final(out)@ == old(out)@ + dec_str(n as int),
    decreases n,
{
    if n >= 10 {
        append_decimal(n / 10, out);
    }
    let d = digit_str(n % 10);
    out.append(d);
    proof {
        if n >= 10 {
            assert(out@ =~= old(out)@ + dec_str(n as int));
        } else {
            assert(out@ =~= old(out)@ + dec_str(n as int));
        }
    }
}

} // verus!
