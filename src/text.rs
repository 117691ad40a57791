//! Character-level helpers on strings, stated over `Seq<char>` views.

use vstd::prelude::*;
use vstd::string::*;

verus! {

/// Relies on `FromIterator<char> for String`: the string holds the characters in order.
#[verifier::external_body]
pub(crate) fn string_from_chars(v: &Vec<char>) -> (r: String)
    ensures
        r@ == v@,
{
    v.iter().collect()
}

/// What `str::to_lowercase` makes of a string: Unicode lowercase mapping.
pub uninterp spec fn lower_of(s: Seq<char>) -> Seq<char>;

/// Relies on `str::to_lowercase`: the result depends on the characters alone.
#[verifier::external_body]
pub(crate) fn lowercase(s: &str) -> (r: String)
    ensures
        r@ == lower_of(s@),
{
    s.to_lowercase()
}

/// The characters of `s`, in order.
pub fn chars_of(s: &str) -> (r: Vec<char>)
    ensures
        r@ == s@,
{
    let n = s.unicode_len();
    let mut out: Vec<char> = Vec::new();
    let mut i: usize = 0;
    while i < n
        invariant
            n == s@.len(),
            i <= n,
            out@ == s@.subrange(0, i as int),
        decreases n - i,
    {
        out.push(s.get_char(i));
        i += 1;
        proof {
            assert(out@ =~= s@.subrange(0, i as int));
        }
    }
    proof {
        assert(out@ =~= s@);
    }
    out
}

/// Appends the characters of `s` to `out`.
pub fn append_chars(out: &mut Vec<char>, s: &str)
    ensures
        final(out)@ == old(out)@ + s@,
{
    let cs = chars_of(s);
    let mut i: usize = 0;
    while i < cs.len()
        invariant
            cs@ == s@,
            i <= cs@.len(),
            out@ == old(out)@ + s@.subrange(0, i as int),
        decreases cs@.len() - i,
    {
        out.push(cs[i]);
        i += 1;
        proof {
            assert(out@ =~= old(out)@ + s@.subrange(0, i as int));
        }
    }
    proof {
        assert(s@.subrange(0, s@.len() as int) =~= s@);
    }
}

/// Equality of two strings, character by character.
pub fn str_eq(a: &str, b: &str) -> (r: bool)
    ensures
        r == (a@ == b@),
{
    let n = a.unicode_len();
    let m = b.unicode_len();
    if n != m {
        return false;
    }
    let mut i: usize = 0;
    while i < n
        invariant
            n == a@.len(),
            m == b@.len(),
            n == m,
            i <= n,
            forall|j: int| 0 <= j < i ==> a@[j] == b@[j],
        decreases n - i,
    {
        if a.get_char(i) != b.get_char(i) {
            return false;
        }
        i += 1;
    }
    proof {
        assert(a@ =~= b@);
    }
    true
}

/// `s` begins with `p`.
pub open spec fn has_prefix(s: Seq<char>, p: Seq<char>) -> bool {
    p.len() <= s.len() && s.subrange(0, p.len() as int) == p
}

/// Whether `s` begins with `p`.
pub fn starts_with(s: &str, p: &str) -> (r: bool)
    ensures
        r == has_prefix(s@, p@),
{
    let n = s.unicode_len();
    let m = p.unicode_len();
    if m > n {
        return false;
    }
    let mut i: usize = 0;
    while i < m
        invariant
            n == s@.len(),
            m == p@.len(),
            m <= n,
            i <= m,
            forall|j: int| 0 <= j < i ==> s@[j] == p@[j],
        decreases m - i,
    {
        if s.get_char(i) != p.get_char(i) {
            proof {
                assert(s@.subrange(0, m as int)[i as int] != p@[i as int]);
            }
            return false;
        }
        i += 1;
    }
    proof {
        assert(s@.subrange(0, m as int) =~= p@);
    }
    true
}

/// `p` occurs in `s` starting at index `k`.
pub open spec fn occurs_at(s: Seq<char>, p: Seq<char>, k: int) -> bool {
    0 <= k && k + p.len() <= s.len() && s.subrange(k, k + p.len()) == p
}

/// `p` occurs somewhere in `s`.
pub open spec fn contains_seq(s: Seq<char>, p: Seq<char>) -> bool {
    exists|k: int| occurs_at(s, p, k)
}

fn matches_at(s: &Vec<char>, p: &Vec<char>, k: usize) -> (r: bool)
    requires
        k + p@.len() <= s@.len(),
    ensures
        r == occurs_at(s@, p@, k as int),
{
    let sl = s.len();
    let mut i: usize = 0;
    while i < p.len()
        invariant
            sl == s@.len(),
            k + p@.len() <= s@.len(),
            i <= p@.len(),
            forall|j: int| 0 <= j < i ==> s@[k + j] == p@[j],
        decreases p@.len() - i,
    {
        if s[k + i] != p[i] {
            proof {
                assert(s@.subrange(k as int, k + p@.len())[i as int] != p@[i as int]);
            }
            return false;
        }
        i += 1;
    }
    proof {
        assert(s@.subrange(k as int, k + p@.len()) =~= p@);
    }
    true
}

/// Whether `p` occurs anywhere in `s`.
pub fn contains_str(s: &str, p: &str) -> (r: bool)
    ensures
        r == contains_seq(s@, p@),
{
    let sv = chars_of(s);
    let pv = chars_of(p);
    if pv.len() > sv.len() {
        proof {
            assert forall|k: int| !occurs_at(s@, p@, k) by {}
        }
        return false;
    }
    let last = sv.len() - pv.len();
    let mut k: usize = 0;
    loop
        invariant
            sv@ == s@,
            pv@ == p@,
            last == sv@.len() - pv@.len(),
            k <= last,
            forall|j: int| 0 <= j < k ==> !occurs_at(s@, p@, j),
        decreases last - k,
    {
        if matches_at(&sv, &pv, k) {
            return true;
        }
        if k == last {
            proof {
                assert forall|j: int| !occurs_at(s@, p@, j) by {
                    if 0 <= j <= k {
                    }
                }
            }
            return false;
        }
        k += 1;
    }
}

/// `s` with every run of `c` shortened to a single `c`.
pub open spec fn collapse_runs(s: Seq<char>, c: char) -> Seq<char>
    decreases s.len(),
{
    if s.len() == 0 {
        s
    } else {
        let p = collapse_runs(s.drop_last(), c);
        if s.last() == c && p.len() > 0 && p.last() == c {
            p
        } else {
            p.push(s.last())
        }
    }
}

/// `s` without leading `c`.
pub open spec fn trim_start_char(s: Seq<char>, c: char) -> Seq<char>
    decreases s.len(),
{
    if s.len() > 0 && s[0] == c {
        trim_start_char(s.drop_first(), c)
    } else {
        s
    }
}

/// `s` without trailing `c`.
pub open spec fn trim_end_char(s: Seq<char>, c: char) -> Seq<char>
    decreases s.len(),
{
    if s.len() > 0 && s.last() == c {
        trim_end_char(s.drop_last(), c)
    } else {
        s
    }
}

/// Trimming the end keeps a prefix.
pub proof fn lemma_trim_end_len(s: Seq<char>, c: char)
    ensures
        trim_end_char(s, c).len() <= s.len(),
        trim_end_char(s, c) == s.subrange(0, trim_end_char(s, c).len() as int),
    decreases s.len(),
{
    if s.len() > 0 && s.last() == c {
        lemma_trim_end_len(s.drop_last(), c);
        assert(s.drop_last().subrange(0, trim_end_char(s, c).len() as int) =~= s.subrange(
            0,
            trim_end_char(s, c).len() as int,
        ));
    } else {
        assert(s.subrange(0, s.len() as int) =~= s);
    }
}

/// `v` with every run of `c` shortened to one.
pub fn collapse_runs_vec(v: &Vec<char>, c: char) -> (r: Vec<char>)
    ensures
        r@ == collapse_runs(v@, c),
{
    let mut collapsed: Vec<char> = Vec::new();
    let mut j: usize = 0;
    while j < v.len()
        invariant
            j <= v@.len(),
            collapsed@ == collapse_runs(v@.subrange(0, j as int), c),
        decreases v@.len() - j,
    {
        let x = v[j];
        proof {
            assert(v@.subrange(0, j + 1).drop_last() =~= v@.subrange(0, j as int));
        }
        if !(x == c && collapsed.len() > 0 && collapsed[collapsed.len() - 1] == c) {
            collapsed.push(x);
        }
        j += 1;
    }
    proof {
        assert(v@.subrange(0, v@.len() as int) =~= v@);
    }
    collapsed
}

/// `v` without leading `c`.
pub fn trim_start_vec(v: &Vec<char>, c: char) -> (r: Vec<char>)
    ensures
        r@ == trim_start_char(v@, c),
{
    let mut start: usize = 0;
    proof {
        assert(v@.subrange(0, v@.len() as int) =~= v@);
    }
    while start < v.len() && v[start] == c
        invariant
            start <= v@.len(),
            trim_start_char(v@.subrange(start as int, v@.len() as int), c) == trim_start_char(v@, c),
        decreases v@.len() - start,
    {
        proof {
            assert(v@.subrange(start as int, v@.len() as int).drop_first() =~= v@.subrange(
                start + 1,
                v@.len() as int,
            ));
        }
        start += 1;
    }
    let mut rest: Vec<char> = Vec::new();
    let mut k: usize = start;
    while k < v.len()
        invariant
            start <= k <= v@.len(),
            rest@ == v@.subrange(start as int, k as int),
        decreases v@.len() - k,
    {
        rest.push(v[k]);
        k += 1;
        proof {
            assert(rest@ =~= v@.subrange(start as int, k as int));
        }
    }
    proof {
        let w = v@.subrange(start as int, v@.len() as int);
        assert(rest@ =~= w);
        assert(!(w.len() > 0 && w[0] == c));
    }
    rest
}

/// `v` without trailing `c`.
pub fn trim_end_vec(v: &Vec<char>, c: char) -> (r: Vec<char>)
    ensures
        r@ == trim_end_char(v@, c),
{
    let mut end: usize = v.len();
    proof {
        assert(v@.subrange(0, end as int) =~= v@);
    }
    while end > 0 && v[end - 1] == c
        invariant
            end <= v@.len(),
            trim_end_char(v@.subrange(0, end as int), c) == trim_end_char(v@, c),
        decreases end,
    {
        proof {
            assert(v@.subrange(0, end as int).drop_last() =~= v@.subrange(0, end - 1));
        }
        end -= 1;
    }
    let mut out: Vec<char> = Vec::new();
    let mut i: usize = 0;
    while i < end
        invariant
            end <= v@.len(),
            i <= end,
            out@ == v@.subrange(0, i as int),
        decreases end - i,
    {
        out.push(v[i]);
        i += 1;
        proof {
            assert(out@ =~= v@.subrange(0, i as int));
        }
    }
    proof {
        let w = v@.subrange(0, end as int);
        assert(!(w.len() > 0 && w.last() == c));
        assert(trim_end_char(w, c) == w);
    }
    out
}


/// `s` with every occurrence of `p`, scanned left to right without overlap, replaced by `t`.
pub open spec fn replaced(s: Seq<char>, p: Seq<char>, t: Seq<char>) -> Seq<char>
    decreases s.len(),
{
    if p.len() == 0 || s.len() < p.len() {
        s
    } else if s.subrange(0, p.len() as int) == p {
        t + replaced(s.subrange(p.len() as int, s.len() as int), p, t)
    } else {
        seq![s[0]] + replaced(s.drop_first(), p, t)
    }
}

/// Replaces every occurrence of a non-empty pattern.
pub fn replace_all(s: &str, p: &str, t: &str) -> (r: String)
    requires
        p@.len() > 0,
    ensures
        r@ == replaced(s@, p@, t@),
{
    let sv = chars_of(s);
    let pv = chars_of(p);
    let n = sv.len();
    let m = pv.len();
    let mut out: Vec<char> = Vec::new();
    let mut i: usize = 0;
    proof {
        assert(s@.subrange(0, n as int) =~= s@);
    }
    while i < n
        invariant
            sv@ == s@,
            pv@ == p@,
            n == s@.len(),
            m == p@.len(),
            m > 0,
            i <= n,
            out@ + replaced(s@.subrange(i as int, n as int), p@, t@) == replaced(s@, p@, t@),
        decreases n - i,
    {
        let ghost rest = s@.subrange(i as int, n as int);
        if m <= n - i && matches_at(&sv, &pv, i) {
            proof {
                assert(rest.subrange(0, m as int) =~= s@.subrange(i as int, i + m));
                assert(rest.subrange(m as int, rest.len() as int) =~= s@.subrange(i + m, n as int));
            }
            append_chars(&mut out, t);
            i += m;
            proof {
                assert(out@ + replaced(s@.subrange(i as int, n as int), p@, t@) =~= (out@.subrange(0, out@.len() - t@.len()) + (t@ + replaced(s@.subrange(i as int, n as int), p@, t@))));
            }
        } else {
            proof {
                assert(rest.drop_first() =~= s@.subrange(i + 1, n as int));
                if m <= n - i {
                    assert(rest.subrange(0, m as int) =~= s@.subrange(i as int, i + m));
                    assert(rest.subrange(0, m as int) != p@);
                    assert(replaced(rest, p@, t@) == seq![rest[0]] + replaced(rest.drop_first(), p@, t@));
                } else {
                    assert(replaced(rest, p@, t@) == rest);
                    assert(replaced(rest.drop_first(), p@, t@) == rest.drop_first());
                    assert(rest =~= seq![rest[0]] + rest.drop_first());
                }
            }
            out.push(sv[i]);
            i += 1;
            proof {
                assert(out@ + replaced(s@.subrange(i as int, n as int), p@, t@) =~= out@.drop_last() + (seq![rest[0]] + replaced(rest.drop_first(), p@, t@)));
            }
        }
    }
    proof {
        assert(replaced(s@.subrange(n as int, n as int), p@, t@) =~= Seq::<char>::empty());
        assert(out@ + Seq::<char>::empty() =~= out@);
    }
    string_from_chars(&out)
}

/// The character of a digit below sixteen: `0`-`9`, then `a`-`f`.
pub open spec fn digit_char(d: nat) -> char {
    if d < 10 {
        (48 + d) as char
    } else {
        (87 + d) as char
    }
}

/// The digits of `n` in `base`, most significant first, without leading zeros.
pub open spec fn digits_of(n: nat, base: nat) -> Seq<char>
    decreases n,
    via digits_of_decreases
{
    if base < 2 || n < base {
        seq![digit_char(n)]
    } else {
        digits_of(n / base, base).push(digit_char(n % base))
    }
}

#[via_fn]
proof fn digits_of_decreases(n: nat, base: nat) {
    if !(base < 2 || n < base) {
        assert(n / base < n) by (nonlinear_arith)
            requires
                base >= 2,
                n >= base,
        ;
    }
}

fn digit_char_exec(d: u64) -> (r: char)
    requires
        d < 16,
    ensures
        r == digit_char(d as nat),
{
    if d < 10 {
        ((48 + d) as u8) as char
    } else {
        ((87 + d) as u8) as char
    }
}

/// Appends the digits of `n` in `base` (decimal or hexadecimal) to `out`.
pub fn push_digits(out: &mut Vec<char>, n: u64, base: u64)
    requires
        base == 10 || base == 16,
    ensures
        final(out)@ == old(out)@ + digits_of(n as nat, base as nat),
    decreases n,
{
    if n < base {
        out.push(digit_char_exec(n));
        proof {
            assert(digits_of(n as nat, base as nat) == seq![digit_char(n as nat)]);
        }
    } else {
        push_digits(out, n / base, base);
        out.push(digit_char_exec(n % base));
        proof {
            assert(final(out)@ =~= old(out)@ + digits_of(n as nat, base as nat));
        }
    }
}

/// The index of the first `c` in `s`, if any.
pub open spec fn first_index_of(s: Seq<char>, c: char) -> Option<int> {
    if exists|i: int| 0 <= i < s.len() && s[i] == c {
        Some(choose|i: int| 0 <= i < s.len() && s[i] == c && forall|j: int| 0 <= j < i ==> s[j] != c)
    } else {
        None
    }
}

/// Finds the first `c` in `v`.
pub fn find_char(v: &Vec<char>, c: char) -> (r: Option<usize>)
    ensures
        (match r {
            Some(i) => first_index_of(v@, c) == Some(i as int) && i < v@.len(),
            None => first_index_of(v@, c) is None,
        }),
{
    let mut i: usize = 0;
    while i < v.len()
        invariant
            i <= v@.len(),
            forall|j: int| 0 <= j < i ==> v@[j] != c,
        decreases v@.len() - i,
    {
        if v[i] == c {
            proof {
                let w = v@;
                assert(0 <= i < w.len() && w[i as int] == c && forall|j: int| 0 <= j < i ==> w[j] != c);
                let k = first_index_of(w, c)->0;
                assert(0 <= k < w.len() && w[k] == c && forall|j: int| 0 <= j < k ==> w[j] != c);
                if k < i {
                    assert(w[k] != c);
                }
                if k > i {
                    assert(w[i as int] != c);
                }
            }
            return Some(i);
        }
        i += 1;
    }
    None
}

/// The elements `from..to` of `v`.
pub fn slice_chars(v: &Vec<char>, from: usize, to: usize) -> (r: Vec<char>)
    requires
        from <= to <= v@.len(),
    ensures
        r@ == v@.subrange(from as int, to as int),
{
    let mut out: Vec<char> = Vec::new();
    let mut i: usize = from;
    while i < to
        invariant
            from <= i <= to <= v@.len(),
            out@ == v@.subrange(from as int, i as int),
        decreases to - i,
    {
        out.push(v[i]);
        i += 1;
        proof {
            assert(out@ =~= v@.subrange(from as int, i as int));
        }
    }
    out
}

/// `s` without one trailing carriage return.
pub open spec fn strip_cr(s: Seq<char>) -> Seq<char> {
    if s.len() > 0 && s.last() == '\r' {
        s.drop_last()
    } else {
        s
    }
}

/// The lines of a text as `str::lines` yields them: split at each `\n`, a
/// `\r` before the `\n` dropped, and no empty line after a final `\n`.
#[verifier::opaque]
pub open spec fn lines_spec(s: Seq<char>) -> Seq<Seq<char>>
    decreases s.len(),
{
    if s.len() == 0 {
        Seq::empty()
    } else {
        match first_index_of(s, '\n') {
            Some(i) => if 0 <= i < s.len() {
                seq![strip_cr(s.subrange(0, i))] + lines_spec(s.subrange(i + 1, s.len() as int))
            } else {
                Seq::empty()
            },
            None => seq![s],
        }
    }
}

proof fn lemma_first_index_at(s: Seq<char>, c: char, i: int)
    requires
        0 <= i < s.len(),
        s[i] == c,
        forall|j: int| 0 <= j < i ==> s[j] != c,
    ensures
        first_index_of(s, c) == Some(i),
{
    let k = first_index_of(s, c)->0;
    assert(0 <= k < s.len() && s[k] == c && forall|j: int| 0 <= j < k ==> s[j] != c);
    if k < i {
        assert(s[k] != c);
    }
    if k > i {
        assert(s[i] != c);
    }
}

/// The views of a list of character vectors.
pub open spec fn views(v: Seq<Vec<char>>) -> Seq<Seq<char>> {
    v.map_values(|l: Vec<char>| l@)
}

proof fn lemma_lines_step(s: Seq<char>, k: int, i: int)
    requires
        0 <= k <= i < s.len(),
        s[i] == '\n',
        forall|j: int| k <= j < i ==> s[j] != '\n',
    ensures
        lines_spec(s.subrange(k, s.len() as int)) == seq![strip_cr(s.subrange(k, i))] + lines_spec(
            s.subrange(i + 1, s.len() as int),
        ),
{
    reveal(lines_spec);
    let rest = s.subrange(k, s.len() as int);
    assert forall|j: int| 0 <= j < i - k implies rest[j] != '\n' by {
        assert(rest[j] == s[k + j]);
    }
    lemma_first_index_at(rest, '\n', i - k);
    assert(rest.subrange(0, i - k) =~= s.subrange(k, i));
    assert(rest.subrange(i - k + 1, rest.len() as int) =~= s.subrange(i + 1, s.len() as int));
}

proof fn lemma_lines_tail(s: Seq<char>, k: int)
    requires
        0 <= k <= s.len(),
        forall|j: int| k <= j < s.len() ==> s[j] != '\n',
    ensures
        lines_spec(s.subrange(k, s.len() as int)) == (if k == s.len() {
            Seq::<Seq<char>>::empty()
        } else {
            seq![s.subrange(k, s.len() as int)]
        }),
{
    reveal(lines_spec);
    let rest = s.subrange(k, s.len() as int);
    if rest.len() > 0 {
        assert(!(exists|j: int| 0 <= j < rest.len() && rest[j] == '\n')) by {
            assert forall|j: int| 0 <= j < rest.len() implies rest[j] != '\n' by {
                assert(rest[j] == s[k + j]);
            }
        }
    }
}

fn strip_cr_vec(v: Vec<char>) -> (r: Vec<char>)
    ensures
        r@ == strip_cr(v@),
{
    let n = v.len();
    if n > 0 && v[n - 1] == '\r' {
        slice_chars(&v, 0, n - 1)
    } else {
        v
    }
}

/// Splits a text into its lines.
pub fn split_lines(s: &str) -> (r: Vec<Vec<char>>)
    ensures
        views(r@) == lines_spec(s@),
{
    let cs = chars_of(s);
    let n = cs.len();
    let mut out: Vec<Vec<char>> = Vec::new();
    let mut cur: Vec<char> = Vec::new();
    let mut k: usize = 0;
    let mut i: usize = 0;
    proof {
        assert(s@.subrange(0, n as int) =~= s@);
        assert(views(out@) + lines_spec(s@) =~= lines_spec(s@));
    }
    while i < n
        invariant
            cs@ == s@,
            n == s@.len(),
            k <= i <= n,
            cur@ == s@.subrange(k as int, i as int),
            forall|j: int| k <= j < i ==> s@[j] != '\n',
            views(out@) + lines_spec(s@.subrange(k as int, n as int)) == lines_spec(s@),
        decreases n - i,
    {
        let c = cs[i];
        if c == '\n' {
            proof {
                lemma_lines_step(s@, k as int, i as int);
            }
            let ghost before = out@;
            let line = strip_cr_vec(cur);
            out.push(line);
            proof {
                assert(views(out@) =~= views(before).push(strip_cr(s@.subrange(k as int, i as int))));
                assert(views(out@) + lines_spec(s@.subrange(i + 1, n as int)) =~= views(before) + (seq![
                    strip_cr(s@.subrange(k as int, i as int)),
                ] + lines_spec(s@.subrange(i + 1, n as int))));
            }
            cur = Vec::new();
            k = i + 1;
            i += 1;
            proof {
                assert(cur@ =~= s@.subrange(k as int, i as int));
            }
        } else {
            cur.push(c);
            i += 1;
            proof {
                assert(cur@ =~= s@.subrange(k as int, i as int));
            }
        }
    }
    proof {
        lemma_lines_tail(s@, k as int);
    }
    if cur.len() > 0 {
        let ghost before = out@;
        out.push(cur);
        proof {
            assert(views(out@) =~= views(before) + seq![s@.subrange(k as int, n as int)]);
        }
    } else {
        proof {
            assert(views(out@) =~= views(out@) + Seq::<Seq<char>>::empty());
        }
    }
    out
}

} // verus!
