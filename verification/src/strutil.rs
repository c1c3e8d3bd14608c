//! Verified building blocks for the character-level scanning that the
//! generator does: equality, prefix/suffix tests, substring search,
//! whitespace trimming, line splitting and simple joins.

use vstd::prelude::*;

verus! {

/// Relies on std's String::push: appends exactly the one character to
/// the end of the string.
#[verifier::external_body]
pub fn push_char(s: &mut String, c: char)
    ensures
        final(s)@ == old(s)@.push(c),
{
    s.push(c)
}

/// Index of the first occurrence of `p` in `s` at or after position `i`,
/// if any.
pub open spec fn find_from(s: Seq<char>, p: Seq<char>, i: int) -> Option<int>
    decreases s.len() - i,
{
    if i < 0 || i + p.len() > s.len() {
        None
    } else if p.is_prefix_of(s.skip(i)) {
        Some(i)
    } else {
        find_from(s, p, i + 1)
    }
}

/// Index of the first occurrence of `p` in `s`, if any.
pub open spec fn find_sub(s: Seq<char>, p: Seq<char>) -> Option<int> {
    find_from(s, p, 0)
}

/// Whether `p` occurs somewhere in `s`.
pub open spec fn contains_sub(s: Seq<char>, p: Seq<char>) -> bool {
    find_sub(s, p) is Some
}

/// Character-for-character equality of two string slices.
pub fn str_eq(a: &str, b: &str) -> (r: bool)
    ensures
        r == (a@ == b@),
{
    let al = a.unicode_len();
    let bl = b.unicode_len();
    if al != bl {
        return false;
    }
    let mut i: usize = 0;
    while i < al
        invariant
            al == a@.len(),
            al == b@.len(),
            i <= al,
            forall|j: int| 0 <= j < i ==> a@[j] == b@[j],
        decreases al - i,
    {
        if a.get_char(i) != b.get_char(i) {
            return false;
        }
        i += 1;
    }
    proof {
        assert(a@ =~= b@);
    }
    true
}

/// Whether `s` starts with `p`.
pub fn starts_with_str(s: &str, p: &str) -> (r: bool)
    ensures
        r == p@.is_prefix_of(s@),
{
    let sl = s.unicode_len();
    let pl = p.unicode_len();
    if pl > sl {
        return false;
    }
    let mut i: usize = 0;
    while i < pl
        invariant
            sl == s@.len(),
            pl == p@.len(),
            pl <= sl,
            i <= pl,
            forall|j: int| 0 <= j < i ==> s@[j] == p@[j],
        decreases pl - i,
    {
        if s.get_char(i) != p.get_char(i) {
            return false;
        }
        i += 1;
    }
    proof {
        assert(p@ =~= s@.subrange(0, pl as int));
    }
    true
}

/// Whether `s` ends with `p`.
pub fn ends_with_str(s: &str, p: &str) -> (r: bool)
    ensures
        r == p@.is_suffix_of(s@),
{
    let sl = s.unicode_len();
    let pl = p.unicode_len();
    if pl > sl {
        return false;
    }
    let off = sl - pl;
    let mut i: usize = 0;
    while i < pl
        invariant
            sl == s@.len(),
            pl == p@.len(),
            pl <= sl,
            off == sl - pl,
            i <= pl,
            forall|j: int| 0 <= j < i ==> s@[off + j] == p@[j],
        decreases pl - i,
    {
        if s.get_char(off + i) != p.get_char(i) {
            return false;
        }
        i += 1;
    }
    proof {
        assert(p@ =~= s@.subrange(off as int, sl as int));
    }
    true
}

/// Index of the first occurrence of `p` in `s`, scanning left to right.
pub fn find_str(s: &str, p: &str) -> (r: Option<usize>)
    ensures
        match r {
            Some(i) => find_sub(s@, p@) == Some(i as int),
            None => find_sub(s@, p@) is None,
        },
{
    let sl = s.unicode_len();
    let pl = p.unicode_len();
    if pl > sl {
        return None;
    }
    let mut i: usize = 0;
    while i <= sl - pl
        invariant
            sl == s@.len(),
            pl == p@.len(),
            pl <= sl,
            i + pl <= sl + 1,
            find_sub(s@, p@) == find_from(s@, p@, i as int),
        decreases sl - i,
    {
        let mut k: usize = 0;
        let mut matched = true;
        while k < pl
            invariant
                sl == s@.len(),
                pl == p@.len(),
                i + pl <= sl,
                k <= pl,
                matched ==> forall|j: int| 0 <= j < k ==> s@[i + j] == p@[j],
                !matched ==> !p@.is_prefix_of(s@.skip(i as int)),
            decreases pl - k,
        {
            if s.get_char(i + k) != p.get_char(k) {
                proof {
                    let sk = s@.skip(i as int);
                    assert(sk[k as int] == s@[i + k]);
                    assert(!p@.is_prefix_of(sk)) by {
                        if p@.is_prefix_of(sk) {
                            assert(p@[k as int] == sk.subrange(0, pl as int)[k as int]);
                        }
                    }
                }
                matched = false;
                k = pl;
            } else {
                k += 1;
            }
        }
        if matched {
            proof {
                let sk = s@.skip(i as int);
                assert(p@ =~= sk.subrange(0, pl as int));
                assert(p@.is_prefix_of(sk));
            }
            return Some(i);
        }
        i += 1;
    }
    None
}

/// Whether `p` occurs somewhere in `s`.
pub fn contains_str(s: &str, p: &str) -> (r: bool)
    ensures
        r == contains_sub(s@, p@),
{
    find_str(s, p).is_some()
}

/// The ASCII whitespace characters that the scanners treat as blank.
pub open spec fn is_ws(c: char) -> bool {
    c == ' ' || c == '\t' || c == '\r' || c == '\n'
}

/// Whether the character counts as whitespace for the scanners.
pub fn ws_char(c: char) -> (r: bool)
    ensures
        r == is_ws(c),
{
    c == ' ' || c == '\t' || c == '\r' || c == '\n'
}

/// First position at or after `i` holding a non-whitespace character,
/// or the length of `s` if there is none.
pub open spec fn first_non_ws(s: Seq<char>, i: int) -> int
    decreases s.len() - i,
{
    if i < 0 || i >= s.len() {
        s.len() as int
    } else if !is_ws(s[i]) {
        i
    } else {
        first_non_ws(s, i + 1)
    }
}

/// First position at or after `i` holding a whitespace character, or
/// the length of `s` if there is none.
pub open spec fn first_ws(s: Seq<char>, i: int) -> int
    decreases s.len() - i,
{
    if i < 0 || i >= s.len() {
        s.len() as int
    } else if is_ws(s[i]) {
        i
    } else {
        first_ws(s, i + 1)
    }
}

/// End of `s` once trailing whitespace before position `j` is dropped.
pub open spec fn last_non_ws_end(s: Seq<char>, j: int) -> int
    decreases j,
{
    if j <= 0 || j > s.len() {
        0
    } else if is_ws(s[j - 1]) {
        last_non_ws_end(s, j - 1)
    } else {
        j
    }
}

/// `s` without leading and trailing ASCII whitespace.
pub open spec fn trim_spec(s: Seq<char>) -> Seq<char> {
    let a = first_non_ws(s, 0);
    let b = last_non_ws_end(s, s.len() as int);
    if a >= b {
        Seq::empty()
    } else {
        s.subrange(a, b)
    }
}

/// Drops leading and trailing ASCII whitespace.
pub fn trim_ws<'a>(s: &'a str) -> (r: &'a str)
    ensures
        r@ == trim_spec(s@),
{
    let sl = s.unicode_len();
    let mut a: usize = 0;
    while a < sl && ws_char(s.get_char(a))
        invariant
            sl == s@.len(),
            a <= sl,
            first_non_ws(s@, 0) == first_non_ws(s@, a as int),
        decreases sl - a,
    {
        a += 1;
    }
    proof {
        assert(first_non_ws(s@, 0) == a as int);
    }
    let mut b: usize = sl;
    while b > 0 && ws_char(s.get_char(b - 1))
        invariant
            sl == s@.len(),
            b <= sl,
            last_non_ws_end(s@, sl as int) == last_non_ws_end(s@, b as int),
        decreases b,
    {
        b -= 1;
    }
    proof {
        assert(last_non_ws_end(s@, sl as int) == b as int);
    }
    if a >= b {
        let r = s.substring_char(0, 0);
        proof {
            assert(r@ =~= trim_spec(s@));
        }
        r
    } else {
        s.substring_char(a, b)
    }
}

/// The line with one trailing carriage return removed, as the line
/// splitter produces before a line feed.
pub open spec fn strip_cr(l: Seq<char>) -> Seq<char> {
    if l.len() > 0 && l[l.len() - 1] == '\r' {
        l.take(l.len() - 1)
    } else {
        l
    }
}

/// The lines of `s` split at line feeds, a carriage return directly
/// before a line feed dropped, the final line ending optional;
/// `cur` is the part of the current line read so far.
pub open spec fn lines_acc(s: Seq<char>, cur: Seq<char>) -> Seq<Seq<char>>
    decreases s.len(),
{
    if s.len() == 0 {
        if cur.len() == 0 {
            Seq::empty()
        } else {
            seq![cur]
        }
    } else if s[0] == '\n' {
        seq![strip_cr(cur)] + lines_acc(s.drop_first(), Seq::empty())
    } else {
        lines_acc(s.drop_first(), cur.push(s[0]))
    }
}

/// The lines of `s`, as the line-based scanners see them.
pub open spec fn lines_of(s: Seq<char>) -> Seq<Seq<char>> {
    lines_acc(s, Seq::empty())
}

fn finish_line(cur: String) -> (r: String)
    ensures
        r@ == strip_cr(cur@),
{
    let l = cur.as_str().unicode_len();
    if l > 0 && cur.as_str().get_char(l - 1) == '\r' {
        String::from_str(cur.as_str().substring_char(0, l - 1))
    } else {
        cur
    }
}

/// Splits `s` into its lines.
pub fn split_lines(s: &str) -> (r: Vec<String>)
    ensures
        r.deep_view() == lines_of(s@),
{
    let sl = s.unicode_len();
    let mut out: Vec<String> = Vec::new();
    let mut cur = String::new();
    proof {
        assert(s@.skip(0) =~= s@);
        assert(out.deep_view() + lines_acc(s@, Seq::empty()) =~= lines_of(s@));
    }
    let mut i: usize = 0;
    while i < sl
        invariant
            sl == s@.len(),
            i <= sl,
            lines_of(s@) == out.deep_view() + lines_acc(s@.skip(i as int), cur@),
        decreases sl - i,
    {
        let c = s.get_char(i);
        let ghost out0 = out.deep_view();
        let ghost cur0 = cur@;
        proof {
            assert(s@.skip(i as int).drop_first() =~= s@.skip(i as int + 1));
            assert(s@.skip(i as int)[0] == s@[i as int]);
        }
        if c == '\n' {
            let line = finish_line(cur);
            out.push(line);
            cur = String::new();
            proof {
                assert(out.deep_view() =~= out0 + seq![strip_cr(cur0)]);
            }
        } else {
            push_char(&mut cur, c);
        }
        i += 1;
        proof {
            assert(lines_of(s@) =~= out.deep_view() + lines_acc(s@.skip(i as int), cur@));
        }
    }
    proof {
        assert(s@.skip(sl as int) =~= Seq::<char>::empty());
    }
    let ghost out1 = out.deep_view();
    let ghost cur1 = cur@;
    if cur.as_str().unicode_len() > 0 {
        out.push(cur);
        proof {
            assert(out.deep_view() =~= out1 + seq![cur1]);
        }
    }
    out
}

/// The second whitespace-separated token of `s`, if `s` has at least
/// two tokens.
pub open spec fn second_token_of(s: Seq<char>) -> Option<Seq<char>> {
    let a = first_non_ws(s, 0);
    let b = first_ws(s, a);
    let c = first_non_ws(s, b);
    let d = first_ws(s, c);
    if c < s.len() {
        Some(s.subrange(c, d))
    } else {
        None
    }
}

/// Extracts the second whitespace-separated token, if any.
pub fn second_token(s: &str) -> (r: Option<String>)
    ensures
        match r {
            Some(t) => second_token_of(s@) == Some(t@),
            None => second_token_of(s@) is None,
        },
{
    let sl = s.unicode_len();
    let mut a: usize = 0;
    while a < sl && ws_char(s.get_char(a))
        invariant
            sl == s@.len(),
            a <= sl,
            first_non_ws(s@, 0) == first_non_ws(s@, a as int),
        decreases sl - a,
    {
        a += 1;
    }
    let mut b: usize = a;
    while b < sl && !ws_char(s.get_char(b))
        invariant
            sl == s@.len(),
            b <= sl,
            first_ws(s@, a as int) == first_ws(s@, b as int),
        decreases sl - b,
    {
        b += 1;
    }
    let mut c: usize = b;
    while c < sl && ws_char(s.get_char(c))
        invariant
            sl == s@.len(),
            c <= sl,
            first_non_ws(s@, b as int) == first_non_ws(s@, c as int),
        decreases sl - c,
    {
        c += 1;
    }
    let mut d: usize = c;
    while d < sl && !ws_char(s.get_char(d))
        invariant
            sl == s@.len(),
            c <= d,
            d <= sl,
            first_ws(s@, c as int) == first_ws(s@, d as int),
        decreases sl - d,
    {
        d += 1;
    }
    proof {
        assert(first_non_ws(s@, 0) == a as int);
        assert(first_ws(s@, a as int) == b as int);
        assert(first_non_ws(s@, b as int) == c as int);
        assert(first_ws(s@, c as int) == d as int);
    }
    if c < sl {
        Some(String::from_str(s.substring_char(c, d)))
    } else {
        None
    }
}

/// `s` with every leading occurrence of `p` removed.
pub open spec fn strip_prefix_all_spec(s: Seq<char>, p: Seq<char>) -> Seq<char>
    decreases s.len(),
{
    if p.len() > 0 && p.is_prefix_of(s) {
        strip_prefix_all_spec(s.skip(p.len() as int), p)
    } else {
        s
    }
}

/// `s` with every trailing occurrence of `p` removed.
pub open spec fn strip_suffix_all_spec(s: Seq<char>, p: Seq<char>) -> Seq<char>
    decreases s.len(),
{
    if p.len() > 0 && p.is_suffix_of(s) {
        strip_suffix_all_spec(s.take(s.len() - p.len()), p)
    } else {
        s
    }
}

/// Removes every leading occurrence of `p` from `s`.
pub fn strip_prefix_all<'a>(s: &'a str, p: &str) -> (r: &'a str)
    ensures
        r@ == strip_prefix_all_spec(s@, p@),
{
    let pl = p.unicode_len();
    if pl == 0 {
        return s;
    }
    let mut t = s;
    while starts_with_str(t, p)
        invariant
            pl == p@.len(),
            pl > 0,
            strip_prefix_all_spec(s@, p@) == strip_prefix_all_spec(t@, p@),
        decreases t@.len(),
    {
        let tl = t.unicode_len();
        let t2 = t.substring_char(pl, tl);
        proof {
            assert(t2@ =~= t@.skip(pl as int));
        }
        t = t2;
    }
    t
}

/// Removes every trailing occurrence of `p` from `s`.
pub fn strip_suffix_all<'a>(s: &'a str, p: &str) -> (r: &'a str)
    ensures
        r@ == strip_suffix_all_spec(s@, p@),
{
    let pl = p.unicode_len();
    if pl == 0 {
        return s;
    }
    let mut t = s;
    while ends_with_str(t, p)
        invariant
            pl == p@.len(),
            pl > 0,
            strip_suffix_all_spec(s@, p@) == strip_suffix_all_spec(t@, p@),
        decreases t@.len(),
    {
        let tl = t.unicode_len();
        let t2 = t.substring_char(0, tl - pl);
        proof {
            assert(t2@ =~= t@.take(t@.len() - pl));
        }
        t = t2;
    }
    t
}

/// The pieces joined with `sep` between neighbours.
pub open spec fn join_sep(parts: Seq<Seq<char>>, sep: Seq<char>) -> Seq<char>
    decreases parts.len(),
{
    if parts.len() == 0 {
        Seq::empty()
    } else if parts.len() == 1 {
        parts[0]
    } else {
        parts[0] + sep + join_sep(parts.drop_first(), sep)
    }
}

/// Joins the strings with `sep` between neighbours.
pub fn join_strings(parts: &Vec<String>, sep: &str) -> (r: String)
    ensures
        r@ == join_sep(parts.deep_view(), sep@),
{
    let ghost pv = parts.deep_view();
    let mut out = String::new();
    let n = parts.len();
    if n == 0 {
        return out;
    }
    let mut i: usize = 0;
    while i < n
        invariant
            n == parts.len(),
            pv == parts.deep_view(),
            pv.len() == n,
            0 < n,
            i <= n,
            i == 0 ==> out@ == Seq::<char>::empty(),
            0 < i < n ==> join_sep(pv, sep@) == out@ + sep@ + join_sep(
                pv.skip(i as int),
                sep@,
            ),
            i == n ==> out@ == join_sep(pv, sep@),
        decreases n - i,
    {
        proof {
            if 0 < i {
                assert(pv.skip(i as int).drop_first() =~= pv.skip(i as int + 1));
            } else {
                assert(pv.skip(0) =~= pv);
                assert(pv.drop_first() =~= pv.skip(1));
            }
        }
        if i > 0 {
            out.append(sep);
        }
        out.append(parts[i].as_str());
        i += 1;
    }
    out
}

/// Any position that `find_from` reports lies between `i` and the end
/// of `s`, with room for the pattern.
pub proof fn lemma_find_from_bounds(s: Seq<char>, p: Seq<char>, i: int)
    requires
        0 <= i,
    ensures
        match find_from(s, p, i) {
            Some(k) => i <= k && k + p.len() <= s.len(),
            None => true,
        },
    decreases s.len() - i,
{
    if i + p.len() > s.len() {
    } else if p.is_prefix_of(s.skip(i)) {
    } else {
        lemma_find_from_bounds(s, p, i + 1);
    }
}

/// `first_non_ws` never runs past the end of `s`.
pub proof fn lemma_first_non_ws_bounds(s: Seq<char>, i: int)
    requires
        0 <= i <= s.len(),
    ensures
        i <= first_non_ws(s, i) <= s.len(),
    decreases s.len() - i,
{
    if i < s.len() && is_ws(s[i]) {
        lemma_first_non_ws_bounds(s, i + 1);
    }
}

/// `last_non_ws_end` never runs below the start of `s`.
pub proof fn lemma_last_non_ws_end_bounds(s: Seq<char>, j: int)
    requires
        0 <= j <= s.len(),
    ensures
        0 <= last_non_ws_end(s, j) <= j,
    decreases j,
{
    if 0 < j && is_ws(s[j - 1]) {
        lemma_last_non_ws_end_bounds(s, j - 1);
    }
}

/// Trimming never lengthens a string.
pub proof fn lemma_trim_len(s: Seq<char>)
    ensures
        trim_spec(s).len() <= s.len(),
{
    lemma_first_non_ws_bounds(s, 0);
    lemma_last_non_ws_end_bounds(s, s.len() as int);
}

/// Stripping a prefix never lengthens a string.
pub proof fn lemma_strip_prefix_all_len(s: Seq<char>, p: Seq<char>)
    ensures
        strip_prefix_all_spec(s, p).len() <= s.len(),
    decreases s.len(),
{
    if p.len() > 0 && p.is_prefix_of(s) {
        lemma_strip_prefix_all_len(s.skip(p.len() as int), p);
    }
}

/// Stripping a suffix never lengthens a string.
pub proof fn lemma_strip_suffix_all_len(s: Seq<char>, p: Seq<char>)
    ensures
        strip_suffix_all_spec(s, p).len() <= s.len(),
    decreases s.len(),
{
    if p.len() > 0 && p.is_suffix_of(s) {
        lemma_strip_suffix_all_len(s.take(s.len() - p.len()), p);
    }
}

} // verus!
