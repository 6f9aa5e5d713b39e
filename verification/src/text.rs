//! Verified text helpers shared by the parsing and routing components.
//!
//! Unicode character classification and case folding come from the
//! standard library; their results are functions of the input alone and
//! are given names here so that contracts can speak of them exactly.

use vstd::prelude::*;

verus! {

/// Whether a character has the Unicode `White_Space` property.
pub uninterp spec fn ws_char(c: char) -> bool;

/// Whether a character is Unicode-alphanumeric.
pub uninterp spec fn alnum_char(c: char) -> bool;

/// The Unicode lowercase folding of a character sequence.
pub uninterp spec fn lower_of(s: Seq<char>) -> Seq<char>;

/// Relies on `char::is_whitespace`: the Unicode `White_Space` property,
/// a function of the character alone.
#[verifier::external_body]
pub fn char_is_whitespace(c: char) -> (r: bool)
    ensures
        r == ws_char(c),
{
    c.is_whitespace()
}

/// Relies on `char::is_alphanumeric`: the Unicode `Alphabetic` and
/// `Nd`/`Nl`/`No` properties, a function of the character alone.
#[verifier::external_body]
pub fn char_is_alphanumeric(c: char) -> (r: bool)
    ensures
        r == alnum_char(c),
{
    c.is_alphanumeric()
}

/// Relies on `str::to_lowercase`: the Unicode lowercase equivalent,
/// a function of the characters alone; an empty string stays empty.
#[verifier::external_body]
pub fn to_lowercase(s: &str) -> (r: String)
    ensures
        r@ == lower_of(s@),
        s@.len() == 0 ==> r@.len() == 0,
{
    s.to_lowercase()
}

/// The sequence with its longest all-whitespace prefix removed.
pub open spec fn trim_front_spec(s: Seq<char>) -> Seq<char>
    decreases s.len(),
{
    if s.len() > 0 && ws_char(s[0]) {
        trim_front_spec(s.drop_first())
    } else {
        s
    }
}

/// The sequence with its longest all-whitespace suffix removed.
pub open spec fn trim_back_spec(s: Seq<char>) -> Seq<char>
    decreases s.len(),
{
    if s.len() > 0 && ws_char(s.last()) {
        trim_back_spec(s.drop_last())
    } else {
        s
    }
}

/// Whitespace removed from both ends, as `str::trim` does.
pub open spec fn trim_spec(s: Seq<char>) -> Seq<char> {
    trim_back_spec(trim_front_spec(s))
}

proof fn lemma_trim_front_subrange(s: Seq<char>, i: int)
    requires
        0 <= i <= s.len(),
        forall|k: int| 0 <= k < i ==> ws_char(s[k]),
        i < s.len() ==> !ws_char(s[i]),
    ensures
        trim_front_spec(s) =~= s.subrange(i, s.len() as int),
    decreases i,
{
    if i == 0 {
        if s.len() > 0 && ws_char(s[0]) {
            assert(false);
        }
    } else {
        let t = s.drop_first();
        assert(ws_char(s[0]));
        assert(forall|k: int| 0 <= k < i - 1 ==> ws_char(#[trigger] t[k]) && t[k] == s[k + 1]);
        lemma_trim_front_subrange(t, i - 1);
        assert(t.subrange(i - 1, t.len() as int) =~= s.subrange(i, s.len() as int));
    }
}

proof fn lemma_trim_back_subrange(s: Seq<char>, j: int)
    requires
        0 <= j <= s.len(),
        forall|k: int| j <= k < s.len() ==> ws_char(s[k]),
        j > 0 ==> !ws_char(s[j - 1]),
    ensures
        trim_back_spec(s) =~= s.subrange(0, j),
    decreases s.len() - j,
{
    if j == s.len() {
        if s.len() > 0 && ws_char(s.last()) {
            let t = s.drop_last();
            lemma_trim_back_subrange(t, j - 1);
            assert(t.subrange(0, j - 1) =~= s.subrange(0, j - 1));
        }
    } else {
        assert(ws_char(s.last()));
        let t = s.drop_last();
        lemma_trim_back_subrange(t, j);
        assert(t.subrange(0, j) =~= s.subrange(0, j));
    }
}

/// A copy of `s` with leading and trailing whitespace removed.
pub fn trim_to_string(s: &str) -> (r: String)
    ensures
        r@ == trim_spec(s@),
{
    let n = s.unicode_len();
    let mut i: usize = 0;
    while i < n && char_is_whitespace(s.get_char(i))
        invariant
            0 <= i <= n,
            n == s@.len(),
            forall|k: int| 0 <= k < i ==> ws_char(s@[k]),
        decreases n - i,
    {
        i = i + 1;
    }
    let mut j: usize = n;
    while j > i && char_is_whitespace(s.get_char(j - 1))
        invariant
            i <= j <= n,
            n == s@.len(),
            forall|k: int| 0 <= k < i ==> ws_char(s@[k]),
            i < s@.len() ==> !ws_char(s@[i as int]),
            forall|k: int| j <= k < n ==> ws_char(s@[k]),
        decreases j,
    {
        j = j - 1;
    }
    let r = s.substring_char(i, j).to_owned();
    proof {
        lemma_trim_front_subrange(s@, i as int);
        let f = s@.subrange(i as int, s@.len() as int);
        if j > i {
            lemma_trim_back_subrange(f, j - i as int);
        } else {
            lemma_trim_back_subrange(f, 0);
        }
        assert(f.subrange(0, j - i as int) =~= s@.subrange(i as int, j as int));
    }
    r
}

/// Character-for-character string equality.
pub fn str_eq(a: &str, b: &str) -> (r: bool)
    ensures
        r == (a@ == b@),
{
    let na = a.unicode_len();
    let nb = b.unicode_len();
    if na != nb {
        proof {
            assert(a@ != b@);
        }
        return false;
    }
    let mut i: usize = 0;
    while i < na
        invariant
            0 <= i <= na,
            na == a@.len(),
            na == b@.len(),
            forall|k: int| 0 <= k < i ==> a@[k] == b@[k],
        decreases na - i,
    {
        if a.get_char(i) != b.get_char(i) {
            proof {
                assert(a@[i as int] != b@[i as int]);
            }
            return false;
        }
        i = i + 1;
    }
    proof {
        assert(a@ =~= b@);
    }
    true
}

/// Whether `p` is a prefix of `s`.
pub fn str_starts_with(s: &str, p: &str) -> (r: bool)
    ensures
        r == p@.is_prefix_of(s@),
{
    let ns = s.unicode_len();
    let np = p.unicode_len();
    if np > ns {
        return false;
    }
    let mut i: usize = 0;
    while i < np
        invariant
            0 <= i <= np,
            np == p@.len(),
            ns == s@.len(),
            np <= ns,
            forall|k: int| 0 <= k < i ==> s@[k] == p@[k],
        decreases np - i,
    {
        if s.get_char(i) != p.get_char(i) {
            proof {
                assert(!p@.is_prefix_of(s@)) by {
                    assert(s@.subrange(0, p@.len() as int)[i as int] != p@[i as int]);
                }
            }
            return false;
        }
        i = i + 1;
    }
    proof {
        assert(s@.subrange(0, p@.len() as int) =~= p@);
    }
    true
}

/// The sequence with every trailing occurrence of `c` removed.
pub open spec fn trim_end_char_spec(s: Seq<char>, c: char) -> Seq<char>
    decreases s.len(),
{
    if s.len() > 0 && s.last() == c {
        trim_end_char_spec(s.drop_last(), c)
    } else {
        s
    }
}

proof fn lemma_trim_end_char_subrange(s: Seq<char>, c: char, j: int)
    requires
        0 <= j <= s.len(),
        forall|k: int| j <= k < s.len() ==> s[k] == c,
        j > 0 ==> s[j - 1] != c,
    ensures
        trim_end_char_spec(s, c) =~= s.subrange(0, j),
    decreases s.len() - j,
{
    if j == s.len() {
        if s.len() > 0 && s.last() == c {
            let t = s.drop_last();
            lemma_trim_end_char_subrange(t, c, j - 1);
            assert(t.subrange(0, j - 1) =~= s.subrange(0, j - 1));
        }
    } else {
        let t = s.drop_last();
        lemma_trim_end_char_subrange(t, c, j);
        assert(t.subrange(0, j) =~= s.subrange(0, j));
    }
}

/// A copy of `s` with every trailing occurrence of `c` removed.
pub fn trim_end_char(s: &str, c: char) -> (r: String)
    ensures
        r@ == trim_end_char_spec(s@, c),
{
    let n = s.unicode_len();
    let mut j: usize = n;
    while j > 0 && s.get_char(j - 1) == c
        invariant
            0 <= j <= n,
            n == s@.len(),
            forall|k: int| j <= k < n ==> s@[k] == c,
        decreases j,
    {
        j = j - 1;
    }
    let r = s.substring_char(0, j).to_owned();
    proof {
        lemma_trim_end_char_subrange(s@, c, j as int);
    }
    r
}

/// The decimal digit characters, least significant last, of `n`.
pub open spec fn dec_spec(n: nat) -> Seq<char>
    decreases n,
{
    if n < 10 {
        seq![digit_char(n)]
    } else {
        dec_spec(n / 10).push(digit_char(n % 10))
    }
}

/// The character for a single decimal digit.
pub open spec fn digit_char(d: nat) -> char {
    "0123456789"@[d as int]
}

/// Renders `n` in decimal.
pub fn u64_to_dec(n: u64) -> (r: String)
    ensures
        r@ == dec_spec(n as nat),
    decreases n,
{
    let digits = "0123456789";
    proof {
        reveal_strlit("0123456789");
    }
    if n < 10 {
        let r = digits.substring_char(n as usize, n as usize + 1).to_owned();
        proof {
            assert(r@ =~= seq![digit_char(n as nat)]);
        }
        r
    } else {
        let mut r = u64_to_dec(n / 10);
        let d = (n % 10) as usize;
        r.append(digits.substring_char(d, d + 1));
        proof {
            assert(digits@.subrange(d as int, d + 1) =~= seq![digit_char((n % 10) as nat)]);
            assert(r@ =~= dec_spec((n / 10) as nat).push(digit_char((n % 10) as nat)));
        }
        r
    }
}

/// The numeric value of a run of decimal digit characters.
pub open spec fn digits_val(s: Seq<char>) -> int
    decreases s.len(),
{
    if s.len() == 0 {
        0
    } else {
        digits_val(s.drop_last()) * 10 + (s.last() as int - '0' as int)
    }
}

/// Whether every character is a decimal digit.
pub open spec fn all_digits(s: Seq<char>) -> bool {
    forall|i: int| 0 <= i < s.len() ==> '0' <= #[trigger] s[i] <= '9'
}

/// Parses a non-empty all-digit string as a `u64`; anything else,
/// including a value too large for `u64`, yields `None`.
pub fn parse_u64(s: &str) -> (r: Option<u64>)
    ensures
        s@.len() > 0 && all_digits(s@) && digits_val(s@) <= u64::MAX ==> r == Some(
            digits_val(s@) as u64,
        ),
        !(s@.len() > 0 && all_digits(s@) && digits_val(s@) <= u64::MAX) ==> r is None,
{
    let n = s.unicode_len();
    if n == 0 {
        return None;
    }
    let mut acc: u64 = 0;
    let mut i: usize = 0;
    while i < n
        invariant
            0 < n == s@.len(),
            0 <= i <= n,
            all_digits(s@.take(i as int)),
            acc == digits_val(s@.take(i as int)),
        decreases n - i,
    {
        let c = s.get_char(i);
        if !('0' <= c && c <= '9') {
            proof {
                assert(!all_digits(s@));
            }
            return None;
        }
        let d: u64 = (c as u32 as u64) - ('0' as u32 as u64);
        proof {
            assert(s@.take(i + 1).drop_last() =~= s@.take(i as int));
            assert(s@.take(i + 1).last() == s@[i as int]);
        }
        if acc > (u64::MAX - d) / 10 {
            proof {
                assert(acc * 10 + d > u64::MAX) by (nonlinear_arith)
                    requires
                        acc > (u64::MAX - d) / 10,
                        0 <= d <= 9,
                ;
                if all_digits(s@) {
                    lemma_digits_val_monotone(s@.take(i + 1), s@);
                }
            }
            return None;
        }
        acc = acc * 10 + d;
        i = i + 1;
    }
    proof {
        assert(s@.take(n as int) =~= s@);
    }
    Some(acc)
}

pub proof fn lemma_digits_val_nonneg(s: Seq<char>)
    requires
        all_digits(s),
    ensures
        digits_val(s) >= 0,
    decreases s.len(),
{
    if s.len() > 0 {
        assert(all_digits(s.drop_last()));
        lemma_digits_val_nonneg(s.drop_last());
    }
}

/// A digit run's value never shrinks when the run is extended.
proof fn lemma_digits_val_monotone(p: Seq<char>, s: Seq<char>)
    requires
        all_digits(s),
        p.len() <= s.len(),
        p =~= s.take(p.len() as int),
    ensures
        digits_val(p) <= digits_val(s),
    decreases s.len() - p.len(),
{
    if p.len() < s.len() {
        let q = s.take(p.len() as int + 1);
        assert(all_digits(q));
        assert(q.drop_last() =~= p);
        assert(all_digits(p));
        lemma_digits_val_nonneg(p);
        assert(digits_val(q) == digits_val(p) * 10 + (q.last() as int - '0' as int));
        assert(digits_val(p) * 10 >= digits_val(p)) by (nonlinear_arith)
            requires
                digits_val(p) >= 0,
        ;
        lemma_digits_val_monotone(q, s);
    } else {
        assert(s.take(p.len() as int) =~= s);
    }
}

/// The views of a run of strings.
pub open spec fn string_views(v: Seq<String>) -> Seq<Seq<char>> {
    v.map_values(|s: String| s@)
}

/// The smallest index at or after `i` where the adjacent pair `(a, b)`
/// occurs; `s.len()` when it never does.
pub open spec fn find_pair_from<T>(s: Seq<T>, a: T, b: T, i: int) -> int
    decreases s.len() - i,
{
    if i < 0 || i + 1 >= s.len() {
        s.len() as int
    } else if s[i] == a && s[i + 1] == b {
        i
    } else {
        find_pair_from(s, a, b, i + 1)
    }
}

pub proof fn lemma_find_pair_from_range<T>(s: Seq<T>, a: T, b: T, i: int)
    requires
        0 <= i <= s.len(),
    ensures
        i <= find_pair_from(s, a, b, i) <= s.len(),
        find_pair_from(s, a, b, i) < s.len() ==> find_pair_from(s, a, b, i) + 1 < s.len()
            && s[find_pair_from(s, a, b, i)] == a && s[find_pair_from(s, a, b, i) + 1] == b,
    decreases s.len() - i,
{
    if !(i + 1 >= s.len()) && !(s[i] == a && s[i + 1] == b) {
        lemma_find_pair_from_range(s, a, b, i + 1);
    }
}

/// The smallest index at or after `i` where `a` occurs; `s.len()` when
/// it never does.
pub open spec fn find_one_from<T>(s: Seq<T>, a: T, i: int) -> int
    decreases s.len() - i,
{
    if i < 0 || i >= s.len() {
        s.len() as int
    } else if s[i] == a {
        i
    } else {
        find_one_from(s, a, i + 1)
    }
}

pub proof fn lemma_find_one_from_range<T>(s: Seq<T>, a: T, i: int)
    requires
        0 <= i <= s.len(),
    ensures
        i <= find_one_from(s, a, i) <= s.len(),
        find_one_from(s, a, i) < s.len() ==> s[find_one_from(s, a, i)] == a,
    decreases s.len() - i,
{
    if i < s.len() && s[i] != a {
        lemma_find_one_from_range(s, a, i + 1);
    }
}

/// The pieces of `s` from `start` on, split at each non-overlapping,
/// leftmost-first occurrence of the adjacent pair `(a, b)`.
pub open spec fn split_on_pair_from<T>(s: Seq<T>, a: T, b: T, start: int) -> Seq<Seq<T>>
    decreases s.len() - start,
    via split_on_pair_from_decreases::<T>
{
    if start < 0 || start > s.len() {
        seq![]
    } else {
        let i = find_pair_from(s, a, b, start);
        if i >= s.len() {
            seq![s.subrange(start, s.len() as int)]
        } else {
            seq![s.subrange(start, i)] + split_on_pair_from(s, a, b, i + 2)
        }
    }
}

#[via_fn]
proof fn split_on_pair_from_decreases<T>(s: Seq<T>, a: T, b: T, start: int) {
    if 0 <= start <= s.len() {
        lemma_find_pair_from_range(s, a, b, start);
    }
}

/// `s` split at each occurrence of the adjacent pair `(a, b)`.
pub open spec fn split_on_pair<T>(s: Seq<T>, a: T, b: T) -> Seq<Seq<T>> {
    split_on_pair_from(s, a, b, 0)
}

/// The pieces of `s` from `start` on, split at each occurrence of `a`.
pub open spec fn split_on_one_from<T>(s: Seq<T>, a: T, start: int) -> Seq<Seq<T>>
    decreases s.len() - start,
    via split_on_one_from_decreases::<T>
{
    if start < 0 || start > s.len() {
        seq![]
    } else {
        let i = find_one_from(s, a, start);
        if i >= s.len() {
            seq![s.subrange(start, s.len() as int)]
        } else {
            seq![s.subrange(start, i)] + split_on_one_from(s, a, i + 1)
        }
    }
}

#[via_fn]
proof fn split_on_one_from_decreases<T>(s: Seq<T>, a: T, start: int) {
    if 0 <= start <= s.len() {
        lemma_find_one_from_range(s, a, start);
    }
}

/// `s` split at each occurrence of `a`.
pub open spec fn split_on_one<T>(s: Seq<T>, a: T) -> Seq<Seq<T>> {
    split_on_one_from(s, a, 0)
}

/// Each piece trimmed, blank pieces dropped, order kept.
pub open spec fn nonblank_trimmed(parts: Seq<Seq<char>>) -> Seq<Seq<char>>
    decreases parts.len(),
{
    if parts.len() == 0 {
        Seq::<Seq<char>>::empty()
    } else {
        let rest = nonblank_trimmed(parts.drop_last());
        let t = trim_spec(parts.last());
        if t.len() > 0 {
            rest.push(t)
        } else {
            rest
        }
    }
}

/// Trims every piece and drops the blank ones.
#[verifier::loop_isolation(false)]
pub fn trim_nonblank(parts: Vec<String>) -> (r: Vec<String>)
    ensures
        string_views(r@) =~= nonblank_trimmed(string_views(parts@)),
{
    let n = parts.len();
    let mut out: Vec<String> = Vec::new();
    let mut i: usize = 0;
    while i < n
        invariant
            0 <= i <= n,
            string_views(out@) =~= nonblank_trimmed(string_views(parts@).take(i as int)),
        decreases n - i,
    {
        let ghost pre_take = string_views(parts@).take(i as int);
        let ghost now_take = string_views(parts@).take(i + 1);
        proof {
            assert(now_take.drop_last() =~= pre_take);
            assert(now_take.last() == parts@[i as int]@);
        }
        let t = trim_to_string(parts[i].as_str());
        if t.unicode_len() > 0 {
            let ghost pre_out = out@;
            out.push(t);
            proof {
                assert(string_views(out@) =~= string_views(pre_out).push(
                    trim_spec(parts@[i as int]@),
                ));
            }
        }
        i = i + 1;
    }
    proof {
        assert(string_views(parts@).take(n as int) =~= string_views(parts@));
    }
    out
}

/// Splits at each occurrence of `c`, keeping the raw pieces.
#[verifier::loop_isolation(false)]
pub fn split_char(s: &str, c: char) -> (r: Vec<String>)
    ensures
        string_views(r@) =~= split_on_one(s@, c),
{
    let n = s.unicode_len();
    let mut parts: Vec<String> = Vec::new();
    let mut start: usize = 0;
    loop
        invariant
            0 <= start <= n,
            n == s@.len(),
            split_on_one(s@, c) =~= string_views(parts@) + split_on_one_from(
                s@,
                c,
                start as int,
            ),
        decreases n - start + 1,
    {
        proof {
            lemma_find_one_from_range(s@, c, start as int);
        }
        let mut f: usize = start;
        while f < n && s.get_char(f) != c
            invariant
                start <= f <= n,
                n == s@.len(),
                find_one_from(s@, c, start as int) == find_one_from(s@, c, f as int),
            decreases n - f,
        {
            f = f + 1;
        }
        let ghost pre = parts@;
        if f < n {
            proof {
                assert(find_one_from(s@, c, start as int) == f as int);
            }
            parts.push(s.substring_char(start, f).to_owned());
            proof {
                assert(string_views(parts@) =~= string_views(pre).push(
                    s@.subrange(start as int, f as int),
                ));
            }
            start = f + 1;
        } else {
            proof {
                assert(find_one_from(s@, c, start as int) == s@.len());
            }
            parts.push(s.substring_char(start, n).to_owned());
            proof {
                assert(string_views(parts@) =~= string_views(pre).push(
                    s@.subrange(start as int, n as int),
                ));
                assert(string_views(pre).push(s@.subrange(start as int, n as int))
                    =~= string_views(pre) + seq![s@.subrange(start as int, n as int)]);
            }
            return parts;
        }
    }
}

/// Whether `n` occurs as a contiguous subsequence of `h`.
pub open spec fn contains_seq(h: Seq<char>, n: Seq<char>) -> bool {
    exists|i: int| 0 <= i <= h.len() - n.len() && #[trigger] h.subrange(i, i + n.len()) =~= n
}

/// Substring search: whether `needle` occurs anywhere in `hay`.
pub fn str_contains(hay: &str, needle: &str) -> (r: bool)
    ensures
        r == contains_seq(hay@, needle@),
{
    let nh = hay.unicode_len();
    let nn = needle.unicode_len();
    if nn > nh {
        return false;
    }
    let mut i: usize = 0;
    while i <= nh - nn
        invariant
            0 <= i <= nh - nn + 1,
            nn <= nh,
            nh == hay@.len(),
            nn == needle@.len(),
            forall|q: int|
                0 <= q < i ==> #[trigger] hay@.subrange(q, q + needle@.len()) !~= needle@,
        decreases nh - nn - i + 1,
    {
        let mut j: usize = 0;
        let mut matched = true;
        while j < nn
            invariant
                0 <= j <= nn,
                0 <= i <= nh - nn,
                nh == hay@.len(),
                nn == needle@.len(),
                matched == (forall|k: int| 0 <= k < j ==> hay@[i + k] == needle@[k]),
            decreases nn - j,
        {
            if hay.get_char(i + j) != needle.get_char(j) {
                proof {
                    assert(hay@[i + j] != needle@[j as int]);
                }
                matched = false;
                j = nn;
            } else {
                j = j + 1;
            }
        }
        if matched {
            proof {
                assert(hay@.subrange(i as int, i + needle@.len()) =~= needle@);
            }
            return true;
        }
        proof {
            if hay@.subrange(i as int, i + needle@.len()) =~= needle@ {
                let w = choose|k: int| 0 <= k < nn && hay@[i + k] != needle@[k];
                assert(hay@.subrange(i as int, i + needle@.len())[w] == hay@[i + w]);
            }
        }
        i = i + 1;
    }
    proof {
        if contains_seq(hay@, needle@) {
            let q = choose|q: int|
                0 <= q <= hay@.len() - needle@.len() && #[trigger] hay@.subrange(
                    q,
                    q + needle@.len(),
                ) =~= needle@;
            assert(hay@.subrange(q, q + needle@.len()) !~= needle@);
        }
    }
    false
}

} // verus!
