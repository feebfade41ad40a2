//! Verified string utilities: case folding, substring search, trimming
//! and character-escaping, with exact sequence-level specifications.

use vstd::prelude::*;

verus! {

/// ASCII lower-casing of one character; everything outside 'A'..='Z'
/// is left unchanged.
pub open spec fn lower_char(c: char) -> char {
    match c {
        'A' => 'a',
        'B' => 'b',
        'C' => 'c',
        'D' => 'd',
        'E' => 'e',
        'F' => 'f',
        'G' => 'g',
        'H' => 'h',
        'I' => 'i',
        'J' => 'j',
        'K' => 'k',
        'L' => 'l',
        'M' => 'm',
        'N' => 'n',
        'O' => 'o',
        'P' => 'p',
        'Q' => 'q',
        'R' => 'r',
        'S' => 's',
        'T' => 't',
        'U' => 'u',
        'V' => 'v',
        'W' => 'w',
        'X' => 'x',
        'Y' => 'y',
        'Z' => 'z',
        _ => c,
    }
}

pub open spec fn lower_seq(s: Seq<char>) -> Seq<char> {
    s.map_values(|c: char| lower_char(c))
}

/// Lower-casing is idempotent.
pub proof fn lemma_lower_char_idempotent(c: char)
    ensures
        lower_char(lower_char(c)) == lower_char(c),
{
}

pub proof fn lemma_lower_seq_idempotent(s: Seq<char>)
    ensures
        lower_seq(lower_seq(s)) == lower_seq(s),
{
    assert(lower_seq(lower_seq(s)) =~= lower_seq(s)) by {
        assert forall|i: int| 0 <= i < s.len() implies lower_seq(lower_seq(s))[i] == lower_seq(
            s,
        )[i] by {
            lemma_lower_char_idempotent(s[i]);
        }
    }
}

/// The needle `n` occurs in `h` starting at position `i`.
pub open spec fn contains_at(h: Seq<char>, n: Seq<char>, i: int) -> bool {
    &&& 0 <= i
    &&& i + n.len() <= h.len()
    &&& forall|j: int| 0 <= j < n.len() ==> h[i + j] == n[j]
}

/// The needle `n` occurs somewhere in `h` (substring containment).
pub open spec fn spec_contains(h: Seq<char>, n: Seq<char>) -> bool {
    exists|i: int| contains_at(h, n, i)
}

/// The views of an optional string.
pub open spec fn opt_string_view(o: Option<String>) -> Option<Seq<char>> {
    match o {
        Some(s) => Some(s@),
        None => None,
    }
}

/// `h` starts with the prefix `n`.
pub open spec fn spec_starts_with(h: Seq<char>, n: Seq<char>) -> bool {
    &&& n.len() <= h.len()
    &&& forall|j: int| 0 <= j < n.len() ==> h[j] == n[j]
}

pub fn lower_char_exec(c: char) -> (r: char)
    ensures
        r == lower_char(c),
{
    match c {
        'A' => 'a',
        'B' => 'b',
        'C' => 'c',
        'D' => 'd',
        'E' => 'e',
        'F' => 'f',
        'G' => 'g',
        'H' => 'h',
        'I' => 'i',
        'J' => 'j',
        'K' => 'k',
        'L' => 'l',
        'M' => 'm',
        'N' => 'n',
        'O' => 'o',
        'P' => 'p',
        'Q' => 'q',
        'R' => 'r',
        'S' => 's',
        'T' => 't',
        'U' => 'u',
        'V' => 'v',
        'W' => 'w',
        'X' => 'x',
        'Y' => 'y',
        'Z' => 'z',
        _ => c,
    }
}

/// The characters of `s`, in order.
pub fn chars_vec(s: &str) -> (r: Vec<char>)
    ensures
        r@ == s@,
{
    let n: usize = s.unicode_len();
    let mut r: Vec<char> = Vec::new();
    let mut i: usize = 0;
    while i < n
        invariant
            n == s@.len(),
            i <= n,
            r@ == s@.subrange(0, i as int),
        decreases n - i,
    {
        let c = s.get_char(i);
        r.push(c);
        i = i + 1;
        assert(r@ =~= s@.subrange(0, i as int));
    }
    assert(r@ =~= s@);
    r
}

/// The characters of `s`, ASCII lower-cased.
pub fn lower_chars_vec(s: &str) -> (r: Vec<char>)
    ensures
        r@ == lower_seq(s@),
{
    let n: usize = s.unicode_len();
    let mut r: Vec<char> = Vec::new();
    let mut i: usize = 0;
    while i < n
        invariant
            n == s@.len(),
            i <= n,
            r@ == lower_seq(s@.subrange(0, i as int)),
        decreases n - i,
    {
        let c = s.get_char(i);
        r.push(lower_char_exec(c));
        i = i + 1;
        assert(r@ =~= lower_seq(s@.subrange(0, i as int)));
    }
    assert(r@ =~= lower_seq(s@));
    r
}

/// Whether the needle occurs in `h` starting exactly at `i`.
pub fn matches_at(h: &Vec<char>, n: &str, i: usize) -> (r: bool)
    requires
        i + n@.len() <= h@.len(),
    ensures
        r == contains_at(h@, n@, i as int),
{
    let m: usize = n.unicode_len();
    let hl: usize = h.len();
    let mut j: usize = 0;
    while j < m
        invariant
            m == n@.len(),
            j <= m,
            hl == h@.len(),
            i + m <= h@.len(),
            forall|k: int| 0 <= k < j ==> h@[i + k] == n@[k],
        decreases m - j,
    {
        if h[i + j] != n.get_char(j) {
            return false;
        }
        j = j + 1;
    }
    true
}

/// Substring containment of `n` in the character vector `h`.
pub fn vec_contains_str(h: &Vec<char>, n: &str) -> (r: bool)
    ensures
        r == spec_contains(h@, n@),
{
    let hn: usize = h.len();
    let m: usize = n.unicode_len();
    if m > hn {
        assert(!spec_contains(h@, n@));
        return false;
    }
    let mut i: usize = 0;
    while i <= hn - m
        invariant
            m == n@.len(),
            m <= hn,
            hn == h@.len(),
            i <= hn - m + 1,
            forall|p: int| 0 <= p < i ==> !contains_at(h@, n@, p),
        decreases hn - i,
    {
        if matches_at(h, n, i) {
            return true;
        }
        i = i + 1;
    }
    assert forall|p: int| !contains_at(h@, n@, p) by {
        if p >= i {
            assert(p + n@.len() > h@.len());
        }
    }
    false
}

/// Substring containment on string slices.
pub fn str_contains(h: &str, n: &str) -> (r: bool)
    ensures
        r == spec_contains(h@, n@),
{
    let hv = chars_vec(h);
    vec_contains_str(&hv, n)
}

/// Exact equality of two string slices.
pub fn str_eq(a: &str, b: &str) -> (r: bool)
    ensures
        r == (a@ == b@),
{
    let n: usize = a.unicode_len();
    if n != b.unicode_len() {
        return false;
    }
    let mut i: usize = 0;
    while i < n
        invariant
            n == a@.len(),
            n == b@.len(),
            i <= n,
            forall|k: int| 0 <= k < i ==> a@[k] == b@[k],
        decreases n - i,
    {
        if a.get_char(i) != b.get_char(i) {
            return false;
        }
        i = i + 1;
    }
    assert(a@ =~= b@);
    true
}

/// The characters Rust's `char::is_whitespace` accepts.
pub open spec fn is_space(c: char) -> bool {
    ||| c == ' '
    ||| c == '\t'
    ||| c == '\n'
    ||| c == '\r'
    ||| c == '\u{000B}'
    ||| c == '\u{000C}'
    ||| c == '\u{0085}'
    ||| c == '\u{00A0}'
    ||| c == '\u{1680}'
    ||| ('\u{2000}' <= c && c <= '\u{200A}')
    ||| c == '\u{2028}'
    ||| c == '\u{2029}'
    ||| c == '\u{202F}'
    ||| c == '\u{205F}'
    ||| c == '\u{3000}'
}

pub fn is_space_exec(c: char) -> (r: bool)
    ensures
        r == is_space(c),
{
    c == ' ' || c == '\t' || c == '\n' || c == '\r' || c == '\u{000B}' || c == '\u{000C}' || c
        == '\u{0085}' || c == '\u{00A0}' || c == '\u{1680}' || ('\u{2000}' <= c && c <= '\u{200A}')
        || c == '\u{2028}' || c == '\u{2029}' || c == '\u{202F}' || c == '\u{205F}' || c
        == '\u{3000}'
}

/// `s` with leading whitespace dropped.
pub open spec fn trim_front(s: Seq<char>) -> Seq<char>
    decreases s.len(),
{
    if s.len() > 0 && is_space(s[0]) {
        trim_front(s.drop_first())
    } else {
        s
    }
}

/// `s` with trailing whitespace dropped.
pub open spec fn trim_back(s: Seq<char>) -> Seq<char>
    decreases s.len(),
{
    if s.len() > 0 && is_space(s[s.len() - 1]) {
        trim_back(s.drop_last())
    } else {
        s
    }
}

/// `s` with both leading and trailing whitespace dropped, as `str::trim`
/// leaves it.
pub open spec fn trim_spec(s: Seq<char>) -> Seq<char> {
    trim_back(trim_front(s))
}

/// The string contains nothing but whitespace exactly when dropping its
/// leading whitespace leaves it empty.
pub proof fn lemma_trim_front_all_space(s: Seq<char>)
    ensures
        (trim_front(s).len() == 0) <==> (forall|i: int| 0 <= i < s.len() ==> is_space(s[i])),
    decreases s.len(),
{
    if s.len() == 0 {
    } else if is_space(s[0]) {
        let t = s.drop_first();
        lemma_trim_front_all_space(t);
        if trim_front(s).len() == 0 {
            assert forall|i: int| 0 <= i < s.len() implies is_space(s[i]) by {
                if i >= 1 {
                    assert(t[i - 1] == s[i]);
                    assert(is_space(t[i - 1]));
                }
            }
        } else {
            if forall|i: int| 0 <= i < s.len() ==> is_space(s[i]) {
                assert forall|i: int| 0 <= i < t.len() implies is_space(t[i]) by {
                    assert(t[i] == s[i + 1]);
                    assert(is_space(s[i + 1]));
                }
                assert(trim_front(t).len() == 0);
                assert(false);
            }
        }
    } else {
        assert(!is_space(s[0]));
    }
}

pub proof fn lemma_trim_back_empty(s: Seq<char>)
    ensures
        (trim_back(s).len() == 0) <==> (forall|i: int| 0 <= i < s.len() ==> is_space(s[i])),
    decreases s.len(),
{
    if s.len() == 0 {
    } else if is_space(s[s.len() - 1]) {
        let t = s.drop_last();
        lemma_trim_back_empty(t);
        if trim_back(s).len() == 0 {
            assert forall|i: int| 0 <= i < s.len() implies is_space(s[i]) by {
                if i < s.len() - 1 {
                    assert(t[i] == s[i]);
                    assert(is_space(t[i]));
                }
            }
        } else {
            if forall|i: int| 0 <= i < s.len() ==> is_space(s[i]) {
                assert forall|i: int| 0 <= i < t.len() implies is_space(t[i]) by {
                    assert(t[i] == s[i]);
                    assert(is_space(s[i]));
                }
                assert(trim_back(t).len() == 0);
                assert(false);
            }
        }
    } else {
        assert(!is_space(s[s.len() - 1]));
    }
}

/// `trim_front` keeps a suffix of the string, what it drops is
/// whitespace, and what it keeps starts with a non-space.
pub proof fn lemma_trim_front_is_suffix(s: Seq<char>)
    ensures
        trim_front(s).len() <= s.len(),
        trim_front(s) =~= s.subrange(s.len() - trim_front(s).len(), s.len() as int),
        forall|i: int| 0 <= i < s.len() - trim_front(s).len() ==> is_space(s[i]),
        trim_front(s).len() > 0 ==> !is_space(trim_front(s)[0]),
    decreases s.len(),
{
    if s.len() > 0 && is_space(s[0]) {
        let t = s.drop_first();
        lemma_trim_front_is_suffix(t);
        let k = trim_front(s).len() as int;
        assert(trim_front(s) == trim_front(t));
        assert forall|j: int| 0 <= j < k implies trim_front(s)[j] == s.subrange(
            s.len() - k,
            s.len() as int,
        )[j] by {
            assert(trim_front(t)[j] == t.subrange(t.len() - k, t.len() as int)[j]);
            assert(t[t.len() - k + j] == s[s.len() - k + j]);
        }
        assert forall|i: int| 0 <= i < s.len() - k implies is_space(s[i]) by {
            if i >= 1 {
                assert(s[i] == t[i - 1]);
                assert(is_space(t[i - 1]));
            }
        }
    }
}

pub proof fn lemma_trim_back_is_prefix(s: Seq<char>)
    ensures
        trim_back(s).len() <= s.len(),
        trim_back(s) =~= s.subrange(0, trim_back(s).len() as int),
        forall|i: int| trim_back(s).len() <= i < s.len() ==> is_space(s[i]),
        trim_back(s).len() > 0 ==> !is_space(trim_back(s)[trim_back(s).len() - 1]),
    decreases s.len(),
{
    if s.len() > 0 && is_space(s[s.len() - 1]) {
        let t = s.drop_last();
        lemma_trim_back_is_prefix(t);
        let k = trim_back(s).len() as int;
        assert(trim_back(s) == trim_back(t));
        assert forall|j: int| 0 <= j < k implies trim_back(s)[j] == s.subrange(0, k)[j] by {
            assert(trim_back(t)[j] == t.subrange(0, k)[j]);
            assert(t[j] == s[j]);
        }
        assert forall|i: int| k <= i < s.len() implies is_space(s[i]) by {
            if i < s.len() - 1 {
                assert(s[i] == t[i]);
                assert(is_space(t[i]));
            }
        }
        if k > 0 {
            assert(trim_back(s)[k - 1] == trim_back(t)[k - 1]);
        }
    }
}

pub proof fn lemma_blank_iff_trim_empty(s: Seq<char>)
    ensures
        (trim_spec(s).len() == 0) <==> (forall|i: int| 0 <= i < s.len() ==> is_space(s[i])),
{
    let f = trim_front(s);
    lemma_trim_front_all_space(s);
    lemma_trim_back_empty(f);
    lemma_trim_front_is_suffix(s);
    if trim_spec(s).len() == 0 {
        if f.len() > 0 {
            assert(is_space(f[0]));
            assert(false);
        }
    } else {
        if forall|i: int| 0 <= i < s.len() ==> is_space(s[i]) {
            assert(f.len() == 0);
            assert(false);
        }
    }
}

/// The trimmed characters of `s`, as `str::trim` would leave them.
pub fn trim_chars(s: &str) -> (r: Vec<char>)
    ensures
        r@ == trim_spec(s@),
{
    let v = chars_vec(s);
    let n: usize = v.len();
    let mut lo: usize = 0;
    while lo < n && is_space_exec(v[lo])
        invariant
            n == v.len(),
            v@ == s@,
            lo <= n,
            forall|i: int| 0 <= i < lo ==> is_space(s@[i]),
        decreases n - lo,
    {
        lo = lo + 1;
    }
    let mut hi: usize = n;
    while hi > lo && is_space_exec(v[hi - 1])
        invariant
            n == v.len(),
            v@ == s@,
            lo <= hi <= n,
            forall|i: int| 0 <= i < lo ==> is_space(s@[i]),
            forall|i: int| hi <= i < n ==> is_space(s@[i]),
        decreases hi,
    {
        hi = hi - 1;
    }
    let mut r: Vec<char> = Vec::new();
    let mut i: usize = lo;
    while i < hi
        invariant
            n == v.len(),
            v@ == s@,
            lo <= hi <= n,
            lo <= i <= hi,
            r@ == s@.subrange(lo as int, i as int),
        decreases hi - i,
    {
        r.push(v[i]);
        i = i + 1;
        assert(r@ =~= s@.subrange(lo as int, i as int));
    }
    proof {
        lemma_trim_segment(s@, lo as int, hi as int);
    }
    r
}

/// If everything before `lo` and after `hi` is whitespace, and the
/// boundary characters are not, the trim of `s` is exactly `s[lo..hi]`.
proof fn lemma_trim_segment(s: Seq<char>, lo: int, hi: int)
    requires
        0 <= lo <= hi <= s.len(),
        forall|i: int| 0 <= i < lo ==> is_space(s[i]),
        forall|i: int| hi <= i < s.len() ==> is_space(s[i]),
        lo < hi ==> !is_space(s[lo]),
        lo < hi ==> !is_space(s[hi - 1]),
        lo == hi ==> lo == s.len() || hi == 0,
    ensures
        trim_spec(s) =~= s.subrange(lo, hi),
{
    lemma_trim_front_is_suffix(s);
    if lo == hi {
        lemma_blank_iff_trim_empty(s);
        if lo == s.len() {
            assert(forall|i: int| 0 <= i < s.len() ==> is_space(s[i]));
        } else {
            assert(forall|i: int| 0 <= i < s.len() ==> is_space(s[i]));
        }
    } else {
        let f = trim_front(s);
        let drop = s.len() - f.len();
        assert(drop <= lo) by {
            if drop > lo {
                assert(is_space(s[lo]));
            }
        }
        assert(drop >= lo) by {
            if drop < lo {
                assert(f[lo - drop] == s[lo]);
                assert(is_space(f[0]) || f.len() == 0 || drop == lo) by {
                    if drop < lo {
                        assert(f[0] == s[drop]);
                        assert(is_space(s[drop]));
                    }
                }
            }
        }
        assert(f =~= s.subrange(lo, s.len() as int));
        lemma_trim_back_is_prefix(f);
        let b = trim_back(f);
        assert(b.len() <= hi - lo) by {
            if b.len() > hi - lo {
                assert(f[hi - lo] == s[hi]);
                assert(is_space(f[hi - lo]));
                assert(b =~= f.subrange(0, b.len() as int));
                assert(b[hi - lo] == f[hi - lo]);
                assert(!is_space(b[b.len() - 1]));
                assert(forall|i: int| hi - lo <= i < f.len() ==> is_space(f[i]));
                assert(is_space(b[b.len() - 1]));
            }
        }
        assert(b.len() >= hi - lo) by {
            if b.len() < hi - lo {
                assert(f[hi - lo - 1] == s[hi - 1]);
                assert(!is_space(f[hi - lo - 1]));
                assert(forall|i: int| b.len() <= i < f.len() ==> is_space(f[i]));
                assert(is_space(f[hi - lo - 1]));
            }
        }
        assert(b =~= s.subrange(lo, hi));
    }
}

/// Whether `s` is empty after trimming: nothing but whitespace.
pub fn str_is_blank(s: &str) -> (r: bool)
    ensures
        r == (trim_spec(s@).len() == 0),
{
    let n: usize = s.unicode_len();
    let mut i: usize = 0;
    while i < n
        invariant
            n == s@.len(),
            i <= n,
            forall|k: int| 0 <= k < i ==> is_space(s@[k]),
        decreases n - i,
    {
        if !is_space_exec(s.get_char(i)) {
            proof {
                lemma_blank_iff_trim_empty(s@);
            }
            return false;
        }
        i = i + 1;
    }
    proof {
        lemma_blank_iff_trim_empty(s@);
    }
    true
}

/// The image of one character under a character-to-string map, chained
/// over the whole string.
pub open spec fn map_concat(s: Seq<char>, f: spec_fn(char) -> Seq<char>) -> Seq<char>
    decreases s.len(),
{
    if s.len() == 0 {
        Seq::empty()
    } else {
        map_concat(s.drop_last(), f) + f(s.last())
    }
}

pub proof fn lemma_map_concat_push(s: Seq<char>, c: char, f: spec_fn(char) -> Seq<char>)
    ensures
        map_concat(s.push(c), f) =~= map_concat(s, f) + f(c),
{
    assert(s.push(c).drop_last() =~= s);
    assert(s.push(c).last() == c);
}

/// How one character is escaped inside a single-quoted script string:
/// a single quote gains a backslash.
pub open spec fn esc_squote_char(c: char) -> Seq<char> {
    if c == '\'' {
        seq!['\\', '\'']
    } else {
        seq![c]
    }
}

/// The whole-string single-quote escaping, `str::replace('\'', "\\'")`.
pub open spec fn esc_squote(s: Seq<char>) -> Seq<char> {
    map_concat(s, |c: char| esc_squote_char(c))
}

/// Escape single quotes for embedding in a single-quoted script literal.
pub fn escape_squotes(s: &str) -> (r: Vec<char>)
    ensures
        r@ == esc_squote(s@),
{
    let n: usize = s.unicode_len();
    let mut r: Vec<char> = Vec::new();
    let mut i: usize = 0;
    while i < n
        invariant
            n == s@.len(),
            i <= n,
            r@ == map_concat(s@.subrange(0, i as int), |c: char| esc_squote_char(c)),
        decreases n - i,
    {
        let c = s.get_char(i);
        if c == '\'' {
            r.push('\\');
            r.push('\'');
        } else {
            r.push(c);
        }
        proof {
            lemma_map_concat_push(
                s@.subrange(0, i as int),
                s@[i as int],
                |c: char| esc_squote_char(c),
            );
            assert(s@.subrange(0, i + 1) =~= s@.subrange(0, i as int).push(s@[i as int]));
        }
        i = i + 1;
    }
    assert(s@.subrange(0, n as int) =~= s@);
    r
}

/// How one character is escaped in a CSS selector value: backslash,
/// double quote and single quote each gain a backslash.
pub open spec fn esc_selector_char(c: char) -> Seq<char> {
    if c == '\\' {
        seq!['\\', '\\']
    } else if c == '"' {
        seq!['\\', '"']
    } else if c == '\'' {
        seq!['\\', '\'']
    } else {
        seq![c]
    }
}

pub open spec fn esc_selector(s: Seq<char>) -> Seq<char> {
    map_concat(s, |c: char| esc_selector_char(c))
}

/// The numeric value of a run of decimal digits.
pub open spec fn digit_val(c: char) -> int {
    match c {
        '0' => 0,
        '1' => 1,
        '2' => 2,
        '3' => 3,
        '4' => 4,
        '5' => 5,
        '6' => 6,
        '7' => 7,
        '8' => 8,
        '9' => 9,
        _ => -1,
    }
}

pub open spec fn is_digit(c: char) -> bool {
    digit_val(c) >= 0
}

pub open spec fn digits_val(s: Seq<char>) -> int
    decreases s.len(),
{
    if s.len() == 0 {
        0
    } else {
        digits_val(s.drop_last()) * 10 + digit_val(s.last())
    }
}

pub open spec fn digit_char_of(d: int) -> char {
    if d == 0 {
        '0'
    } else if d == 1 {
        '1'
    } else if d == 2 {
        '2'
    } else if d == 3 {
        '3'
    } else if d == 4 {
        '4'
    } else if d == 5 {
        '5'
    } else if d == 6 {
        '6'
    } else if d == 7 {
        '7'
    } else if d == 8 {
        '8'
    } else if d == 9 {
        '9'
    } else {
        '?'
    }
}

/// The decimal rendering of a non-negative integer, most significant
/// digit first, with no leading zeros (except for zero itself).
pub open spec fn dec_str(n: int) -> Seq<char>
    decreases n,
{
    if n < 10 {
        seq![digit_char_of(n)]
    } else {
        dec_str(n / 10).push(digit_char_of(n % 10))
    }
}

fn digit_char_exec(d: u64) -> (r: char)
    requires
        d < 10,
    ensures
        r == digit_char_of(d as int),
{
    match d {
        0 => '0',
        1 => '1',
        2 => '2',
        3 => '3',
        4 => '4',
        5 => '5',
        6 => '6',
        7 => '7',
        8 => '8',
        _ => '9',
    }
}

/// The decimal rendering of `n`.
pub fn u64_to_string(n: u64) -> (r: String)
    ensures
        r@ == dec_str(n as int),
{
    let mut rev: Vec<char> = Vec::new();
    let mut m: u64 = n;
    while m >= 10
        invariant
            dec_str(n as int) =~= dec_str(m as int) + Seq::new(
                rev@.len(),
                |i: int| rev@[rev@.len() - 1 - i],
            ),
        decreases m,
    {
        let d = m % 10;
        rev.push(digit_char_exec(d));
        proof {
            assert(dec_str(m as int) == dec_str(m as int / 10).push(digit_char_of(m as int % 10)));
            assert(dec_str(n as int) =~= dec_str((m / 10) as int) + Seq::new(
                rev@.len(),
                |i: int| rev@[rev@.len() - 1 - i],
            ));
        }
        m = m / 10;
    }
    let mut out: Vec<char> = Vec::new();
    out.push(digit_char_exec(m));
    let k: usize = rev.len();
    let mut j: usize = 0;
    while j < k
        invariant
            k == rev@.len(),
            j <= k,
            out@.len() == j + 1,
            out@[0] == digit_char_of(m as int),
            forall|i: int| 1 <= i <= j ==> out@[i] == rev@[k - i],
        decreases k - j,
    {
        out.push(rev[k - 1 - j]);
        j = j + 1;
    }
    proof {
        assert(out@ =~= dec_str(m as int) + Seq::new(
            rev@.len(),
            |i: int| rev@[rev@.len() - 1 - i],
        ));
    }
    string_from_chars(&out)
}

/// Relies on `FromIterator for String`: collecting a character vector
/// yields the string of exactly those characters.
#[verifier::external_body]
pub fn string_from_chars(v: &Vec<char>) -> (r: String)
    ensures
        r@ == v@,
{
    v.iter().collect()
}

/// Prefix test on string slices.
pub fn str_starts_with(h: &str, n: &str) -> (r: bool)
    ensures
        r == spec_starts_with(h@, n@),
{
    let m: usize = n.unicode_len();
    if m > h.unicode_len() {
        return false;
    }
    let mut j: usize = 0;
    while j < m
        invariant
            m == n@.len(),
            m <= h@.len(),
            j <= m,
            forall|k: int| 0 <= k < j ==> h@[k] == n@[k],
        decreases m - j,
    {
        if h.get_char(j) != n.get_char(j) {
            return false;
        }
        j = j + 1;
    }
    true
}

} // verus!
