//! Verified text utilities shared by the field splitter and the grammar
//! engine: character search, counting, whitespace trimming, prefix tests,
//! and the two trusted calls the grammar needs (Unicode lower-casing and
//! numeric-literal probing).

use vstd::prelude::*;
use vstd::string::*;

verus! {

/// The Unicode lower-case image of a character sequence, as
/// `str::to_lowercase` computes it.
pub uninterp spec fn lower_of(s: Seq<char>) -> Seq<char>;

/// Relies on `str::to_lowercase`: the result depends on the characters alone,
/// and an empty string stays empty.
#[verifier::external_body]
pub fn lowercase(s: &str) -> (r: String)
    ensures
        r@ == lower_of(s@),
        s@.len() == 0 ==> r@.len() == 0,
{
    s.to_lowercase()
}

/// What parsing a character sequence as a double-precision number and
/// truncating toward zero into the signed 64-bit range yields: `None` where
/// the text is not a valid floating-point literal, `Some` of the saturating
/// integer part otherwise.
pub uninterp spec fn float_trunc_of(s: Seq<char>) -> Option<i64>;

/// Whether the text can open a floating-point literal: per the documented
/// grammar of the double-precision parse, an accepted literal starts with a
/// sign, a digit, a decimal point, or the first letter of `inf`/`infinity`/
/// `nan` in either case.
pub open spec fn numeric_start(s: Seq<char>) -> bool {
    s.len() > 0 && (s[0] == '+' || s[0] == '-' || s[0] == '.' || ('0' <= s[0] && s[0] <= '9')
        || s[0] == 'i' || s[0] == 'I' || s[0] == 'n' || s[0] == 'N')
}

/// Relies on `str::parse` into the double-precision type and the saturating
/// `as i64` cast: the result depends on the characters alone, and only text
/// opening like a literal of the documented grammar is accepted.
#[verifier::external_body]
pub fn parse_float_trunc(s: &str) -> (r: Option<i64>)
    ensures
        r == float_trunc_of(s@),
        r is Some ==> numeric_start(s@),
{
    match s.parse() {
        Ok(x) => {
            // fixes the parsed type as the double-precision one
            let _ = std::time::Duration::try_from_secs_f64(x);
            Some(x as i64)
        }
        Err(_) => None,
    }
}

/// What the standard display of the double-precision number parsed from `s`
/// prints; `s` itself where `s` is not a valid floating-point literal.
pub uninterp spec fn float_render_of(s: Seq<char>) -> Seq<char>;

/// Relies on `str::parse` into the double-precision type and on the standard
/// display of the parsed number: both depend on the characters alone.
#[verifier::external_body]
pub fn render_float_text(s: &str) -> (r: String)
    ensures
        r@ == float_render_of(s@),
{
    match s.parse() {
        Ok(x) => {
            // fixes the parsed type as the double-precision one
            let _ = std::time::Duration::try_from_secs_f64(x);
            format!("{}", x)
        }
        Err(_) => s.to_owned(),
    }
}

/// A character of the Unicode `White_Space` set: the characters that
/// surrounding-whitespace removal strips from both ends of a field part.
pub open spec fn is_ws_char(c: char) -> bool {
    c == '\u{0009}' || c == '\u{000A}' || c == '\u{000B}' || c == '\u{000C}'
        || c == '\u{000D}' || c == ' ' || c == '\u{0085}' || c == '\u{00A0}'
        || c == '\u{1680}' || c == '\u{2000}' || c == '\u{2001}' || c == '\u{2002}'
        || c == '\u{2003}' || c == '\u{2004}' || c == '\u{2005}' || c == '\u{2006}'
        || c == '\u{2007}' || c == '\u{2008}' || c == '\u{2009}' || c == '\u{200A}'
        || c == '\u{2028}' || c == '\u{2029}' || c == '\u{202F}' || c == '\u{205F}'
        || c == '\u{3000}'
}

/// Whether `c` is in the Unicode `White_Space` set.
pub fn is_whitespace_char(c: char) -> (r: bool)
    ensures
        r == is_ws_char(c),
{
    c == '\u{0009}' || c == '\u{000A}' || c == '\u{000B}' || c == '\u{000C}'
        || c == '\u{000D}' || c == ' ' || c == '\u{0085}' || c == '\u{00A0}'
        || c == '\u{1680}' || c == '\u{2000}' || c == '\u{2001}' || c == '\u{2002}'
        || c == '\u{2003}' || c == '\u{2004}' || c == '\u{2005}' || c == '\u{2006}'
        || c == '\u{2007}' || c == '\u{2008}' || c == '\u{2009}' || c == '\u{200A}'
        || c == '\u{2028}' || c == '\u{2029}' || c == '\u{202F}' || c == '\u{205F}'
        || c == '\u{3000}'
}

/// Index of the first occurrence of `c` in `s` at or past position `i`;
/// `-1` where there is none.
pub open spec fn find_from(s: Seq<char>, c: char, i: int) -> int
    decreases s.len() - i,
{
    if i < 0 || i >= s.len() {
        -1
    } else if s[i] == c {
        i
    } else {
        find_from(s, c, i + 1)
    }
}

/// Index of the first occurrence of `c` in `s`; `-1` where there is none.
pub open spec fn find_char(s: Seq<char>, c: char) -> int {
    find_from(s, c, 0)
}

/// How many occurrences of `c` stand in `s` at or past position `i`.
pub open spec fn count_from(s: Seq<char>, c: char, i: int) -> nat
    decreases s.len() - i,
{
    if i < 0 || i >= s.len() {
        0
    } else if s[i] == c {
        count_from(s, c, i + 1) + 1
    } else {
        count_from(s, c, i + 1)
    }
}

/// How many occurrences of `c` stand in `s`.
pub open spec fn count_char(s: Seq<char>, c: char) -> nat {
    count_from(s, c, 0)
}

/// First index at or past `i` holding a character outside the `White_Space`
/// set; the length of `s` where all of the rest is white space.
pub open spec fn skip_ws_from(s: Seq<char>, i: int) -> int
    decreases s.len() - i,
{
    if i < 0 || i >= s.len() {
        s.len() as int
    } else if is_ws_char(s[i]) {
        skip_ws_from(s, i + 1)
    } else {
        i
    }
}

/// Largest index `k <= j` such that `s[k - 1]` is not white space;
/// `0` where all of `s` up to `j` is white space.
pub open spec fn ws_suffix_start(s: Seq<char>, j: int) -> int
    decreases j,
{
    if j <= 0 || j > s.len() {
        0
    } else if is_ws_char(s[j - 1]) {
        ws_suffix_start(s, j - 1)
    } else {
        j
    }
}

/// `s` with surrounding white space removed, as `str::trim` strips it.
pub open spec fn trim_spec(s: Seq<char>) -> Seq<char> {
    if skip_ws_from(s, 0) == s.len() {
        Seq::empty()
    } else {
        s.subrange(skip_ws_from(s, 0), ws_suffix_start(s, s.len() as int))
    }
}

/// A sequence whose first and last characters are not white space trims to
/// itself.
pub proof fn lemma_trim_noop(s: Seq<char>)
    requires
        s.len() > 0,
        !is_ws_char(s[0]),
        !is_ws_char(s[s.len() - 1]),
    ensures
        trim_spec(s) == s,
{
    assert(skip_ws_from(s, 0) == 0);
    assert(ws_suffix_start(s, s.len() as int) == s.len());
    assert(s.subrange(0, s.len() as int) =~= s);
}

/// At most `s.len() - k` occurrences can stand at or past position `k`.
proof fn lemma_count_le(s: Seq<char>, c: char, k: int)
    requires
        0 <= k <= s.len(),
    ensures
        count_from(s, c, k) <= s.len() - k,
    decreases s.len() - k,
{
    if k < s.len() {
        lemma_count_le(s, c, k + 1);
    }
}

/// Lexicographic strict order on character sequences, compared from
/// position `i` on: smaller character first, a proper prefix before its
/// extensions.
pub open spec fn lex_lt_from(a: Seq<char>, b: Seq<char>, i: int) -> bool
    decreases b.len() - i,
{
    if i >= b.len() {
        false
    } else if i >= a.len() {
        true
    } else if a[i] < b[i] {
        true
    } else if a[i] > b[i] {
        false
    } else {
        lex_lt_from(a, b, i + 1)
    }
}

/// Lexicographic strict order on character sequences, by code point: the
/// order the wire payload sorts field identifiers in.
pub open spec fn lex_lt(a: Seq<char>, b: Seq<char>) -> bool {
    lex_lt_from(a, b, 0)
}

/// No sequence orders strictly below itself.
pub proof fn lemma_lex_irrefl(a: Seq<char>, i: int)
    requires
        0 <= i,
    ensures
        !lex_lt_from(a, a, i),
    decreases a.len() - i,
{
    if i < a.len() {
        lemma_lex_irrefl(a, i + 1);
    }
}

/// Two sequences equal past `i` or one orders strictly below the other.
pub proof fn lemma_lex_connected(a: Seq<char>, b: Seq<char>, i: int)
    requires
        0 <= i <= a.len(),
        0 <= i <= b.len(),
    ensures
        lex_lt_from(a, b, i) || lex_lt_from(b, a, i) || (a.len() == b.len() && forall|k: int|
            i <= k < a.len() ==> a[k] == b[k]),
    decreases a.len() - i,
{
    if i < a.len() && i < b.len() && a[i] == b[i] {
        lemma_lex_connected(a, b, i + 1);
    }
}

/// The order is transitive from any common starting position.
pub proof fn lemma_lex_trans(a: Seq<char>, b: Seq<char>, c: Seq<char>, i: int)
    requires
        0 <= i,
        lex_lt_from(a, b, i),
        lex_lt_from(b, c, i),
    ensures
        lex_lt_from(a, c, i),
    decreases c.len() - i,
{
    if i < a.len() && i < b.len() && i < c.len() && a[i] == b[i] && b[i] == c[i] {
        lemma_lex_trans(a, b, c, i + 1);
    }
}

/// Whether `a` orders strictly below `b` lexicographically.
pub fn str_lt(a: &str, b: &str) -> (r: bool)
    ensures
        r == lex_lt(a@, b@),
{
    let na = a.unicode_len();
    let nb = b.unicode_len();
    let mut i: usize = 0;
    while i < na && i < nb
        invariant
            0 <= i <= na == a@.len(),
            0 <= i <= nb == b@.len(),
            lex_lt(a@, b@) == lex_lt_from(a@, b@, i as int),
        ensures
            0 <= i <= na && 0 <= i <= nb,
            lex_lt(a@, b@) == lex_lt_from(a@, b@, i as int),
            i < na && i < nb ==> a@[i as int] != b@[i as int],
        decreases na - i,
    {
        let ca = a.get_char(i);
        let cb = b.get_char(i);
        if ca != cb {
            break;
        }
        i = i + 1;
    }
    if i < na && i < nb {
        let ca = a.get_char(i);
        let cb = b.get_char(i);
        (ca as u32) < (cb as u32)
    } else {
        na < nb
    }
}

/// The decimal digit character for `d` between 0 and 9.
pub open spec fn digit_char(d: int) -> char {
    if d == 0 {
        '0'
    } else if d == 1 {
        '1'
    } else if d == 2 {
        '2'
    } else if d == 3 {
        '3'
    } else if d == 4 {
        '4'
    } else if d == 5 {
        '5'
    } else if d == 6 {
        '6'
    } else if d == 7 {
        '7'
    } else if d == 8 {
        '8'
    } else {
        '9'
    }
}

/// The decimal rendering of a non-negative number, most significant digit
/// first, without leading zeros (a single `0` for zero).
pub open spec fn u64_dec_spec(n: nat) -> Seq<char>
    decreases n,
{
    if n < 10 {
        seq![digit_char(n as int)]
    } else {
        u64_dec_spec(n / 10) + seq![digit_char((n % 10) as int)]
    }
}

/// The decimal rendering of a signed number: a minus sign before the
/// rendering of its magnitude where negative.
pub open spec fn i64_dec_spec(n: int) -> Seq<char> {
    if n < 0 {
        seq!['-'] + u64_dec_spec((-n) as nat)
    } else {
        u64_dec_spec(n as nat)
    }
}

/// Renders `n` in decimal.
pub fn u64_to_string(n: u64) -> (r: String)
    ensures
        r@ == u64_dec_spec(n as nat),
    decreases n,
{
    let digits = "0123456789";
    proof {
        reveal_strlit("0123456789");
    }
    let d = (n % 10) as usize;
    assert(digits@[d as int] == digit_char(d as int));
    if n < 10 {
        let r = digits.substring_char(d, d + 1).to_owned();
        assert(r@ =~= seq![digit_char(n as int)]);
        r
    } else {
        let mut r = u64_to_string(n / 10);
        r.append(digits.substring_char(d, d + 1));
        assert(r@ =~= u64_dec_spec(n as nat));
        r
    }
}

/// Renders `n` in decimal, with a minus sign where negative.
pub fn i64_to_string(n: i64) -> (r: String)
    ensures
        r@ == i64_dec_spec(n as int),
{
    if n >= 0 {
        u64_to_string(n as u64)
    } else {
        let m: u64 = ((-(n + 1)) as u64) + 1;
        assert(m == -(n as int));
        proof {
            reveal_strlit("-");
        }
        let mut r = ("-").to_owned();
        let digits = u64_to_string(m);
        r.append(digits.as_str());
        assert(r@ =~= i64_dec_spec(n as int));
        r
    }
}

/// Renders `n` in decimal.
pub fn usize_to_string(n: usize) -> (r: String)
    ensures
        r@ == u64_dec_spec(n as nat),
{
    u64_to_string(n as u64)
}

/// Number of characters of `s`.
pub fn str_len(s: &str) -> (n: usize)
    ensures
        n == s@.len(),
{
    s.unicode_len()
}

/// Whether the character sequences of `a` and `b` are equal.
pub fn str_eq(a: &str, b: &str) -> (r: bool)
    ensures
        r == (a@ == b@),
{
    let oa = a.to_owned();
    let ob = b.to_owned();
    oa.eq(&ob)
}

/// First position of `c` in `s`, scanning left to right.
pub fn find_char_at(s: &str, c: char) -> (r: Option<usize>)
    ensures
        match r {
            Some(i) => find_char(s@, c) == i && i < s@.len() && s@[i as int] == c,
            None => find_char(s@, c) == -1,
        },
{
    let n = s.unicode_len();
    let mut i: usize = 0;
    while i < n
        invariant
            0 <= i <= n == s@.len(),
            find_char(s@, c) == find_from(s@, c, i as int),
        decreases n - i,
    {
        if s.get_char(i) == c {
            return Some(i);
        }
        i = i + 1;
    }
    None
}

/// How many times `c` occurs in `s`.
pub fn count_char_in(s: &str, c: char) -> (r: usize)
    ensures
        r == count_char(s@, c),
{
    let n = s.unicode_len();
    let mut i: usize = 0;
    let mut cnt: usize = 0;
    while i < n
        invariant
            0 <= i <= n == s@.len(),
            cnt == count_from(s@, c, 0) - count_from(s@, c, i as int),
            count_from(s@, c, i as int) <= count_from(s@, c, 0),
        decreases n - i,
    {
        proof {
            lemma_count_step(s@, c, i as int);
            lemma_count_le(s@, c, 0);
        }
        if s.get_char(i) == c {
            cnt = cnt + 1;
        }
        i = i + 1;
    }
    cnt
}

/// Counting from `i` sees one more occurrence than counting from `i + 1`
/// exactly where `s[i] == c`.
proof fn lemma_count_step(s: Seq<char>, c: char, i: int)
    requires
        0 <= i < s.len(),
    ensures
        count_from(s, c, i) == count_from(s, c, i + 1) + (if s[i] == c { 1int } else { 0int }),
        count_from(s, c, i + 1) <= count_from(s, c, i),
{
}

/// The search from `j` lands on `i` where `s[i] == c` and no occurrence
/// stands between `j` and `i`.
pub proof fn lemma_find_from_at(s: Seq<char>, c: char, j: int, i: int)
    requires
        0 <= j <= i < s.len(),
        s[i] == c,
        forall|k: int| j <= k < i ==> s[k] != c,
    ensures
        find_from(s, c, j) == i,
    decreases i - j,
{
    if j < i {
        lemma_find_from_at(s, c, j + 1, i);
    }
}

/// `c` occurs at or past `i` exactly where the search from `i` lands on a
/// valid index, and that index is the first occurrence.
pub proof fn lemma_find_count(s: Seq<char>, c: char, i: int)
    requires
        0 <= i <= s.len(),
    ensures
        count_from(s, c, i) == 0 <==> find_from(s, c, i) == -1,
        find_from(s, c, i) != -1 ==> i <= find_from(s, c, i) < s.len() && s[find_from(s, c, i)]
            == c,
    decreases s.len() - i,
{
    if i < s.len() {
        lemma_find_count(s, c, i + 1);
    }
}

/// Whether `p` is a prefix of the characters of `s`.
pub fn str_starts_with(s: &str, p: &str) -> (r: bool)
    ensures
        r == p@.is_prefix_of(s@),
{
    let np = p.unicode_len();
    let ns = s.unicode_len();
    if np > ns {
        assert(!p@.is_prefix_of(s@));
        return false;
    }
    let mut i: usize = 0;
    while i < np
        invariant
            0 <= i <= np == p@.len(),
            np <= ns == s@.len(),
            forall|j: int| 0 <= j < i ==> p@[j] == s@[j],
        decreases np - i,
    {
        if s.get_char(i) != p.get_char(i) {
            assert(!p@.is_prefix_of(s@));
            return false;
        }
        i = i + 1;
    }
    assert(p@ =~= s@.subrange(0, np as int));
    true
}

/// Whether `p` is a suffix of the characters of `s`.
pub fn str_ends_with(s: &str, p: &str) -> (r: bool)
    ensures
        r == p@.is_suffix_of(s@),
{
    let np = p.unicode_len();
    let ns = s.unicode_len();
    if np > ns {
        assert(!p@.is_suffix_of(s@));
        return false;
    }
    let base = ns - np;
    let mut i: usize = 0;
    while i < np
        invariant
            0 <= i <= np == p@.len(),
            np <= ns == s@.len(),
            base == ns - np,
            forall|j: int| 0 <= j < i ==> p@[j] == s@[base + j],
        decreases np - i,
    {
        if s.get_char(base + i) != p.get_char(i) {
            assert(!p@.is_suffix_of(s@));
            return false;
        }
        i = i + 1;
    }
    assert(p@ =~= s@.subrange(base as int, ns as int));
    true
}

/// The characters of `s` from `from` (inclusive) to `to` (exclusive), as an
/// owned string.
pub fn substring(s: &str, from: usize, to: usize) -> (r: String)
    requires
        from <= to <= s@.len(),
    ensures
        r@ == s@.subrange(from as int, to as int),
{
    s.substring_char(from, to).to_owned()
}

/// `s` with surrounding white space removed.
pub fn trim(s: &str) -> (r: String)
    ensures
        r@ == trim_spec(s@),
{
    let n = s.unicode_len();
    let mut i: usize = 0;
    while i < n
        invariant
            0 <= i <= n == s@.len(),
            skip_ws_from(s@, 0) == skip_ws_from(s@, i as int),
        ensures
            0 <= i <= n == s@.len(),
            skip_ws_from(s@, 0) == i as int,
            i < n ==> !is_ws_char(s@[i as int]),
        decreases n - i,
    {
        if !is_whitespace_char(s.get_char(i)) {
            break;
        }
        i = i + 1;
    }
    if i == n {
        assert(trim_spec(s@) =~= Seq::<char>::empty());
        return String::new();
    }
    let mut j: usize = n;
    while j > i
        invariant
            i < j <= n == s@.len(),
            i < n,
            !is_ws_char(s@[i as int]),
            ws_suffix_start(s@, n as int) == ws_suffix_start(s@, j as int),
        ensures
            i < j <= n == s@.len(),
            ws_suffix_start(s@, n as int) == j as int,
        decreases j,
    {
        if !is_whitespace_char(s.get_char(j - 1)) {
            break;
        }
        j = j - 1;
    }
    substring(s, i, j)
}

} // verus!
