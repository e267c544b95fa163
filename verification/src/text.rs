//! Character-level helpers over `str` and `String`.
//!
//! Everything here is specified over the character sequence that Verus uses
//! as the view of a string.

use vstd::prelude::*;
use vstd::string::StringExecFns;

verus! {

// ---------------------------------------------------------------------------
// Specifications
// ---------------------------------------------------------------------------

/// `needle` occurs in `hay` starting at position `i`.
pub open spec fn occurs_at(hay: Seq<char>, needle: Seq<char>, i: int) -> bool {
    &&& 0 <= i
    &&& i + needle.len() <= hay.len()
    &&& hay.subrange(i, i + needle.len()) == needle
}

/// `needle` occurs somewhere in `hay` (the empty sequence occurs everywhere).
pub open spec fn has_substring(hay: Seq<char>, needle: Seq<char>) -> bool {
    exists|i: int| occurs_at(hay, needle, i)
}

/// `s` begins with `p`.
pub open spec fn has_prefix(s: Seq<char>, p: Seq<char>) -> bool {
    p.len() <= s.len() && s.subrange(0, p.len() as int) == p
}

/// The character of a decimal digit.
pub open spec fn digit_char(d: nat) -> char {
    if d == 0 { '0' }
    else if d == 1 { '1' }
    else if d == 2 { '2' }
    else if d == 3 { '3' }
    else if d == 4 { '4' }
    else if d == 5 { '5' }
    else if d == 6 { '6' }
    else if d == 7 { '7' }
    else if d == 8 { '8' }
    else { '9' }
}

/// Decimal notation of a natural number, without leading zeros.
pub open spec fn decimal(n: nat) -> Seq<char>
    decreases n,
{
    if n < 10 {
        seq![digit_char(n)]
    } else {
        decimal(n / 10).push(digit_char(n % 10))
    }
}

/// Unicode `White_Space`, the property that `char::is_whitespace` tests.
pub open spec fn is_whitespace(c: char) -> bool {
    let u = c as u32;
    ||| 0x09 <= u <= 0x0d
    ||| u == 0x20
    ||| u == 0x85
    ||| u == 0xa0
    ||| u == 0x1680
    ||| 0x2000 <= u <= 0x200a
    ||| u == 0x2028
    ||| u == 0x2029
    ||| u == 0x202f
    ||| u == 0x205f
    ||| u == 0x3000
}

/// Number of leading whitespace characters of `s`.
pub open spec fn leading_ws(s: Seq<char>) -> nat
    decreases s.len(),
{
    if s.len() > 0 && is_whitespace(s[0]) {
        1 + leading_ws(s.drop_first())
    } else {
        0
    }
}

/// Number of trailing whitespace characters of `s`.
pub open spec fn trailing_ws(s: Seq<char>) -> nat
    decreases s.len(),
{
    if s.len() > 0 && is_whitespace(s.last()) {
        1 + trailing_ws(s.drop_last())
    } else {
        0
    }
}

/// `s` without leading and trailing whitespace, as `str::trim` gives it.
pub open spec fn trimmed(s: Seq<char>) -> Seq<char> {
    let front = s.skip(leading_ws(s) as int);
    front.take(front.len() - trailing_ws(front))
}

/// The pieces of `s` between occurrences of `sep`, as `str::split` yields them.
pub open spec fn split_on(s: Seq<char>, sep: char) -> Seq<Seq<char>>
    decreases s.len(),
{
    if s.len() == 0 {
        seq![Seq::<char>::empty()]
    } else {
        let pieces = split_on(s.drop_last(), sep);
        if s.last() == sep {
            pieces.push(Seq::<char>::empty())
        } else {
            pieces.update(pieces.len() - 1, pieces.last().push(s.last()))
        }
    }
}

/// `split_on` always yields at least one piece.
pub proof fn lemma_split_nonempty(s: Seq<char>, sep: char)
    ensures
        split_on(s, sep).len() >= 1,
    decreases s.len(),
{
    if s.len() > 0 {
        lemma_split_nonempty(s.drop_last(), sep);
    }
}

/// A sequence that lacks a character of `needle` does not contain `needle`.
pub proof fn lemma_missing_char(hay: Seq<char>, needle: Seq<char>, j: int)
    requires
        0 <= j < needle.len(),
        !hay.contains(needle[j]),
    ensures
        !has_substring(hay, needle),
{
    if has_substring(hay, needle) {
        let i = choose|i: int| occurs_at(hay, needle, i);
        assert(hay.subrange(i, i + needle.len())[j] == hay[i + j]);
    }
}

/// A sequence in which two neighbouring characters of `needle` never stand
/// side by side does not contain `needle`.
pub proof fn lemma_missing_pair(hay: Seq<char>, needle: Seq<char>, j: int)
    requires
        0 <= j,
        j + 1 < needle.len(),
        forall|i: int| 0 <= i && i + 1 < hay.len() ==> !(#[trigger] hay[i] == needle[j] && hay[i + 1] == needle[j + 1]),
    ensures
        !has_substring(hay, needle),
{
    if has_substring(hay, needle) {
        let i = choose|i: int| occurs_at(hay, needle, i);
        assert(hay.subrange(i, i + needle.len())[j] == hay[i + j]);
        assert(hay.subrange(i, i + needle.len())[j + 1] == hay[i + j + 1]);
    }
}

/// A sequence that differs from `p` at a position of both does not begin
/// with `p`.
pub proof fn lemma_prefix_mismatch(s: Seq<char>, p: Seq<char>, j: int)
    requires
        0 <= j < p.len(),
        j < s.len(),
        s[j] != p[j],
    ensures
        !has_prefix(s, p),
{
    if has_prefix(s, p) {
        assert(s.subrange(0, p.len() as int)[j] == s[j]);
    }
}

/// ASCII letters to upper case, everything else unchanged.
pub open spec fn ascii_upper(c: char) -> char {
    if 'a' <= c && c <= 'z' { ((c as u32) - 32) as char } else { c }
}

/// ASCII letters to lower case, everything else unchanged.
pub open spec fn ascii_lower(c: char) -> char {
    if 'A' <= c && c <= 'Z' { ((c as u32) + 32) as char } else { c }
}

// ---------------------------------------------------------------------------
// Names for what std's Unicode case mapping returns
// ---------------------------------------------------------------------------

/// What `str::to_lowercase` returns for a character sequence.
pub uninterp spec fn unicode_lowercase(s: Seq<char>) -> Seq<char>;

/// What `str::to_uppercase` returns for a character sequence.
pub uninterp spec fn unicode_uppercase(s: Seq<char>) -> Seq<char>;

/// `str::to_lowercase`: the Unicode lower-case mapping of `s`. Its result
/// is stated only through the name `unicode_lowercase`, a function of the
/// characters of `s` alone.
#[verifier::external_body]
pub(crate) fn to_lowercase(s: &str) -> (r: String)
    ensures
        r@ == unicode_lowercase(s@),
{
    s.to_lowercase()
}

/// `str::to_uppercase`: the Unicode upper-case mapping of `s`. Its result
/// is stated only through the name `unicode_uppercase`, a function of the
/// characters of `s` alone.
#[verifier::external_body]
pub(crate) fn to_uppercase(s: &str) -> (r: String)
    ensures
        r@ == unicode_uppercase(s@),
{
    s.to_uppercase()
}

/// `String: FromIterator<char>`: a string holding exactly the given
/// characters, in order.
#[verifier::external_body]
pub(crate) fn string_from_chars(chars: &[char]) -> (s: String)
    ensures
        s@ == chars@,
{
    chars.iter().collect()
}

/// The character sequences of a sequence of strings.
pub open spec fn string_views(s: Seq<String>) -> Seq<Seq<char>> {
    s.map_values(|x: String| x@)
}

/// The pieces of `parts` written one after another with `sep` between them.
pub open spec fn joined(parts: Seq<Seq<char>>, sep: Seq<char>) -> Seq<char>
    decreases parts.len(),
{
    if parts.len() == 0 {
        Seq::empty()
    } else if parts.len() == 1 {
        parts[0]
    } else {
        joined(parts.drop_last(), sep) + sep + parts.last()
    }
}

// ---------------------------------------------------------------------------
// Executable helpers
// ---------------------------------------------------------------------------

/// The characters of `s`, in order.
pub fn chars_of(s: &str) -> (v: Vec<char>)
    ensures
        v@ == s@,
{
    let mut v: Vec<char> = Vec::new();
    for c in it: s.chars()
        invariant
            v@ == it.seq().take(it.index() as int),
            it.seq() == s@,
    {
        v.push(c);
    }
    v
}

/// A fresh `String` with the characters of `s`.
pub fn owned(s: &str) -> (r: String)
    ensures
        r@ == s@,
{
    s.to_owned()
}

/// Concatenation of two strings.
pub fn concat2(a: &str, b: &str) -> (r: String)
    ensures
        r@ == a@ + b@,
{
    let mut r = a.to_owned();
    r.append(b);
    r
}

/// Concatenation of three strings.
pub fn concat3(a: &str, b: &str, c: &str) -> (r: String)
    ensures
        r@ == a@ + b@ + c@,
{
    let mut r = a.to_owned();
    r.append(b);
    r.append(c);
    r
}

/// Whether two strings hold the same characters.
pub fn str_eq(a: &str, b: &str) -> (r: bool)
    ensures
        r == (a@ == b@),
{
    let x = a.to_owned();
    let y = b.to_owned();
    x == y
}

/// Whether two character slices are equal.
pub fn chars_eq(a: &[char], b: &[char]) -> (r: bool)
    ensures
        r == (a@ == b@),
{
    if a.len() != b.len() {
        return false;
    }
    let mut i: usize = 0;
    while i < a.len()
        invariant
            a.len() == b.len(),
            0 <= i <= a.len(),
            forall|j: int| 0 <= j < i ==> a@[j] == b@[j],
        decreases a.len() - i,
    {
        if a[i] != b[i] {
            return false;
        }
        i = i + 1;
    }
    assert(a@ =~= b@);
    true
}

/// Whether `needle` occurs in `hay` at position `at`.
fn occurs_at_exec(hay: &[char], needle: &[char], at: usize) -> (r: bool)
    requires
        at <= hay.len(),
    ensures
        r == occurs_at(hay@, needle@, at as int),
{
    if needle.len() > hay.len() - at {
        return false;
    }
    let mut j: usize = 0;
    while j < needle.len()
        invariant
            at + needle.len() <= hay.len(),
            0 <= j <= needle.len(),
            forall|k: int| 0 <= k < j ==> hay@[at + k] == needle@[k],
        decreases needle.len() - j,
    {
        if hay[at + j] != needle[j] {
            assert(hay@.subrange(at as int, at + needle.len())[j as int] != needle@[j as int]);
            return false;
        }
        j = j + 1;
    }
    assert(hay@.subrange(at as int, at + needle.len()) =~= needle@);
    true
}

/// Whether `needle` occurs anywhere in `hay`.
pub fn chars_contain(hay: &[char], needle: &[char]) -> (r: bool)
    ensures
        r == has_substring(hay@, needle@),
{
    let mut i: usize = 0;
    loop
        invariant
            0 <= i <= hay.len(),
            forall|k: int| 0 <= k < i ==> !occurs_at(hay@, needle@, k),
        ensures
            forall|k: int| 0 <= k <= hay.len() ==> !occurs_at(hay@, needle@, k),
        decreases hay.len() - i,
    {
        if occurs_at_exec(hay, needle, i) {
            return true;
        }
        if i == hay.len() {
            break;
        }
        i = i + 1;
    }
    assert forall|k: int| !occurs_at(hay@, needle@, k) by {
        if 0 <= k && k <= hay.len() {
        }
    }
    false
}

/// Whether `needle` occurs anywhere in `hay`, as `str::contains` tests it.
pub fn contains(hay: &str, needle: &str) -> (r: bool)
    ensures
        r == has_substring(hay@, needle@),
{
    let h = chars_of(hay);
    let n = chars_of(needle);
    chars_contain(h.as_slice(), n.as_slice())
}

/// Whether `c` occurs in `s`.
pub fn contains_char(s: &str, c: char) -> (r: bool)
    ensures
        r == s@.contains(c),
{
    let v = chars_of(s);
    let mut i: usize = 0;
    while i < v.len()
        invariant
            v@ == s@,
            0 <= i <= v.len(),
            forall|k: int| 0 <= k < i ==> v@[k] != c,
        decreases v.len() - i,
    {
        if v[i] == c {
            return true;
        }
        i = i + 1;
    }
    false
}

/// Whether `s` begins with `p`, as `str::starts_with` tests it.
pub fn starts_with(s: &str, p: &str) -> (r: bool)
    ensures
        r == has_prefix(s@, p@),
{
    let sv = chars_of(s);
    let pv = chars_of(p);
    let r = occurs_at_exec(sv.as_slice(), pv.as_slice(), 0);
    proof {
        if pv@.len() <= sv@.len() {
            assert(sv@.subrange(0, 0 + pv@.len() as int) == sv@.subrange(0, pv@.len() as int));
        }
    }
    r
}

/// The character of the decimal digit `d`.
fn digit(d: u128) -> (c: char)
    requires
        d < 10,
    ensures
        c == digit_char(d as nat),
{
    if d == 0 { '0' }
    else if d == 1 { '1' }
    else if d == 2 { '2' }
    else if d == 3 { '3' }
    else if d == 4 { '4' }
    else if d == 5 { '5' }
    else if d == 6 { '6' }
    else if d == 7 { '7' }
    else if d == 8 { '8' }
    else { '9' }
}

/// Appends the decimal notation of `n` to `out`.
fn push_decimal(out: &mut Vec<char>, n: u128)
    ensures
        final(out)@ == old(out)@ + decimal(n as nat),
    decreases n,
{
    if n >= 10 {
        push_decimal(out, n / 10);
    }
    out.push(digit(n % 10));
    proof {
        if n >= 10 {
            assert(decimal(n as nat) == decimal((n / 10) as nat).push(digit_char((n % 10) as nat)));
        }
    }
    assert(out@ =~= old(out)@ + decimal(n as nat));
}

/// Decimal notation of `n`, as `u64::to_string` writes it.
pub fn u64_to_text(n: u64) -> (s: String)
    ensures
        s@ == decimal(n as nat),
{
    u128_to_text(n as u128)
}

/// Decimal notation of `n`, as `u128::to_string` writes it.
pub fn u128_to_text(n: u128) -> (s: String)
    ensures
        s@ == decimal(n as nat),
{
    let mut v: Vec<char> = Vec::new();
    push_decimal(&mut v, n);
    assert(v@ =~= decimal(n as nat));
    string_from_chars(v.as_slice())
}

/// Decimal notation of `n`, as `usize::to_string` writes it.
pub fn usize_to_text(n: usize) -> (s: String)
    ensures
        s@ == decimal(n as nat),
{
    u64_to_text(n as u64)
}

/// Whether `c` is white space, as `char::is_whitespace` tests it.
pub fn char_is_whitespace(c: char) -> (r: bool)
    ensures
        r == is_whitespace(c),
{
    let u = c as u32;
    (0x09 <= u && u <= 0x0d) || u == 0x20 || u == 0x85 || u == 0xa0 || u == 0x1680
        || (0x2000 <= u && u <= 0x200a) || u == 0x2028 || u == 0x2029 || u == 0x202f
        || u == 0x205f || u == 0x3000
}

proof fn lemma_leading_ws_bound(s: Seq<char>)
    ensures
        leading_ws(s) <= s.len(),
        forall|k: int| 0 <= k < leading_ws(s) ==> is_whitespace(#[trigger] s[k]),
        leading_ws(s) < s.len() ==> !is_whitespace(s[leading_ws(s) as int]),
    decreases s.len(),
{
    if s.len() > 0 && is_whitespace(s[0]) {
        lemma_leading_ws_bound(s.drop_first());
        assert forall|k: int| 0 <= k < leading_ws(s) implies is_whitespace(#[trigger] s[k]) by {
            if k > 0 {
                assert(s[k] == s.drop_first()[k - 1]);
            }
        }
    }
}

proof fn lemma_trailing_ws_bound(s: Seq<char>)
    ensures
        trailing_ws(s) <= s.len(),
        forall|k: int| s.len() - trailing_ws(s) <= k < s.len() ==> is_whitespace(#[trigger] s[k]),
        trailing_ws(s) < s.len() ==> !is_whitespace(s[s.len() - trailing_ws(s) - 1]),
    decreases s.len(),
{
    if s.len() > 0 && is_whitespace(s.last()) {
        lemma_trailing_ws_bound(s.drop_last());
        assert forall|k: int| s.len() - trailing_ws(s) <= k < s.len() implies is_whitespace(#[trigger] s[k]) by {
            if k < s.len() - 1 {
                assert(s[k] == s.drop_last()[k]);
            }
        }
    }
}

/// Number of leading white-space characters of `v`.
fn count_leading_ws(v: &[char]) -> (n: usize)
    ensures
        n == leading_ws(v@),
{
    proof { lemma_leading_ws_bound(v@); }
    let mut i: usize = 0;
    while i < v.len() && char_is_whitespace(v[i])
        invariant
            0 <= i <= v.len(),
            i <= leading_ws(v@),
            forall|k: int| 0 <= k < i ==> is_whitespace(#[trigger] v@[k]),
            leading_ws(v@) <= v@.len(),
            leading_ws(v@) < v@.len() ==> !is_whitespace(v@[leading_ws(v@) as int]),
        decreases v.len() - i,
    {
        i = i + 1;
    }
    i
}

/// Number of trailing white-space characters of `v`.
fn count_trailing_ws(v: &[char]) -> (n: usize)
    ensures
        n == trailing_ws(v@),
{
    proof { lemma_trailing_ws_bound(v@); }
    let mut n: usize = 0;
    while n < v.len() && char_is_whitespace(v[v.len() - 1 - n])
        invariant
            0 <= n <= v.len(),
            n <= trailing_ws(v@),
            trailing_ws(v@) <= v@.len(),
            trailing_ws(v@) < v@.len() ==> !is_whitespace(v@[v@.len() - trailing_ws(v@) - 1]),
        decreases v.len() - n,
    {
        n = n + 1;
    }
    n
}

/// The characters of `v` from `from` up to `to`.
pub fn slice_chars(v: &[char], from: usize, to: usize) -> (r: Vec<char>)
    requires
        from <= to <= v.len(),
    ensures
        r@ == v@.subrange(from as int, to as int),
{
    let mut r: Vec<char> = Vec::new();
    let mut i = from;
    while i < to
        invariant
            from <= i <= to <= v.len(),
            r@ == v@.subrange(from as int, i as int),
        decreases to - i,
    {
        r.push(v[i]);
        i = i + 1;
        assert(r@ =~= v@.subrange(from as int, i as int));
    }
    r
}

/// `s` without leading and trailing white space, as `str::trim` gives it.
pub fn trim(s: &str) -> (r: String)
    ensures
        r@ == trimmed(s@),
{
    let v = chars_of(s);
    let lead = count_leading_ws(v.as_slice());
    proof { lemma_leading_ws_bound(v@); }
    let front = slice_chars(v.as_slice(), lead, v.len());
    assert(front@ =~= s@.skip(lead as int));
    let trail = count_trailing_ws(front.as_slice());
    proof { lemma_trailing_ws_bound(front@); }
    let body = slice_chars(front.as_slice(), 0, front.len() - trail);
    assert(body@ =~= front@.take(front@.len() - trail));
    string_from_chars(body.as_slice())
}

/// The pieces of `s` between occurrences of `sep`, as `str::split` yields them.
pub fn split(s: &str, sep: char) -> (pieces: Vec<String>)
    ensures
        pieces@.len() == split_on(s@, sep).len(),
        forall|k: int| 0 <= k < pieces@.len() ==> #[trigger] pieces@[k]@ == split_on(s@, sep)[k],
{
    let v = chars_of(s);
    let mut done: Vec<String> = Vec::new();
    let mut cur: Vec<char> = Vec::new();
    let mut i: usize = 0;
    while i < v.len()
        invariant
            v@ == s@,
            0 <= i <= v.len(),
            split_on(v@.take(i as int), sep).len() == done@.len() + 1,
            forall|k: int| 0 <= k < done@.len() ==> #[trigger] done@[k]@ == split_on(v@.take(i as int), sep)[k],
            cur@ == split_on(v@.take(i as int), sep).last(),
        decreases v.len() - i,
    {
        let ghost before = split_on(v@.take(i as int), sep);
        assert(v@.take(i + 1).drop_last() =~= v@.take(i as int));
        assert(v@.take(i + 1).last() == v@[i as int]);
        if v[i] == sep {
            let piece = string_from_chars(cur.as_slice());
            done.push(piece);
            cur = Vec::new();
            assert(cur@ =~= Seq::<char>::empty());
        } else {
            cur.push(v[i]);
        }
        i = i + 1;
    }
    assert(v@.take(v@.len() as int) =~= v@);
    let last = string_from_chars(cur.as_slice());
    done.push(last);
    done
}

/// `parts` joined by `sep`, as `[String]::join` writes them.
pub fn join(parts: &[String], sep: &str) -> (r: String)
    ensures
        r@ == joined(string_views(parts@), sep@),
{
    let ghost v = string_views(parts@);
    if parts.len() == 0 {
        return String::new();
    }
    let mut r = parts[0].clone();
    assert(v.take(1).len() == 1 && v.take(1)[0] == v[0]);
    let mut i: usize = 1;
    while i < parts.len()
        invariant
            v == string_views(parts@),
            1 <= i <= v.len(),
            r@ == joined(v.take(i as int), sep@),
        decreases v.len() - i,
    {
        assert(v.take(i + 1).drop_last() =~= v.take(i as int));
        assert(v.take(i + 1).last() == parts@[i as int]@);
        r.append(sep);
        r.append(parts[i].as_str());
        i = i + 1;
    }
    assert(v.take(v.len() as int) =~= v);
    r
}

/// Fresh copies of `v`'s strings.
pub fn duplicate_strings(v: &[String]) -> (r: Vec<String>)
    ensures
        string_views(r@) == string_views(v@),
{
    let mut r: Vec<String> = Vec::new();
    let mut i: usize = 0;
    while i < v.len()
        invariant
            0 <= i <= v@.len(),
            string_views(r@) == string_views(v@).take(i as int),
        decreases v.len() - i,
    {
        let ghost before = r@;
        let c = v[i].clone();
        assert(c@ == v@[i as int]@);
        r.push(c);
        assert(string_views(r@) =~= string_views(before).push(v@[i as int]@));
        assert(string_views(v@).take(i + 1) =~= string_views(v@).take(i as int).push(v@[i as int]@));
        i = i + 1;
    }
    assert(string_views(v@).take(v@.len() as int) =~= string_views(v@));
    r
}

/// A fresh copy of an optional string.
pub fn duplicate_opt(v: &Option<String>) -> (r: Option<String>)
    ensures
        opt_view(r) == opt_view(*v),
{
    match v {
        Some(s) => Some(s.clone()),
        None => None,
    }
}

/// The characters of an optional string.
pub open spec fn opt_view(v: Option<String>) -> Option<Seq<char>> {
    match v {
        Some(s) => Some(s@),
        None => None,
    }
}

/// The distinct strings of `v`, each where it first occurs.
pub open spec fn first_occurrences(s: Seq<Seq<char>>) -> Seq<Seq<char>>
    decreases s.len(),
{
    if s.len() == 0 {
        Seq::empty()
    } else {
        let prev = first_occurrences(s.drop_last());
        if s.drop_last().contains(s.last()) { prev } else { prev.push(s.last()) }
    }
}

/// The distinct strings of `v`, in order of first occurrence.
pub fn dedup_strings(v: &[String]) -> (r: Vec<String>)
    ensures
        string_views(r@) == first_occurrences(string_views(v@)),
{
    let ghost sv = string_views(v@);
    let mut r: Vec<String> = Vec::new();
    let mut i: usize = 0;
    while i < v.len()
        invariant
            sv == string_views(v@),
            0 <= i <= v@.len(),
            string_views(r@) == first_occurrences(sv.take(i as int)),
            forall|x: Seq<char>| #[trigger] string_views(r@).contains(x) <==> sv.take(i as int).contains(x),
        decreases v@.len() - i,
    {
        let ghost prefix = sv.take(i as int);
        let ghost next = sv.take(i + 1);
        let ghost rv = string_views(r@);
        assert forall|x: Seq<char>| #[trigger] rv.contains(x) <==> prefix.contains(x) by {
            assert(string_views(r@).contains(x) <==> prefix.contains(x));
        }
        assert(next.drop_last() =~= prefix);
        assert(next.last() == v@[i as int]@);
        let mut found = false;
        let mut j: usize = 0;
        while j < r.len()
            invariant
                0 <= j <= r@.len(),
                0 <= i < v@.len(),
                rv == string_views(r@),
                found <==> exists|y: int| 0 <= y < j && rv[y] == v@[i as int]@,
            decreases r@.len() - j,
        {
            assert(rv[j as int] == r@[j as int]@);
            if str_eq(r[j].as_str(), v[i].as_str()) {
                found = true;
            }
            j = j + 1;
        }
        if !found {
            r.push(v[i].clone());
            assert(string_views(r@) =~= rv.push(v@[i as int]@));
            assert(!prefix.contains(v@[i as int]@)) by {
                if prefix.contains(v@[i as int]@) {
                    assert(rv.contains(v@[i as int]@));
                    let y = choose|y: int| 0 <= y < rv.len() && rv[y] == v@[i as int]@;
                    assert(exists|y2: int| 0 <= y2 < r@.len() && rv[y2] == v@[i as int]@);
                }
            }
            assert forall|x: Seq<char>| #[trigger] string_views(r@).contains(x) <==> next.contains(x) by {
                if string_views(r@).contains(x) && x != v@[i as int]@ {
                    let y = choose|y: int| 0 <= y < string_views(r@).len() && string_views(r@)[y] == x;
                    assert(rv[y] == x);
                    assert(rv.contains(x));
                    let k = choose|k: int| 0 <= k < prefix.len() && prefix[k] == x;
                    assert(next[k] == x);
                }
                if next.contains(x) && x != v@[i as int]@ {
                    let k = choose|k: int| 0 <= k < next.len() && next[k] == x;
                    assert(prefix[k] == x);
                    assert(prefix.contains(x));
                    assert(rv.contains(x));
                    let y = choose|y: int| 0 <= y < rv.len() && rv[y] == x;
                    assert(string_views(r@)[y] == x);
                }
                if x == v@[i as int]@ {
                    assert(string_views(r@)[rv.len() as int] == x);
                    assert(next[i as int] == x);
                }
            }
        } else {
            assert(prefix.contains(v@[i as int]@)) by {
                let y = choose|y: int| 0 <= y < j && rv[y] == v@[i as int]@;
                assert(rv.contains(v@[i as int]@));
            }
            assert forall|x: Seq<char>| #[trigger] string_views(r@).contains(x) <==> next.contains(x) by {
                if next.contains(x) {
                    let k = choose|k: int| 0 <= k < next.len() && next[k] == x;
                    if k < i {
                        assert(prefix[k] == x);
                        assert(prefix.contains(x));
                    }
                }
                if prefix.contains(x) {
                    let k = choose|k: int| 0 <= k < prefix.len() && prefix[k] == x;
                    assert(next[k] == x);
                }
            }
        }
        i = i + 1;
    }
    assert(sv.take(v@.len() as int) =~= sv);
    r
}


/// `100 * num / den` rounded to the nearest whole number, ties to even.
pub open spec fn rounded_percent(num: nat, den: nat) -> nat {
    let q = (100 * num) / den;
    let r = (100 * num) % den;
    if 2 * r > den {
        q + 1
    } else if 2 * r < den {
        q
    } else if q % 2 == 0 {
        q
    } else {
        q + 1
    }
}

/// `100 * num / den` rounded, ties to even (see [`rounded_percent`]).
pub fn percent_of(num: u128, den: u128) -> (p: u128)
    requires
        den > 0,
        100 * num <= u128::MAX,
    ensures
        p == rounded_percent(num as nat, den as nat),
{
    let hundred = 100 * num;
    let q = hundred / den;
    let r = hundred % den;
    assert(q <= hundred) by (nonlinear_arith)
        requires den > 0, q == hundred / den, hundred >= 0;
    if r > den - r {
        q + 1
    } else if r < den - r {
        q
    } else if q % 2 == 0 {
        q
    } else {
        q + 1
    }
}

/// Lines written one after another, each ended by a newline.
pub open spec fn lines_text(lines: Seq<Seq<char>>) -> Seq<char>
    decreases lines.len(),
{
    if lines.len() == 0 {
        Seq::empty()
    } else {
        lines_text(lines.drop_last()) + lines.last() + "\n"@
    }
}

/// Writing one more line adds it and its newline.
pub proof fn lemma_lines_text_push(lines: Seq<Seq<char>>, line: Seq<char>)
    ensures
        lines_text(lines.push(line)) == lines_text(lines) + line + "\n"@,
{
    assert(lines.push(line).drop_last() =~= lines);
}

/// Appends `line` and a newline to `out`.
pub fn push_line(out: &mut String, line: &str)
    ensures
        final(out)@ == old(out)@ + line@ + "\n"@,
{
    out.append(line);
    out.append("\n");
}

/// Appends `line` and a newline to `out`, where `out` holds `lines`.
pub(crate) fn write_line(out: &mut String, line: &str, Ghost(lines): Ghost<Seq<Seq<char>>>)
    requires
        old(out)@ == lines_text(lines),
    ensures
        final(out)@ == lines_text(lines.push(line@)),
{
    push_line(out, line);
    proof { lemma_lines_text_push(lines, line@); }
}

/// A percentage of `part` in `whole` with one decimal, rounded half to
/// even: `83.3` for five of six.
pub open spec fn percent_tenths_text(part: nat, whole: nat) -> Seq<char> {
    let tenths = rounded_percent(10 * part, whole);
    decimal(tenths / 10) + "."@ + decimal(tenths % 10)
}

/// Writes the percentage of `part` in `whole` with one decimal.
pub fn percent_tenths(part: u64, whole: u64) -> (s: String)
    requires
        whole > 0,
    ensures
        s@ == percent_tenths_text(part as nat, whole as nat),
{
    let num = 10 * (part as u128);
    let hundred = 100 * num;
    let den = whole as u128;
    let q = hundred / den;
    let r = hundred % den;
    assert(q <= hundred) by (nonlinear_arith)
        requires den > 0, q == hundred / den, hundred >= 0;
    let tenths = if r > den - r { q + 1 } else if r < den - r { q } else if q % 2 == 0 { q } else { q + 1 };
    assert(tenths == rounded_percent(10 * part as nat, whole as nat));
    let whole_part = u128_to_text(tenths / 10);
    let frac = u128_to_text(tenths % 10);
    concat3(whole_part.as_str(), ".", frac.as_str())
}

} // verus!
