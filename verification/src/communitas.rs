//! Demo identities of the embedded Communitas runtime.

use vstd::prelude::*;
use crate::text::{ascii_upper, ascii_lower, split_on, joined, split, join, string_views, chars_of, string_from_chars};
use crate::platform::{sha256, sha256_spec};

verus! {

/// A word with its first letter in upper case and the rest in lower case
/// (ASCII letters only).
pub open spec fn title_word(p: Seq<char>) -> Seq<char> {
    if p.len() == 0 {
        Seq::empty()
    } else {
        seq![ascii_upper(p[0])] + p.drop_first().map_values(|c: char| ascii_lower(c))
    }
}

/// The hyphen-separated words of `s`, each in title case, separated by
/// spaces.
pub open spec fn title_case_of(s: Seq<char>) -> Seq<char> {
    joined(split_on(s, '-').map_values(|p: Seq<char>| title_word(p)), " "@)
}

/// ASCII upper case of a character.
fn upper(c: char) -> (r: char)
    ensures
        r == ascii_upper(c),
{
    if 'a' <= c && c <= 'z' {
        let b = (c as u8) - 32;
        b as char
    } else {
        c
    }
}

/// ASCII lower case of a character.
fn lower(c: char) -> (r: char)
    ensures
        r == ascii_lower(c),
{
    if 'A' <= c && c <= 'Z' {
        let b = (c as u8) + 32;
        b as char
    } else {
        c
    }
}

/// One word in title case (see [`title_word`]).
fn title_word_of(p: &str) -> (r: String)
    ensures
        r@ == title_word(p@),
{
    let v = chars_of(p);
    if v.len() == 0 {
        return String::new();
    }
    let mut out: Vec<char> = Vec::new();
    out.push(upper(v[0]));
    let mut i: usize = 1;
    while i < v.len()
        invariant
            v@ == p@,
            1 <= i <= v@.len(),
            out@ == seq![ascii_upper(v@[0])] + v@.subrange(1, i as int).map_values(|c: char| ascii_lower(c)),
        decreases v@.len() - i,
    {
        let ghost before = out@;
        out.push(lower(v[i]));
        assert(v@.subrange(1, i + 1) =~= v@.subrange(1, i as int).push(v@[i as int]));
        assert(out@ =~= seq![ascii_upper(v@[0])] + v@.subrange(1, i + 1).map_values(|c: char| ascii_lower(c)));
        i = i + 1;
    }
    assert(v@.subrange(1, v@.len() as int) =~= v@.drop_first());
    string_from_chars(out.as_slice())
}

/// Hyphenated words written as a title: `alpha-beta` becomes `Alpha Beta`.
pub fn title_case(words: &str) -> (r: String)
    ensures
        r@ == title_case_of(words@),
{
    let parts = split(words, '-');
    let mut titled: Vec<String> = Vec::new();
    let mut i: usize = 0;
    while i < parts.len()
        invariant
            parts@.len() == split_on(words@, '-').len(),
            forall|k: int| 0 <= k < parts@.len() ==> #[trigger] parts@[k]@ == split_on(words@, '-')[k],
            0 <= i <= parts@.len(),
            string_views(titled@) == split_on(words@, '-').take(i as int).map_values(|p: Seq<char>| title_word(p)),
        decreases parts@.len() - i,
    {
        let ghost before = string_views(titled@);
        let t = title_word_of(parts[i].as_str());
        titled.push(t);
        assert(string_views(titled@) =~= before.push(title_word(split_on(words@, '-')[i as int])));
        assert(split_on(words@, '-').take(i + 1) =~= split_on(words@, '-').take(i as int).push(split_on(words@, '-')[i as int]));
        i = i + 1;
    }
    assert(split_on(words@, '-').take(parts@.len() as int) =~= split_on(words@, '-'));
    join(titled.as_slice(), " ")
}


/// The display name of a demo identity with words `four_words`.
pub open spec fn demo_name(four_words: Seq<char>) -> Seq<char> {
    "Demo "@ + title_case_of(four_words)
}

/// `s` with every `.` written as `-`.
pub open spec fn dots_to_hyphens(s: Seq<char>) -> Seq<char> {
    s.map_values(|c: char| if c == '.' { '-' } else { c })
}

/// Deterministic demo identity of a node, named by four words that encode
/// an address derived from its peer identifier.
pub struct DemoIdentity {
    /// The four words, joined by hyphens.
    pub four_words: String,
    /// `Demo` and the words in title case.
    pub display_name: String,
    /// Directory of the identity's data.
    pub storage_dir: std::path::PathBuf,
}

impl DemoIdentity {
    /// The identity named by `four_words`, its data kept in `storage_dir`.
    pub fn from_words(four_words: String, storage_dir: std::path::PathBuf) -> (d: Self)
        ensures
            d.four_words@ == four_words@,
            d.display_name@ == demo_name(four_words@),
    {
        let display_name = demo_display_name(four_words.as_str());
        DemoIdentity { four_words, display_name, storage_dir }
    }
}

/// `Demo` followed by the hyphenated words `four_words` in title case.
pub fn demo_display_name(four_words: &str) -> (r: String)
    ensures
        r@ == demo_name(four_words@),
{
    let titled = title_case(four_words);
    let mut r = String::new();
    r.append("Demo ");
    r.append(titled.as_str());
    r
}

/// The words of an encoder written with dots, joined by hyphens instead.
pub fn hyphenated(dotted: &str) -> (r: String)
    ensures
        r@ == dots_to_hyphens(dotted@),
{
    let v = chars_of(dotted);
    let mut out: Vec<char> = Vec::new();
    let mut i: usize = 0;
    while i < v.len()
        invariant
            v@ == dotted@,
            0 <= i <= v@.len(),
            out@ == dots_to_hyphens(v@.take(i as int)),
        decreases v@.len() - i,
    {
        let c = v[i];
        out.push(if c == '.' { '-' } else { c });
        assert(dots_to_hyphens(v@.take(i + 1)) =~= dots_to_hyphens(v@.take(i as int)).push(if c == '.' { '-' } else { c }));
        i = i + 1;
    }
    assert(v@.take(v@.len() as int) =~= v@);
    string_from_chars(out.as_slice())
}

/// The port encoded with a peer's address: the big-endian number of two
/// digest bytes brought into 1000..56000.
pub open spec fn seed_port(hi: u8, lo: u8) -> u16 {
    ((hi as nat * 256 + lo as nat) % 55000 + 1000) as u16
}

/// The address and port that name the demo identity of the peer with
/// identifier `peer_id`: the first four bytes of its SHA-256 digest, and a
/// port from the next two (see [`seed_port`]).
pub fn identity_seed(peer_id: &[u8; 32]) -> (r: ([u8; 4], u16))
    ensures
        r.0@ == sha256_spec(peer_id@).take(4),
        r.1 == seed_port(sha256_spec(peer_id@)[4], sha256_spec(peer_id@)[5]),
{
    let digest = sha256(peer_id.as_slice());
    let ip: [u8; 4] = [digest[0], digest[1], digest[2], digest[3]];
    let seed: u32 = (digest[4] as u32) * 256 + (digest[5] as u32);
    let port: u16 = ((seed % 55000) + 1000) as u16;
    assert(ip@ =~= sha256_spec(peer_id@).take(4));
    (ip, port)
}


/// What `four_word_networking` encodes an IPv4 address (its four bytes)
/// and a port as: the four words, or none where the encoder reports an
/// error.
pub uninterp spec fn four_word_encoding(ip: Seq<u8>, port: u16) -> Option<Seq<Seq<char>>>;

/// `four_word_networking::FourWordEncoder::encode_ipv4` on the address with
/// bytes `ip` and on `port`, the words taken out with
/// `FourWordEncoding::words`; `None` on an encoder error. Stated through the
/// name `four_word_encoding`; an encoding has four words, as the crate
/// builds it.
#[verifier::external_body]
fn encode_four_words(ip: [u8; 4], port: u16) -> (r: Option<Vec<String>>)
    ensures
        match r {
            Some(w) => four_word_encoding(ip@, port) == Some(string_views(w@)) && w@.len() == 4,
            None => four_word_encoding(ip@, port) is None,
        },
{
    let encoder = four_word_networking::FourWordEncoder::new();
    match encoder.encode_ipv4(ip.into(), port) {
        Ok(e) => Some(e.words().to_vec()),
        Err(_) => None,
    }
}

/// The hyphenated four words that name the demo identity of the peer with
/// identifier `peer`: the encoding of the address and port that its
/// SHA-256 digest gives (see [`identity_seed`]), words joined by hyphens.
pub open spec fn four_words_of(peer: Seq<u8>) -> Option<Seq<char>> {
    let d = sha256_spec(peer);
    match four_word_encoding(d.take(4), seed_port(d[4], d[5])) {
        Some(w) => Some(dots_to_hyphens(joined(w, "."@))),
        None => None,
    }
}

/// The four words, joined by hyphens, that name the demo identity of the
/// peer with identifier `peer_id`; an error where the encoder fails.
pub fn generate_four_words(peer_id: &[u8; 32]) -> (r: Result<String, String>)
    ensures
        match r {
            Ok(s) => four_words_of(peer_id@) == Some(s@),
            Err(m) => four_words_of(peer_id@) is None && m@ == "Failed to encode peer identity into four words"@,
        },
{
    let (ip, port) = identity_seed(peer_id);
    match encode_four_words(ip, port) {
        Some(words) => {
            let dotted = join(words.as_slice(), ".");
            Ok(hyphenated(dotted.as_str()))
        },
        None => Err(String::from_str("Failed to encode peer identity into four words")),
    }
}

} // verus!
