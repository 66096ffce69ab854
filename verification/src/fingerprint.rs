//! The per-client fingerprint: a SHA-512 digest of the client address
//! (port stripped) concatenated with the User-Agent header, rendered as
//! lower-case hexadecimal text.  A session cookie embeds this fingerprint
//! and is honoured only when it matches the fingerprint recomputed from the
//! request at hand.

use vstd::prelude::*;
use vstd::string::StrSliceExecFns;
use vstd::string::StringExecFns;

use crate::hex::{lemma_hex_len, spec_hex_of, to_hex};
use crypto::digest::Digest;
use crypto::sha2::Sha512;

verus! {

/// The SHA-512 digest of a character string; the digest depends on the
/// input characters alone.
pub uninterp spec fn sha512_of(s: Seq<char>) -> Seq<u8>;

/// Relies on crypto::sha2::Sha512 (Digest::input_str, Digest::result): the
/// 64-byte SHA-512 digest of the input string.
#[verifier::external_body]
fn sha512_digest(s: &str) -> (r: Vec<u8>)
    ensures
        r@ == sha512_of(s@),
        r@.len() == 64,
{
    let mut hasher = Sha512::new();
    hasher.input_str(s);
    let mut out = vec![0u8; 64];
    hasher.result(&mut out);
    out
}

/// The prefix of a string that stands before its first colon; the whole
/// string when it holds none.  Applied to a client address, it strips the
/// port.
pub open spec fn spec_before_colon(s: Seq<char>) -> Seq<char>
    decreases s.len(),
{
    if s.len() == 0 {
        s
    } else if s[0] == ':' {
        Seq::empty()
    } else {
        seq![s[0]] + spec_before_colon(s.drop_first())
    }
}

proof fn lemma_before_colon_prefix(s: Seq<char>, i: int)
    requires
        0 <= i <= s.len(),
        forall|j: int| 0 <= j < i ==> s[j] != ':',
        i == s.len() || s[i] == ':',
    ensures
        spec_before_colon(s) == s.subrange(0, i),
    decreases i,
{
    if i == 0 {
        assert(spec_before_colon(s) =~= s.subrange(0, 0));
    } else {
        let rest = s.drop_first();
        assert(forall|j: int| 0 <= j < i - 1 ==> rest[j] != ':');
        lemma_before_colon_prefix(rest, i - 1);
        assert(spec_before_colon(s) =~= s.subrange(0, i));
    }
}

/// Returns the part of `s` before its first colon.
fn before_colon(s: &str) -> (r: String)
    ensures
        r@ == spec_before_colon(s@),
{
    let n = s.unicode_len();
    let mut i: usize = 0;
    while i < n && s.get_char(i) != ':'
        invariant
            n == s@.len(),
            i <= n,
            forall|j: int| 0 <= j < i ==> s@[j] != ':',
        decreases n - i,
    {
        i = i + 1;
    }
    proof {
        lemma_before_colon_prefix(s@, i as int);
    }
    s.substring_char(0, i).to_owned()
}

/// The text hashed into the fingerprint: the address with its port
/// stripped, when one is known, followed by the User-Agent, when one is
/// known.
pub open spec fn spec_identifier_input(addr: Option<Seq<char>>, agent: Option<Seq<char>>) -> Seq<
    char,
> {
    (match addr {
        Some(a) => spec_before_colon(a),
        None => Seq::empty(),
    }) + (match agent {
        Some(g) => g,
        None => Seq::empty(),
    })
}

/// The fingerprint of a client profile: 128 hexadecimal characters.
pub open spec fn spec_fingerprint_of(addr: Option<Seq<char>>, agent: Option<Seq<char>>) -> Seq<
    char,
> {
    spec_hex_of(sha512_of(spec_identifier_input(addr, agent)))
}

/// Computes the fingerprint of the client profile given by a remote
/// address (with an optional port to strip) and a User-Agent header.
pub fn create_identifier(addr: Option<&str>, agent: Option<&str>) -> (r: String)
    ensures
        r@ == spec_fingerprint_of(addr.deep_view(), agent.deep_view()),
        r@.len() == 128,
{
    let mut input = String::new();
    match addr {
        Some(a) => {
            let ip = before_colon(a);
            input.append(ip.as_str());
        },
        None => (),
    }
    match agent {
        Some(g) => input.append(g),
        None => (),
    }
    assert(input@ =~= spec_identifier_input(addr.deep_view(), agent.deep_view()));
    let digest = sha512_digest(input.as_str());
    proof {
        lemma_hex_len(digest@);
    }
    to_hex(&digest)
}

} // verus!
