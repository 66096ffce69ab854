//! The wire payload carried inside the session cookie: a fingerprint of the
//! client that created the session, and an optional user key.  The payload
//! is a compact textual record: the 128 fingerprint characters, one marker
//! character, and, when a key is present, the key itself.

use vstd::prelude::*;
use vstd::string::StrSliceExecFns;
use vstd::string::StringExecFns;

verus! {

/// Character length of a fingerprint inside a payload.
pub const FINGERPRINT_LEN: usize = 128;

/// The payload of a session cookie: the fingerprint of the client profile
/// that created it, and the key of the logged-in user, if any.
pub struct SessionRecord {
    pub fingerprint: String,
    pub user_key: Option<String>,
}

impl View for SessionRecord {
    type V = (Seq<char>, Option<Seq<char>>);

    open spec fn view(&self) -> (Seq<char>, Option<Seq<char>>) {
        (self.fingerprint@, self.user_key.deep_view())
    }
}

impl DeepView for SessionRecord {
    type V = (Seq<char>, Option<Seq<char>>);

    open spec fn deep_view(&self) -> (Seq<char>, Option<Seq<char>>) {
        self.view()
    }
}

/// The payload text of a record: fingerprint, marker, key.  The marker
/// tells an anonymous session ('0', nothing follows) from a logged-in one
/// ('1', the key follows).
pub open spec fn spec_encode_record(fp: Seq<char>, key: Option<Seq<char>>) -> Seq<char> {
    match key {
        Some(k) => fp + seq!['1'] + k,
        None => fp + seq!['0'],
    }
}

/// Reads a payload back: the first 128 characters are the fingerprint, the
/// marker picks the form, anything else is malformed.
pub open spec fn spec_parse_record(p: Seq<char>) -> Option<(Seq<char>, Option<Seq<char>>)> {
    if p.len() < FINGERPRINT_LEN + 1 {
        None
    } else {
        let fp = p.subrange(0, FINGERPRINT_LEN as int);
        if p[FINGERPRINT_LEN as int] == '1' {
            Some((fp, Some(p.subrange(FINGERPRINT_LEN + 1, p.len() as int))))
        } else if p[FINGERPRINT_LEN as int] == '0' && p.len() == FINGERPRINT_LEN + 1 {
            Some((fp, None))
        } else {
            None
        }
    }
}

/// Parsing inverts encoding: every record written under a fingerprint of
/// the proper length reads back exactly.
pub proof fn lemma_record_round_trip(fp: Seq<char>, key: Option<Seq<char>>)
    requires
        fp.len() == FINGERPRINT_LEN,
    ensures
        spec_parse_record(spec_encode_record(fp, key)) == Some((fp, key)),
{
    let p = spec_encode_record(fp, key);
    match key {
        Some(k) => {
            assert(p[FINGERPRINT_LEN as int] == '1');
            assert(p.subrange(0, FINGERPRINT_LEN as int) =~= fp);
            assert(p.subrange(FINGERPRINT_LEN + 1, p.len() as int) =~= k);
        },
        None => {
            assert(p[FINGERPRINT_LEN as int] == '0');
            assert(p.subrange(0, FINGERPRINT_LEN as int) =~= fp);
        },
    }
}

/// What a payload yields under the fingerprint recomputed from the request
/// at hand: the embedded user key when the embedded fingerprint matches,
/// nothing otherwise.
pub open spec fn spec_open_payload(p: Seq<char>, fp: Seq<char>) -> Option<Seq<char>> {
    match spec_parse_record(p) {
        None => None,
        Some(rec) => if rec.0 == fp {
            rec.1
        } else {
            None
        },
    }
}

/// Fingerprint binding: a payload written under one fingerprint yields
/// nothing under any other, even though it parses.
pub proof fn lemma_fingerprint_binding(fp1: Seq<char>, fp2: Seq<char>, key: Option<Seq<char>>)
    requires
        fp1.len() == FINGERPRINT_LEN,
        fp1 != fp2,
    ensures
        spec_open_payload(spec_encode_record(fp1, key), fp2) is None,
{
    lemma_record_round_trip(fp1, key);
}

/// Round trip through the payload: a record written under a fingerprint
/// yields its key under that same fingerprint.
pub proof fn lemma_payload_round_trip(fp: Seq<char>, key: Option<Seq<char>>)
    requires
        fp.len() == FINGERPRINT_LEN,
    ensures
        spec_open_payload(spec_encode_record(fp, key), fp) == key,
{
    lemma_record_round_trip(fp, key);
}

/// Writes a record as payload text.
pub fn encode_record(rec: &SessionRecord) -> (r: String)
    ensures
        r@ == spec_encode_record(rec.fingerprint@, rec.user_key.deep_view()),
{
    let mut r = rec.fingerprint.clone();
    match &rec.user_key {
        Some(k) => {
            r.push('1');
            r.append(k.as_str());
        },
        None => {
            r.push('0');
        },
    }
    proof {
        assert(r@ =~= spec_encode_record(rec.fingerprint@, rec.user_key.deep_view()));
    }
    r
}

/// Reads payload text back into a record; `None` on malformed text.
pub fn parse_record(p: &str) -> (r: Option<SessionRecord>)
    ensures
        r.deep_view() == spec_parse_record(p@),
{
    let n = p.unicode_len();
    if n < FINGERPRINT_LEN + 1 {
        return None;
    }
    let fp = p.substring_char(0, FINGERPRINT_LEN).to_owned();
    let marker = p.get_char(FINGERPRINT_LEN);
    if marker == '1' {
        let key = p.substring_char(FINGERPRINT_LEN + 1, n).to_owned();
        let rec = SessionRecord { fingerprint: fp, user_key: Some(key) };
        proof {
            assert(rec.fingerprint@ =~= spec_parse_record(p@).unwrap().0);
        }
        Some(rec)
    } else if marker == '0' && n == FINGERPRINT_LEN + 1 {
        let rec = SessionRecord { fingerprint: fp, user_key: None };
        proof {
            assert(rec.fingerprint@ =~= spec_parse_record(p@).unwrap().0);
        }
        Some(rec)
    } else {
        None
    }
}

} // verus!
