//! Actor and content identifiers, the integrity check of fetched content, and
//! the reading of what the identity directory and the origin answered.

use vstd::prelude::*;
use crate::errors::{CdnError, CdnErrorView};
use crate::text::free_of;

verus! {

/// A letter that may stand in the method of an actor identifier.
pub open spec fn is_method_char(c: char) -> bool {
    'a' <= c <= 'z'
}

/// A character that may end the part of an actor identifier that follows the
/// method.
pub open spec fn is_id_end_char(c: char) -> bool {
    ||| 'a' <= c <= 'z'
    ||| 'A' <= c <= 'Z'
    ||| '0' <= c <= '9'
    ||| c == '.'
    ||| c == '_'
    ||| c == '-'
}

/// A character that may stand in the part of an actor identifier that follows
/// the method.
pub open spec fn is_id_char(c: char) -> bool {
    is_id_end_char(c) || c == ':' || c == '%'
}

/// `s` is `did:`, a method of lower-case letters that ends before
/// `s[colon]`, a colon there, and after it at least one identifier character,
/// the last of them neither `:` nor `%`.
pub open spec fn is_did_with_method_end(s: Seq<char>, colon: int) -> bool {
    &&& 4 < colon < s.len() - 1
    &&& s[0] == 'd'
    &&& s[1] == 'i'
    &&& s[2] == 'd'
    &&& s[3] == ':'
    &&& forall|i: int| 4 <= i < colon ==> is_method_char(#[trigger] s[i])
    &&& s[colon] == ':'
    &&& forall|i: int| colon < i < s.len() ==> is_id_char(#[trigger] s[i])
    &&& is_id_end_char(s[s.len() - 1])
}

/// The syntax of an actor identifier: at most 2048 characters of the form
/// `did:<method>:<identifier>`.
pub open spec fn is_did(s: Seq<char>) -> bool {
    &&& s.len() <= 2048
    &&& exists|colon: int| is_did_with_method_end(s, colon)
}

/// No actor identifier holds a `/`.
pub proof fn lemma_did_holds_no_slash(s: Seq<char>)
    requires
        is_did(s),
    ensures
        free_of(s, '/'),
{
    let colon = choose|colon: int| is_did_with_method_end(s, colon);
    assert forall|i: int| 0 <= i < s.len() implies s[i] != '/' by {
        if 4 <= i < colon {
            assert(is_method_char(s[i]));
        } else if colon < i {
            assert(is_id_char(s[i]));
        }
    }
}

/// What the text of a content identifier stands for, where it is one: the
/// codec it names, the hash function it names, and its canonical text.
pub uninterp spec fn parsed_cid(text: Seq<char>) -> Option<(u64, u64, Seq<char>)>;

/// The hash of `data` by the function that `hash` names, as the bytes of a
/// multihash; nothing where the function is not known.
pub uninterp spec fn multihash_of(hash: u64, data: Seq<u8>) -> Option<Seq<u8>>;

/// The canonical text of the version-1 content identifier with the codec
/// and the multihash of these bytes; nothing where the bytes are no
/// multihash.
pub uninterp spec fn cid_v1_text(codec: u64, multihash: Seq<u8>) -> Option<Seq<char>>;

/// The canonical text of the version-1 content identifier of `data` under
/// `codec`, hashed with the function that `hash` names; nothing where it
/// cannot be had.
pub open spec fn recomputed_cid(codec: u64, hash: u64, data: Seq<u8>) -> Option<Seq<char>> {
    match multihash_of(hash, data) {
        Some(multihash) => cid_v1_text(codec, multihash),
        None => None,
    }
}

/// Asks `atrium_api::types::string::Did::new` whether `text` is an actor
/// identifier. That function accepts a string of at most 2048 bytes that its
/// pattern `^did:[a-z]+:[a-zA-Z0-9._:%-]*[a-zA-Z0-9._-]$` matches as a whole;
/// `is_did` says the same of the characters.
#[verifier::external_body]
fn did_syntax_ok(text: &str) -> (ok: bool)
    ensures
        ok == is_did(text@),
{
    match atrium_api::types::string::Did::new(text.to_string()) {
        Ok(_) => true,
        Err(_) => false,
    }
}

/// Parses `text` with `cid::Cid::from_str` and hands out, where it is a
/// content identifier, its `codec()`, the `code()` of its `hash()` and its
/// `to_string()`: all three depend on the text alone.
#[verifier::external_body]
fn parse_cid(text: &str) -> (parsed: Option<(u64, u64, String)>)
    ensures
        match parsed {
            Some((codec, hash, canonical)) => parsed_cid(text@) == Some((codec, hash, canonical@)),
            None => parsed_cid(text@).is_none(),
        },
{
    match <cid::Cid as std::str::FromStr>::from_str(text) {
        Ok(parsed) => Some((parsed.codec(), parsed.hash().code(), parsed.to_string())),
        Err(_) => None,
    }
}

/// Hashes `data` with `multihash_codetable::MultihashDigest::digest`, for
/// the function that `multihash_codetable::Code::try_from` finds under the
/// number, and hands out the multihash's `to_bytes()`; nothing where no
/// function is found. The outcome depends on the number and the bytes alone.
#[verifier::external_body]
fn hash_content(hash: u64, data: &[u8]) -> (multihash: Option<Vec<u8>>)
    ensures
        match multihash {
            Some(bytes) => multihash_of(hash, data@) == Some(bytes@),
            None => multihash_of(hash, data@).is_none(),
        },
{
    match multihash_codetable::Code::try_from(hash) {
        Ok(function) => Some(multihash_codetable::MultihashDigest::digest(&function, data).to_bytes()),
        Err(_) => None,
    }
}

/// Builds an identifier with `cid::Cid::new_v1` from the codec and the
/// multihash that `Multihash::from_bytes` reads, and hands out its
/// `to_string()`; nothing where the bytes cannot be read. The outcome depends
/// on the codec and the bytes alone.
#[verifier::external_body]
fn write_cid(codec: u64, multihash: &[u8]) -> (text: Option<String>)
    ensures
        match text {
            Some(t) => cid_v1_text(codec, multihash@) == Some(t@),
            None => cid_v1_text(codec, multihash@).is_none(),
        },
{
    match cid::multihash::Multihash::<64>::from_bytes(multihash) {
        Ok(hash) => Some(cid::Cid::new_v1(codec, hash).to_string()),
        Err(_) => None,
    }
}

/// An actor identifier: the name of the owner of a blob.
#[derive(Debug, PartialEq, Eq)]
pub struct Did {
    text: String,
}

impl View for Did {
    type V = Seq<char>;

    closed spec fn view(&self) -> Seq<char> {
        self.text@
    }
}

impl Did {
    #[verifier::type_invariant]
    spec fn well_formed(self) -> bool {
        is_did(self.text@)
    }

    /// The text is an actor identifier. This holds of every `Did` that the
    /// program holds.
    pub open spec fn wf(&self) -> bool {
        is_did(self@)
    }

    /// Takes `text` as an actor identifier, if it is one.
    pub fn new(text: String) -> (did: Option<Did>)
        ensures
            did.is_some() == is_did(text@),
            did matches Some(d) ==> d@ == text@ && d.wf(),
    {
        if did_syntax_ok(text.as_str()) {
            Some(Did { text })
        } else {
            None
        }
    }

    /// The identifier's text.
    pub fn as_str(&self) -> (text: &str)
        ensures
            text@ == self@,
            self.wf(),
    {
        proof {
            use_type_invariant(self);
        }
        self.text.as_str()
    }

}

impl Clone for Did {
    fn clone(&self) -> (copy: Did)
        ensures
            copy@ == self@,
            copy.wf(),
    {
        proof {
            use_type_invariant(self);
        }
        Did { text: self.text.clone() }
    }
}

/// A content identifier in its canonical text, with the codec and the hash
/// function it names.
#[derive(Debug, PartialEq, Eq)]
pub struct Cid {
    text: String,
    codec: u64,
    hash: u64,
}

/// A `Cid` as plain values.
pub struct CidView {
    pub text: Seq<char>,
    pub codec: u64,
    pub hash: u64,
}

impl View for Cid {
    type V = CidView;

    closed spec fn view(&self) -> CidView {
        CidView { text: self.text@, codec: self.codec, hash: self.hash }
    }
}

impl CidView {
    /// `data` is the content that the identifier names: hashed with the same
    /// function and written as an identifier under the same codec, it gives
    /// the same text.
    pub open spec fn names(self, data: Seq<u8>) -> bool {
        recomputed_cid(self.codec, self.hash, data) == Some(self.text)
    }
}

impl Cid {
    /// Reads a content identifier. The `Cid` holds the canonical text, which
    /// may differ from the text given.
    pub fn new(text: &str) -> (cid: Option<Cid>)
        ensures
            match cid {
                Some(c) => parsed_cid(text@) == Some((c@.codec, c@.hash, c@.text)),
                None => parsed_cid(text@).is_none(),
            },
    {
        match parse_cid(text) {
            Some((codec, hash, canonical)) => Some(Cid { text: canonical, codec, hash }),
            None => None,
        }
    }

    /// The canonical text.
    pub fn as_str(&self) -> (text: &str)
        ensures
            text@ == self@.text,
    {
        self.text.as_str()
    }

    /// The codec that the identifier names.
    pub fn codec(&self) -> (codec: u64)
        ensures
            codec == self@.codec,
    {
        self.codec
    }

    /// The hash function that the identifier names, by its number.
    pub fn hash(&self) -> (hash: u64)
        ensures
            hash == self@.hash,
    {
        self.hash
    }
}

impl Clone for Cid {
    fn clone(&self) -> (copy: Cid)
        ensures
            copy@ == self@,
    {
        Cid { text: self.text.clone(), codec: self.codec, hash: self.hash }
    }
}

/// Holds the identifier recomputed from fetched content against the one that
/// was asked for: there must be one, and the two texts must be equal,
/// character by character.
pub fn compare_cid(cid: &Cid, recomputed: Option<String>) -> (outcome: Result<(), CdnError>)
    ensures
        outcome.is_ok() == (recomputed matches Some(text) && text@ == cid@.text),
        outcome matches Err(e) ==> e@ == CdnErrorView::IntegrityMismatch,
{
    match recomputed {
        Some(text) => {
            if crate::text::same_text(text.as_str(), cid.as_str()) {
                Ok(())
            } else {
                Err(CdnError::IntegrityMismatch)
            }
        },
        None => Err(CdnError::IntegrityMismatch),
    }
}

/// Verifies that `data` is the content that `cid` names.
///
/// The content is hashed anew, with the hash function that `cid` names, and
/// written as an identifier under the codec of `cid`; the check passes only
/// if that gives the text of `cid` exactly.
pub fn verify_cid(cid: Cid, data: &[u8]) -> (outcome: Result<(), CdnError>)
    ensures
        outcome.is_ok() == cid@.names(data@),
        outcome matches Err(e) ==> e@ == CdnErrorView::IntegrityMismatch,
{
    let recomputed = match hash_content(cid.hash(), data) {
        Some(multihash) => write_cid(cid.codec(), multihash.as_slice()),
        None => None,
    };
    compare_cid(&cid, recomputed)
}

/// Reads the answer of the identity directory: the origin endpoint, where the
/// identity was found and names one.
pub fn resolve_pds_endpoint(answer: Result<Option<String>, String>) -> (outcome: Result<
    String,
    CdnError,
>)
    ensures
        match answer {
            Ok(Some(endpoint)) => outcome matches Ok(e) && e@ == endpoint@,
            Ok(None) => outcome matches Err(e) && e@ == CdnErrorView::NoOriginEndpoint,
            Err(cause) => outcome matches Err(e) && e@ == CdnErrorView::IdentityResolutionFailed(
                cause@,
            ),
        },
{
    match answer {
        Ok(Some(endpoint)) => Ok(endpoint),
        Ok(None) => Err(CdnError::NoOriginEndpoint),
        Err(cause) => Err(CdnError::IdentityResolutionFailed(cause)),
    }
}

/// Reads the answer of the origin: the blob's bytes, where it delivered them.
pub fn get_blob_from_pds(answer: Result<Vec<u8>, String>) -> (outcome: Result<Vec<u8>, CdnError>)
    ensures
        match answer {
            Ok(bytes) => outcome matches Ok(b) && b@ == bytes@,
            Err(cause) => outcome matches Err(e) && e@ == CdnErrorView::OriginFetchFailed(cause@),
        },
{
    match answer {
        Ok(bytes) => Ok(bytes),
        Err(cause) => Err(CdnError::OriginFetchFailed(cause)),
    }
}

} // verus!
