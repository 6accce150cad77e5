use cdn::atproto::{compare_cid, get_blob_from_pds, resolve_pds_endpoint, verify_cid, Cid, Did};
use cdn::errors::CdnError;

const RAW: u64 = 0x55;
const DAG_PB: u64 = 0x70;

/// The identifier of the three bytes `foo` under the raw codec, written in
/// base 64 as the `cid` crate's documentation gives it.
const FOO_BASE64: &str = "mAVUSICwmtGto/8aP+ZtFPB0wQTQTQi1wZIO/oPmKXohiZueu";

/// The same identifier in its canonical base 32 text.
const FOO_BASE32: &str = "bafkreibme22gw2h7y2h7tg2fhqotaqjucnbc24deqo72b6mkl2egezxhvy";

fn did(text: &str) -> Option<Did> {
    Did::new(text.to_string())
}

#[test]
fn did_accepts_common_methods() {
    assert_eq!(did("did:plc:z72i7hdynmk6r22z27h6tvur").unwrap().as_str(), "did:plc:z72i7hdynmk6r22z27h6tvur");
    assert!(did("did:web:example.com").is_some());
    assert!(did("did:example:abc").is_some());
    assert!(did("did:method:val:two").is_some());
    assert!(did("did:m:v").is_some());
    assert!(did("did:method:val-two").is_some());
    assert!(did("did:method:val_two").is_some());
    assert!(did("did:method:val.two").is_some());
    assert!(did("did:m:%a").is_some());
    assert!(did("did:m::::a").is_some());
}

#[test]
fn did_rejects_what_is_no_identifier() {
    assert!(did("").is_none());
    assert!(did("did").is_none());
    assert!(did("did:").is_none());
    assert!(did("did:plc").is_none());
    assert!(did("did:plc:").is_none());
    assert!(did("did::abc").is_none());
    assert!(did("DID:plc:abc").is_none());
    assert!(did("did:PLC:abc").is_none());
    assert!(did("did:pl1c:abc").is_none());
    assert!(did("did:plc:abc:").is_none());
    assert!(did("did:plc:abc%").is_none());
    assert!(did("did:plc:abc/def").is_none());
    assert!(did("did:plc:abc def").is_none());
    assert!(did("did:plc:abc\n").is_none());
    assert!(did(" did:plc:abc").is_none());
    assert!(did("did:plc:ab\u{e9}").is_none());
    assert!(did("xdid:plc:abc").is_none());
}

#[test]
fn did_length_limit_is_2048() {
    let longest = format!("did:plc:{}", "a".repeat(2040));
    assert_eq!(longest.len(), 2048);
    assert!(did(&longest).is_some());
    let too_long = format!("did:plc:{}", "a".repeat(2041));
    assert!(did(&too_long).is_none());
}

#[test]
fn did_clone_keeps_the_text() {
    let d = did("did:plc:abc").unwrap();
    assert_eq!(d.clone(), d);
    assert_eq!(d.clone().as_str(), "did:plc:abc");
}

#[test]
fn cid_is_held_in_canonical_text() {
    let cid = Cid::new(FOO_BASE64).unwrap();
    assert_eq!(cid.as_str(), FOO_BASE32);
    assert_eq!(cid.codec(), RAW);
    assert_eq!(cid.hash(), 0x12);
    let again = Cid::new(FOO_BASE32).unwrap();
    assert_eq!(again, cid);
    assert_eq!(cid.clone(), cid);
}

#[test]
fn cid_rejects_garbage() {
    assert!(Cid::new("").is_none());
    assert!(Cid::new("b").is_none());
    assert!(Cid::new("not a cid").is_none());
    assert!(Cid::new("bafy...xyz").is_none());
}

#[test]
fn verify_cid_accepts_the_named_content() {
    let cid = Cid::new(FOO_BASE32).unwrap();
    assert_eq!(verify_cid(cid.clone(), b"foo"), Ok(()));
}

#[test]
fn verify_cid_rejects_a_flipped_byte() {
    let cid = Cid::new(FOO_BASE32).unwrap();
    assert_eq!(verify_cid(cid.clone(), b"fop"), Err(CdnError::IntegrityMismatch));
    assert_eq!(verify_cid(cid.clone(), b"goo"), Err(CdnError::IntegrityMismatch));
}

#[test]
fn verify_cid_rejects_truncated_and_extended_content() {
    let cid = Cid::new(FOO_BASE32).unwrap();
    assert_eq!(verify_cid(cid.clone(), b"fo"), Err(CdnError::IntegrityMismatch));
    assert_eq!(verify_cid(cid.clone(), b""), Err(CdnError::IntegrityMismatch));
    assert_eq!(verify_cid(cid.clone(), b"foo\0"), Err(CdnError::IntegrityMismatch));
}

#[test]
fn verify_cid_keeps_the_requested_codec() {
    let hash = multihash_codetable::MultihashDigest::digest(&multihash_codetable::Code::Sha2_256, b"foo");
    let dag_pb = cid::Cid::new_v1(DAG_PB, hash).to_string();
    assert_ne!(dag_pb, FOO_BASE32);
    let cid = Cid::new(&dag_pb).unwrap();
    assert_eq!(cid.codec(), DAG_PB);
    assert_eq!(cid.as_str(), dag_pb);
    assert_eq!(verify_cid(cid.clone(), b"foo"), Ok(()));
    assert_eq!(verify_cid(cid.clone(), b"bar"), Err(CdnError::IntegrityMismatch));
}

#[test]
fn verify_cid_rejects_a_version_0_identifier() {
    let hash = multihash_codetable::MultihashDigest::digest(&multihash_codetable::Code::Sha2_256, b"foo");
    let v0 = cid::Cid::new_v0(hash).unwrap().to_string();
    let cid = Cid::new(&v0).unwrap();
    assert_eq!(cid.as_str(), v0);
    assert_eq!(verify_cid(cid.clone(), b"foo"), Err(CdnError::IntegrityMismatch));
}

#[test]
fn verify_cid_hashes_with_the_named_function() {
    let hash = multihash_codetable::MultihashDigest::digest(&multihash_codetable::Code::Sha2_512, b"foo");
    let cid = Cid::new(&cid::Cid::new_v1(RAW, hash).to_string()).unwrap();
    assert_eq!(cid.hash(), 0x13);
    assert_eq!(verify_cid(cid.clone(), b"foo"), Ok(()));
    assert_eq!(verify_cid(cid.clone(), b"fop"), Err(CdnError::IntegrityMismatch));
}

#[test]
fn verify_cid_rejects_a_hash_of_another_function() {
    let sha512 = multihash_codetable::MultihashDigest::digest(&multihash_codetable::Code::Sha2_512, b"foo");
    let relabelled = cid::multihash::Multihash::<64>::wrap(0x12, &sha512.digest()[..32]).unwrap();
    let cid = Cid::new(&cid::Cid::new_v1(RAW, relabelled).to_string()).unwrap();
    assert_eq!(cid.hash(), 0x12);
    assert_eq!(verify_cid(cid, b"foo"), Err(CdnError::IntegrityMismatch));
}

#[test]
fn verify_cid_rejects_a_hash_function_it_does_not_know() {
    let sha256 = multihash_codetable::MultihashDigest::digest(&multihash_codetable::Code::Sha2_256, b"foo");
    let unknown = cid::multihash::Multihash::<64>::wrap(0x300000, sha256.digest()).unwrap();
    let cid = Cid::new(&cid::Cid::new_v1(RAW, unknown).to_string()).unwrap();
    assert_eq!(cid.hash(), 0x300000);
    assert_eq!(verify_cid(cid, b"foo"), Err(CdnError::IntegrityMismatch));
}

#[test]
fn compare_cid_is_exact() {
    let cid = Cid::new(FOO_BASE32).unwrap();
    let mismatch = Err(CdnError::IntegrityMismatch);
    assert_eq!(compare_cid(&cid, Some(FOO_BASE32.to_string())), Ok(()));
    assert_eq!(compare_cid(&cid, Some(FOO_BASE64.to_string())), mismatch);
    assert_eq!(compare_cid(&cid, Some(FOO_BASE32[1..].to_string())), mismatch);
    assert_eq!(compare_cid(&cid, Some(FOO_BASE32.to_uppercase())), mismatch);
    assert_eq!(compare_cid(&cid, Some(String::new())), mismatch);
    assert_eq!(compare_cid(&cid, None), mismatch);
}

#[test]
fn resolve_pds_endpoint_reads_each_answer() {
    assert_eq!(
        resolve_pds_endpoint(Ok(Some("https://pds.example".to_string()))),
        Ok("https://pds.example".to_string())
    );
    assert_eq!(resolve_pds_endpoint(Ok(None)), Err(CdnError::NoOriginEndpoint));
    assert_eq!(
        resolve_pds_endpoint(Err("lookup failed".to_string())),
        Err(CdnError::IdentityResolutionFailed("lookup failed".to_string()))
    );
}

#[test]
fn get_blob_from_pds_reads_each_answer() {
    assert_eq!(get_blob_from_pds(Ok(vec![1, 2, 3])), Ok(vec![1, 2, 3]));
    assert_eq!(get_blob_from_pds(Ok(vec![])), Ok(vec![]));
    assert_eq!(
        get_blob_from_pds(Err("connection reset".to_string())),
        Err(CdnError::OriginFetchFailed("connection reset".to_string()))
    );
}

fn lower(c: char) -> bool {
    c.is_ascii_lowercase()
}

fn ends_identifier(c: char) -> bool {
    c.is_ascii_alphanumeric() || c == '.' || c == '_' || c == '-'
}

fn in_identifier(c: char) -> bool {
    ends_identifier(c) || c == ':' || c == '%'
}

/// The syntax of an actor identifier, spelled out: `did:`, a method of
/// lower-case letters, a colon, and an identifier that ends in neither `:`
/// nor `%`; 2048 characters at most.
fn has_did_syntax(text: &str) -> bool {
    let chars: Vec<char> = text.chars().collect();
    if chars.len() > 2048 || chars.len() < 7 || chars[..4] != ['d', 'i', 'd', ':'] {
        return false;
    }
    let colon = match chars[4..].iter().position(|c| !lower(*c)) {
        Some(offset) => 4 + offset,
        None => return false,
    };
    colon > 4
        && chars[colon] == ':'
        && colon + 1 < chars.len()
        && chars[colon + 1..].iter().all(|c| in_identifier(*c))
        && ends_identifier(chars[chars.len() - 1])
}

fn extend(prefix: &str, alphabet: &[char], depth: usize, checked: &mut usize) {
    assert_eq!(did(prefix).is_some(), has_did_syntax(prefix), "{:?}", prefix);
    *checked += 1;
    if depth > 0 {
        for c in alphabet {
            let mut longer = prefix.to_string();
            longer.push(*c);
            extend(&longer, alphabet, depth - 1, checked);
        }
    }
}

#[test]
fn did_syntax_on_every_short_text() {
    let alphabet = ['d', 'z', 'A', '7', ':', '%', '.', '_', '-', '/', ' ', '\u{e9}'];
    let mut checked = 0;
    extend("did:", &alphabet, 4, &mut checked);
    extend("did", &alphabet, 2, &mut checked);
    extend("", &alphabet, 3, &mut checked);
    extend("Did:", &alphabet, 3, &mut checked);
    extend("did:plc:", &alphabet, 3, &mut checked);
    assert!(checked > 25_000);
}

#[test]
fn did_holds_no_slash() {
    for text in ["did:plc:abc", "did:web:example.com", "did:m:%a", "did:key:z6Mk-._:x"] {
        let d = did(text).unwrap();
        assert!(!d.as_str().contains('/'));
    }
}

#[test]
fn cid_is_read_from_a_path_form() {
    let cid = Cid::new(&format!("/ipfs/{}", FOO_BASE32)).unwrap();
    assert_eq!(cid.as_str(), FOO_BASE32);
    assert_eq!(cid.codec(), RAW);
}

#[test]
fn cid_rejects_odd_texts_without_harm() {
    for text in ["\u{e9}", "\u{e9}\u{e9}\u{e9}", "bafk", "Qm", "zzzzzzzz", "/ipfs/", "b\0\0", "m====", "  "] {
        assert!(Cid::new(text).is_none(), "{:?}", text);
    }
    let long = "b".repeat(100_000);
    assert!(Cid::new(&long).is_none());
}

#[test]
fn cid_canonical_text_reads_back_as_itself() {
    for data in [&b"foo"[..], &b""[..], &b"another blob"[..]] {
        let hash = multihash_codetable::MultihashDigest::digest(&multihash_codetable::Code::Sha2_256, data);
        for text in [cid::Cid::new_v1(RAW, hash).to_string(), cid::Cid::new_v0(hash).unwrap().to_string()] {
            let cid = Cid::new(&text).unwrap();
            assert_eq!(cid.as_str(), text);
            assert_eq!(Cid::new(cid.as_str()).unwrap(), cid);
        }
    }
}

#[test]
fn verify_cid_is_the_same_every_time() {
    let cid = Cid::new(FOO_BASE32).unwrap();
    assert_eq!(verify_cid(cid.clone(), b"foo"), verify_cid(cid.clone(), b"foo"));
    assert_eq!(verify_cid(cid.clone(), b"bar"), verify_cid(cid.clone(), b"bar"));
}
