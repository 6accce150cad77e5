use cdn::atproto::{Cid, Did};
use cdn::aws::{AwsWrapper, CacheParameters, ObjectRef, ReadAnswer};
use cdn::errors::CdnError;
use cdn::presets::{ImageFormat, ImagePreset};
use cdn::state::AppState;

const FOO: &str = "bafkreibme22gw2h7y2h7tg2fhqotaqjucnbc24deqo72b6mkl2egezxhvy";

fn cid_of(data: &[u8]) -> String {
    let hash = multihash_codetable::MultihashDigest::digest(&multihash_codetable::Code::Sha2_256, data);
    cid::Cid::new_v1(0x55, hash).to_string()
}

fn cache() -> AwsWrapper {
    AwsWrapper::new("blobs".to_string())
}

fn params(preset: ImagePreset, did: &str, cid: &str, format: ImageFormat) -> CacheParameters {
    CacheParameters {
        pds_endpoint: "https://pds.example".to_string(),
        preset,
        format,
        did: Did::new(did.to_string()).unwrap(),
        cid: Cid::new(cid).unwrap(),
    }
}

#[test]
fn key_joins_the_four_parts() {
    let p = params(ImagePreset::Avatar, "did:plc:abc", FOO, ImageFormat::JPEG);
    assert_eq!(
        p.to_s3_key(),
        "avatar/did:plc:abc/bafkreibme22gw2h7y2h7tg2fhqotaqjucnbc24deqo72b6mkl2egezxhvy.jpeg"
    );
    let q = params(ImagePreset::FeedThumbnail, "did:web:example.com", FOO, ImageFormat::WEBP);
    assert_eq!(
        q.to_s3_key(),
        "feed_thumbnail/did:web:example.com/bafkreibme22gw2h7y2h7tg2fhqotaqjucnbc24deqo72b6mkl2egezxhvy.webp"
    );
    let r = params(ImagePreset::FeedFullsize, "did:plc:abc", FOO, ImageFormat::PNG);
    assert_eq!(
        r.to_s3_key(),
        "feed_fullsize/did:plc:abc/bafkreibme22gw2h7y2h7tg2fhqotaqjucnbc24deqo72b6mkl2egezxhvy.png"
    );
}

#[test]
fn key_holds_the_canonical_content_identifier() {
    let p = params(
        ImagePreset::Avatar,
        "did:plc:abc",
        "mAVUSICwmtGto/8aP+ZtFPB0wQTQTQi1wZIO/oPmKXohiZueu",
        ImageFormat::JPEG,
    );
    assert_eq!(
        p.to_s3_key(),
        "avatar/did:plc:abc/bafkreibme22gw2h7y2h7tg2fhqotaqjucnbc24deqo72b6mkl2egezxhvy.jpeg"
    );
}

#[test]
fn key_does_not_depend_on_the_origin() {
    let p = params(ImagePreset::Avatar, "did:plc:abc", FOO, ImageFormat::JPEG);
    let mut q = p.duplicate();
    assert_eq!(q, p);
    q.pds_endpoint = "https://other.example".to_string();
    assert_eq!(p.to_s3_key(), q.to_s3_key());
}

#[test]
fn equal_requests_have_equal_keys() {
    let p = params(ImagePreset::Avatar, "did:plc:abc", FOO, ImageFormat::JPEG);
    let q = params(ImagePreset::Avatar, "did:plc:abc", FOO, ImageFormat::JPEG);
    assert_eq!(p.to_s3_key(), q.to_s3_key());
    assert_eq!(p.to_s3_key(), p.to_s3_key());
}

#[test]
fn distinct_requests_have_distinct_keys() {
    let presets = [ImagePreset::FeedThumbnail, ImagePreset::FeedFullsize, ImagePreset::Avatar];
    let formats = [ImageFormat::JPEG, ImageFormat::PNG, ImageFormat::WEBP];
    let dids = ["did:plc:abc", "did:plc:abd", "did:plc:abc:d", "did:web:abc", "did:plc:abc.png"];
    let cids = [cid_of(b"foo"), cid_of(b"bar"), cid_of(b"")];
    let mut keys: Vec<String> = Vec::new();
    for preset in presets {
        for format in formats {
            for did in dids {
                for cid in cids.iter() {
                    keys.push(params(preset, did, cid, format).to_s3_key());
                }
            }
        }
    }
    assert_eq!(keys.len(), 135);
    for (i, a) in keys.iter().enumerate() {
        for (j, b) in keys.iter().enumerate() {
            assert_eq!(a == b, i == j);
        }
    }
}

#[test]
fn blob_is_located_in_the_configured_bucket() {
    let cache = AwsWrapper::new("blobs".to_string());
    assert_eq!(cache.bucket(), "blobs");
    let p = params(ImagePreset::Avatar, "did:plc:abc", FOO, ImageFormat::PNG);
    assert_eq!(
        cache.locate(&p),
        ObjectRef { bucket: "blobs".to_string(), key: p.to_s3_key() }
    );
}

#[test]
fn configuration_is_handed_on() {
    let app = AppState::new("blobs".to_string(), "https://plc.directory".to_string());
    assert_eq!(app.directory_url(), "https://plc.directory");
    assert_eq!(app.clone(), app);
    assert_eq!(app.clone().aws(), AwsWrapper::new("blobs".to_string()));
    assert_eq!(app.aws().bucket(), "blobs");
}

#[test]
fn read_answer_with_a_body_is_a_hit() {
    assert_eq!(cache().get_cached_blob(ReadAnswer::Body(vec![1, 2, 3])), Ok(Some(vec![1, 2, 3])));
    assert_eq!(cache().get_cached_blob(ReadAnswer::Body(vec![])), Ok(Some(vec![])));
}

#[test]
fn missing_key_is_a_miss_and_no_error() {
    assert_eq!(cache().get_cached_blob(ReadAnswer::NoSuchKey), Ok(None));
}

#[test]
fn store_failure_is_no_miss() {
    assert_eq!(cache().get_cached_blob(ReadAnswer::Failed), Err(CdnError::StorageReadFailed));
    assert_eq!(cache().get_cached_blob(ReadAnswer::BodyUnreadable), Err(CdnError::StorageReadFailed));
}

#[test]
fn write_answer_is_read() {
    assert_eq!(cache().store_blob(Ok(())), Ok(()));
    assert_eq!(cache().store_blob(Err("access denied".to_string())), Err(CdnError::StorageWriteFailed));
}

#[test]
fn blob_written_is_found_again() {
    let cache = cache();
    let written = params(ImagePreset::Avatar, "did:plc:abc", FOO, ImageFormat::JPEG);
    let mut wanted = written.duplicate();
    wanted.pds_endpoint = "https://moved.example".to_string();
    let mut store = std::collections::HashMap::new();
    let object = cache.locate(&written);
    assert_eq!(cache.store_blob(Ok(())), Ok(()));
    store.insert((object.bucket, object.key), vec![1u8, 2, 3]);
    let object = cache.locate(&wanted);
    let answer = match store.get(&(object.bucket, object.key)) {
        Some(blob) => ReadAnswer::Body(blob.clone()),
        None => ReadAnswer::NoSuchKey,
    };
    assert_eq!(cache.get_cached_blob(answer), Ok(Some(vec![1, 2, 3])));
    let other = params(ImagePreset::Avatar, "did:plc:abc", FOO, ImageFormat::PNG);
    let object = cache.locate(&other);
    assert!(store.get(&(object.bucket, object.key)).is_none());
}
