//! The cache of transformed blobs: where each blob is kept, and the reading
//! of what the object store answered.

use vstd::prelude::*;
use vstd::string::*;
use crate::atproto::{is_did, lemma_did_holds_no_slash, Cid, CidView, Did};
use crate::errors::{CdnError, CdnErrorView};
use crate::presets::{lemma_format_names, lemma_preset_names, ImageFormat, ImagePreset};
use crate::text::{lemma_cut_at_first, lemma_cut_at_last};

verus! {

/// The key under which the blob of a request is cached:
/// `<preset>/<actor identifier>/<content identifier>.<format>`.
pub open spec fn cache_key(
    preset: ImagePreset,
    did: Seq<char>,
    cid: Seq<char>,
    format: ImageFormat,
) -> Seq<char> {
    preset.name() + seq!['/'] + did + seq!['/'] + cid + seq!['.'] + format.name()
}

/// Requests that differ in preset, actor identifier, content identifier or
/// format have different cache keys, and equal requests have the same key.
pub proof fn lemma_cache_key_injective(
    preset1: ImagePreset,
    did1: Seq<char>,
    cid1: Seq<char>,
    format1: ImageFormat,
    preset2: ImagePreset,
    did2: Seq<char>,
    cid2: Seq<char>,
    format2: ImageFormat,
)
    requires
        is_did(did1),
        is_did(did2),
    ensures
        cache_key(preset1, did1, cid1, format1) == cache_key(preset2, did2, cid2, format2) <==> (
        preset1 == preset2 && did1 == did2 && cid1 == cid2 && format1 == format2),
{
    let key1 = cache_key(preset1, did1, cid1, format1);
    let key2 = cache_key(preset2, did2, cid2, format2);
    if key1 == key2 {
        lemma_preset_names(preset1, preset2, key1);
        lemma_preset_names(preset2, preset1, key1);
        lemma_format_names(format1, format2, key1);
        lemma_format_names(format2, format1, key1);
        lemma_did_holds_no_slash(did1);
        lemma_did_holds_no_slash(did2);
        let rest1 = did1 + seq!['/'] + cid1 + seq!['.'] + format1.name();
        let rest2 = did2 + seq!['/'] + cid2 + seq!['.'] + format2.name();
        assert(key1 =~= preset1.name() + seq!['/'] + rest1);
        assert(key2 =~= preset2.name() + seq!['/'] + rest2);
        lemma_cut_at_first(preset1.name(), rest1, preset2.name(), rest2, '/');
        let tail1 = cid1 + seq!['.'] + format1.name();
        let tail2 = cid2 + seq!['.'] + format2.name();
        assert(rest1 =~= did1 + seq!['/'] + tail1);
        assert(rest2 =~= did2 + seq!['/'] + tail2);
        lemma_cut_at_first(did1, tail1, did2, tail2, '/');
        lemma_cut_at_last(cid1, format1.name(), cid2, format2.name(), '.');
    }
}

/// What identifies a cached blob, with the origin it came from.
#[derive(Debug, Clone, PartialEq, Eq)]
pub struct CacheParameters {
    pub pds_endpoint: String,
    pub preset: ImagePreset,
    pub format: ImageFormat,
    pub did: Did,
    pub cid: Cid,
}

/// `CacheParameters` as plain values.
pub struct CacheParametersView {
    pub pds_endpoint: Seq<char>,
    pub preset: ImagePreset,
    pub format: ImageFormat,
    pub did: Seq<char>,
    pub cid: CidView,
}

impl View for CacheParameters {
    type V = CacheParametersView;

    open spec fn view(&self) -> CacheParametersView {
        CacheParametersView {
            pds_endpoint: self.pds_endpoint@,
            preset: self.preset,
            format: self.format,
            did: self.did@,
            cid: self.cid@,
        }
    }
}

impl CacheParametersView {
    /// The key of the blob. The origin is no part of it.
    pub open spec fn key(self) -> Seq<char> {
        cache_key(self.preset, self.did, self.cid.text, self.format)
    }
}

impl CacheParameters {
    /// The key of the blob in the object store.
    pub fn to_s3_key(&self) -> (key: String)
        ensures
            key@ == self@.key(),
    {
        proof {
            reveal_strlit("/");
            reveal_strlit(".");
            assert("/"@ =~= seq!['/']);
            assert("."@ =~= seq!['.']);
        }
        let mut key = String::from_str(self.preset.as_str());
        key.append("/");
        key.append(self.did.as_str());
        key.append("/");
        key.append(self.cid.as_str());
        key.append(".");
        key.append(self.format.as_str());
        key
    }

    /// A copy of the parameters.
    pub fn duplicate(&self) -> (copy: CacheParameters)
        ensures
            copy@ == self@,
    {
        CacheParameters {
            pds_endpoint: self.pds_endpoint.clone(),
            preset: self.preset,
            format: self.format,
            did: self.did.clone(),
            cid: self.cid.clone(),
        }
    }
}

/// One object of the store: the bucket and the key in it.
#[derive(Debug, Clone, PartialEq, Eq)]
pub struct ObjectRef {
    pub bucket: String,
    pub key: String,
}

/// An `ObjectRef` as plain values.
pub struct ObjectRefView {
    pub bucket: Seq<char>,
    pub key: Seq<char>,
}

impl View for ObjectRef {
    type V = ObjectRefView;

    open spec fn view(&self) -> ObjectRefView {
        ObjectRefView { bucket: self.bucket@, key: self.key@ }
    }
}

/// What the object store answered to a read.
#[derive(Debug, Clone, PartialEq, Eq)]
pub enum ReadAnswer {
    /// The object exists and its body was read in full.
    Body(Vec<u8>),
    /// The object exists but its body could not be read.
    BodyUnreadable,
    /// There is no object under the key.
    NoSuchKey,
    /// The store failed in another way.
    Failed,
}

/// The cache of transformed blobs, kept in one bucket of an object store.
#[derive(Debug, Clone, PartialEq, Eq)]
pub struct AwsWrapper {
    bucket: String,
}

impl View for AwsWrapper {
    type V = Seq<char>;

    closed spec fn view(&self) -> Seq<char> {
        self.bucket@
    }
}

impl AwsWrapper {
    /// The cache in the bucket of the given name.
    pub fn new(bucket: String) -> (cache: AwsWrapper)
        ensures
            cache@ == bucket@,
    {
        AwsWrapper { bucket }
    }

    /// The name of the bucket.
    pub fn bucket(&self) -> (name: &str)
        ensures
            name@ == self@,
    {
        self.bucket.as_str()
    }

    /// Where the blob of a request is kept: in this cache's bucket, under the
    /// request's key.
    pub fn locate(&self, params: &CacheParameters) -> (object: ObjectRef)
        ensures
            object@.bucket == self@,
            object@.key == params@.key(),
    {
        ObjectRef { bucket: self.bucket.clone(), key: params.to_s3_key() }
    }

    /// Reads the store's answer to a read: the blob on a hit, `None` on a
    /// miss. A failure of the store is an error, never a miss.
    pub fn get_cached_blob(&self, answer: ReadAnswer) -> (outcome: Result<Option<Vec<u8>>, CdnError>)
        ensures
            match answer {
                ReadAnswer::Body(bytes) => outcome matches Ok(Some(blob)) && blob@ == bytes@,
                ReadAnswer::NoSuchKey => outcome matches Ok(None),
                ReadAnswer::BodyUnreadable => outcome matches Err(e) && e@
                    == CdnErrorView::StorageReadFailed,
                ReadAnswer::Failed => outcome matches Err(e) && e@
                    == CdnErrorView::StorageReadFailed,
            },
    {
        match answer {
            ReadAnswer::Body(bytes) => Ok(Some(bytes)),
            ReadAnswer::NoSuchKey => Ok(None),
            ReadAnswer::BodyUnreadable => Err(CdnError::StorageReadFailed),
            ReadAnswer::Failed => Err(CdnError::StorageReadFailed),
        }
    }

    /// Reads the store's answer to a write.
    pub fn store_blob(&self, answer: Result<(), String>) -> (outcome: Result<(), CdnError>)
        ensures
            outcome.is_ok() == answer.is_ok(),
            outcome matches Err(e) ==> e@ == CdnErrorView::StorageWriteFailed,
    {
        match answer {
            Ok(()) => Ok(()),
            Err(_) => Err(CdnError::StorageWriteFailed),
        }
    }
}

} // verus!
