//! The handling of one request as a sequence of decisions.
//!
//! Serving a blob needs an identity lookup, a cache read, a fetch from the
//! origin, an image codec and a cache write. None of them happens here: each
//! is asked for as an [`Action`], and its outcome comes back as an [`Event`].
//! What is decided in between, and so the order of the steps, is `get_blob`.

use vstd::prelude::*;
use vstd::string::*;
use crate::atproto::{
    get_blob_from_pds,
    is_did,
    parsed_cid,
    resolve_pds_endpoint,
    verify_cid,
    Cid,
    CidView,
    Did,
};
use crate::aws::{
    CacheParameters,
    CacheParametersView,
    ObjectRef,
    ObjectRefView,
    ReadAnswer,
};
use crate::errors::{CdnError, CdnErrorView};
use crate::manip::{content_type_of, get_image_bytes, guess_content_type, read_image};
use crate::presets::{ImageFormat, ImagePreset, ImageSize, Transform};
use crate::state::{AppState, AppStateView};

verus! {

/// A request whose path was read: what is asked for, of whom, and how.
#[derive(Debug, Clone, PartialEq, Eq)]
pub struct Request {
    pub preset: ImagePreset,
    pub did: Did,
    pub cid: Cid,
    pub format: ImageFormat,
}

/// A `Request` as plain values.
pub struct RequestView {
    pub preset: ImagePreset,
    pub did: Seq<char>,
    pub cid: CidView,
    pub format: ImageFormat,
}

impl View for Request {
    type V = RequestView;

    open spec fn view(&self) -> RequestView {
        RequestView { preset: self.preset, did: self.did@, cid: self.cid@, format: self.format }
    }
}

impl RequestView {
    /// The request together with the origin that its actor resolved to.
    pub open spec fn at(self, pds_endpoint: Seq<char>) -> CacheParametersView {
        CacheParametersView {
            pds_endpoint,
            preset: self.preset,
            format: self.format,
            did: self.did,
            cid: self.cid,
        }
    }
}

/// What the four segments of a request path ask for. They are read in the
/// order of the path, and the first that cannot be read is reported by name.
pub open spec fn request_of(
    preset: Seq<char>,
    did: Seq<char>,
    cid: Seq<char>,
    format: Seq<char>,
) -> Result<RequestView, CdnErrorView> {
    match ImagePreset::named(preset) {
        None => Err(CdnErrorView::UnknownPathSegment("preset"@)),
        Some(preset) => if !is_did(did) {
            Err(CdnErrorView::UnknownPathSegment("did"@))
        } else {
            match parsed_cid(cid) {
                None => Err(CdnErrorView::UnknownPathSegment("cid"@)),
                Some((codec, hash, text)) => match ImageFormat::named(format) {
                    None => Err(CdnErrorView::UnknownPathSegment("format"@)),
                    Some(format) => Ok(
                        RequestView { preset, did, cid: CidView { text, codec, hash }, format },
                    ),
                },
            }
        },
    }
}

impl Request {
    /// Reads the four segments of a request path.
    pub fn parse(preset: &str, did: &str, cid: &str, format: &str) -> (parsed: Result<
        Request,
        CdnError,
    >)
        ensures
            match parsed {
                Ok(request) => request_of(preset@, did@, cid@, format@) == Ok::<
                    RequestView,
                    CdnErrorView,
                >(request@) && request.did.wf(),
                Err(e) => request_of(preset@, did@, cid@, format@) == Err::<
                    RequestView,
                    CdnErrorView,
                >(e@),
            },
    {
        let preset = match ImagePreset::parse(preset) {
            Some(preset) => preset,
            None => { return Err(CdnError::UnknownPathSegment("preset".to_owned())); },
        };
        let did = match Did::new(did.to_owned()) {
            Some(did) => did,
            None => { return Err(CdnError::UnknownPathSegment("did".to_owned())); },
        };
        let cid = match Cid::new(cid) {
            Some(cid) => cid,
            None => { return Err(CdnError::UnknownPathSegment("cid".to_owned())); },
        };
        let format = match ImageFormat::parse(format) {
            Some(format) => format,
            None => { return Err(CdnError::UnknownPathSegment("format".to_owned())); },
        };
        Ok(Request { preset, did, cid, format })
    }
}

/// Where the handling of a request stands: what it is waiting for.
#[derive(Debug, Clone, PartialEq, Eq)]
pub enum State {
    /// Waiting for the identity directory.
    ResolveOrigin(Request),
    /// Waiting for the cache read.
    CheckCache(CacheParameters),
    /// Waiting for the origin's bytes.
    Fetch(CacheParameters),
    /// Waiting for the decoder; the bytes have passed the integrity check.
    Decode(CacheParameters),
    /// Waiting for the transformed image.
    Transform(CacheParameters),
    /// Waiting for the cache write; the blob is what will be served.
    Store(CacheParameters, Vec<u8>),
    /// The request was answered.
    Done,
}

/// A `State` as plain values.
pub enum StateView {
    ResolveOrigin(RequestView),
    CheckCache(CacheParametersView),
    Fetch(CacheParametersView),
    Decode(CacheParametersView),
    Transform(CacheParametersView),
    Store(CacheParametersView, Seq<u8>),
    Done,
}

impl View for State {
    type V = StateView;

    open spec fn view(&self) -> StateView {
        match self {
            State::ResolveOrigin(request) => StateView::ResolveOrigin(request@),
            State::CheckCache(params) => StateView::CheckCache(params@),
            State::Fetch(params) => StateView::Fetch(params@),
            State::Decode(params) => StateView::Decode(params@),
            State::Transform(params) => StateView::Transform(params@),
            State::Store(params, blob) => StateView::Store(params@, blob@),
            State::Done => StateView::Done,
        }
    }
}

/// The outcome of the step that was last asked for.
#[derive(Debug, PartialEq, Eq)]
pub enum Event {
    /// The identity directory answered: the origin endpoint, none on record,
    /// or the cause of a failed lookup.
    Resolved(Result<Option<String>, String>),
    /// The object store answered a read.
    CacheRead(ReadAnswer),
    /// The origin answered: the blob's bytes, or the cause of the failure.
    Fetched(Result<Vec<u8>, String>),
    /// The decoder answered: the size of the image, or why it is none.
    Decoded(Result<ImageSize, String>),
    /// The codec answered: the transformed and encoded image, or the cause
    /// of the failure.
    Transformed(Result<Vec<u8>, String>),
    /// The object store answered a write.
    Stored(Result<(), String>),
}

/// A `ReadAnswer` as plain values.
pub enum ReadAnswerView {
    Body(Seq<u8>),
    BodyUnreadable,
    NoSuchKey,
    Failed,
}

/// An `Event` as plain values.
pub enum EventView {
    Resolved(Result<Option<Seq<char>>, Seq<char>>),
    CacheRead(ReadAnswerView),
    Fetched(Result<Seq<u8>, Seq<char>>),
    Decoded(Result<ImageSize, Seq<char>>),
    Transformed(Result<Seq<u8>, Seq<char>>),
    Stored(Result<(), Seq<char>>),
}

impl View for Event {
    type V = EventView;

    open spec fn view(&self) -> EventView {
        match self {
            Event::Resolved(Ok(Some(endpoint))) => EventView::Resolved(Ok(Some(endpoint@))),
            Event::Resolved(Ok(None)) => EventView::Resolved(Ok(None)),
            Event::Resolved(Err(cause)) => EventView::Resolved(Err(cause@)),
            Event::CacheRead(ReadAnswer::Body(bytes)) => EventView::CacheRead(
                ReadAnswerView::Body(bytes@),
            ),
            Event::CacheRead(ReadAnswer::BodyUnreadable) => EventView::CacheRead(
                ReadAnswerView::BodyUnreadable,
            ),
            Event::CacheRead(ReadAnswer::NoSuchKey) => EventView::CacheRead(
                ReadAnswerView::NoSuchKey,
            ),
            Event::CacheRead(ReadAnswer::Failed) => EventView::CacheRead(ReadAnswerView::Failed),
            Event::Fetched(Ok(bytes)) => EventView::Fetched(Ok(bytes@)),
            Event::Fetched(Err(cause)) => EventView::Fetched(Err(cause@)),
            Event::Decoded(Ok(size)) => EventView::Decoded(Ok(*size)),
            Event::Decoded(Err(cause)) => EventView::Decoded(Err(cause@)),
            Event::Transformed(Ok(bytes)) => EventView::Transformed(Ok(bytes@)),
            Event::Transformed(Err(cause)) => EventView::Transformed(Err(cause@)),
            Event::Stored(Ok(())) => EventView::Stored(Ok(())),
            Event::Stored(Err(cause)) => EventView::Stored(Err(cause@)),
        }
    }
}

/// What is to be done next for a request.
#[derive(Debug, Clone, PartialEq, Eq)]
pub enum Action {
    /// Look the actor up in the identity directory at `directory`.
    Resolve { directory: String, did: Did },
    /// Read the object from the store.
    ReadCache(ObjectRef),
    /// Fetch the actor's blob from the origin at `endpoint`.
    FetchBlob { endpoint: String, did: Did, cid: Cid },
    /// Decode the bytes as an image and report its size.
    Decode { bytes: Vec<u8> },
    /// Apply the transform to the decoded image and encode it.
    Transform { transform: Transform, format: ImageFormat },
    /// Write the blob to the store.
    WriteCache { object: ObjectRef, blob: Vec<u8> },
    /// Answer the request with the blob. A `warning` tells of a failure that
    /// did not keep the blob from being served.
    Respond { blob: Vec<u8>, content_type: String, warning: Option<CdnError> },
    /// Answer the request with the error.
    Fail(CdnError),
}

/// An `Action` as plain values.
pub enum ActionView {
    Resolve { directory: Seq<char>, did: Seq<char> },
    ReadCache(ObjectRefView),
    FetchBlob { endpoint: Seq<char>, did: Seq<char>, cid: CidView },
    Decode { bytes: Seq<u8> },
    Transform { transform: Transform, format: ImageFormat },
    WriteCache { object: ObjectRefView, blob: Seq<u8> },
    Respond { blob: Seq<u8>, content_type: Seq<char>, warning: Option<CdnErrorView> },
    Fail(CdnErrorView),
}

impl View for Action {
    type V = ActionView;

    open spec fn view(&self) -> ActionView {
        match self {
            Action::Resolve { directory, did } => ActionView::Resolve {
                directory: directory@,
                did: did@,
            },
            Action::ReadCache(object) => ActionView::ReadCache(object@),
            Action::FetchBlob { endpoint, did, cid } => ActionView::FetchBlob {
                endpoint: endpoint@,
                did: did@,
                cid: cid@,
            },
            Action::Decode { bytes } => ActionView::Decode { bytes: bytes@ },
            Action::Transform { transform, format } => ActionView::Transform {
                transform: *transform,
                format: *format,
            },
            Action::WriteCache { object, blob } => ActionView::WriteCache {
                object: object@,
                blob: blob@,
            },
            Action::Respond { blob, content_type, warning } => ActionView::Respond {
                blob: blob@,
                content_type: content_type@,
                warning: match warning {
                    Some(e) => Some(e@),
                    None => None,
                },
            },
            Action::Fail(e) => ActionView::Fail(e@),
        }
    }
}

/// The object under which the blob of `params` is cached.
pub open spec fn cached_at(app: AppStateView, params: CacheParametersView) -> ObjectRefView {
    ObjectRefView { bucket: app.bucket, key: params.key() }
}

/// The end of a request in an error.
pub open spec fn fail(e: CdnErrorView) -> (StateView, ActionView) {
    (StateView::Done, ActionView::Fail(e))
}

/// The step that follows when `event` arrives in `state`.
///
/// The steps follow one another in a fixed order, and each state takes the
/// outcome of its own step only: any other event ends the request in a
/// `ServerError`.
pub open spec fn next(app: AppStateView, state: StateView, event: EventView) -> (
    StateView,
    ActionView,
) {
    match (state, event) {
        (StateView::ResolveOrigin(request), EventView::Resolved(answer)) => match answer {
            Ok(Some(endpoint)) => (
                StateView::CheckCache(request.at(endpoint)),
                ActionView::ReadCache(cached_at(app, request.at(endpoint))),
            ),
            Ok(None) => fail(CdnErrorView::NoOriginEndpoint),
            Err(cause) => fail(CdnErrorView::IdentityResolutionFailed(cause)),
        },
        (StateView::CheckCache(params), EventView::CacheRead(answer)) => match answer {
            ReadAnswerView::Body(blob) => match content_type_of(blob) {
                Ok(content_type) => (
                    StateView::Done,
                    ActionView::Respond { blob, content_type, warning: None },
                ),
                Err(e) => fail(e),
            },
            ReadAnswerView::NoSuchKey => (
                StateView::Fetch(params),
                ActionView::FetchBlob {
                    endpoint: params.pds_endpoint,
                    did: params.did,
                    cid: params.cid,
                },
            ),
            ReadAnswerView::BodyUnreadable => fail(CdnErrorView::StorageReadFailed),
            ReadAnswerView::Failed => fail(CdnErrorView::StorageReadFailed),
        },
        (StateView::Fetch(params), EventView::Fetched(answer)) => match answer {
            Ok(bytes) => if params.cid.names(bytes) {
                (StateView::Decode(params), ActionView::Decode { bytes })
            } else {
                fail(CdnErrorView::IntegrityMismatch)
            },
            Err(cause) => fail(CdnErrorView::OriginFetchFailed(cause)),
        },
        (StateView::Decode(params), EventView::Decoded(answer)) => match answer {
            Ok(size) => match params.preset.transform_of(size) {
                Some(transform) => (
                    StateView::Transform(params),
                    ActionView::Transform { transform, format: params.format },
                ),
                None => fail(CdnErrorView::TransformFailed("image has no pixels"@)),
            },
            Err(cause) => fail(CdnErrorView::UnrecognizedImage(cause)),
        },
        (StateView::Transform(params), EventView::Transformed(answer)) => match answer {
            Ok(blob) => (
                StateView::Store(params, blob),
                ActionView::WriteCache { object: cached_at(app, params), blob },
            ),
            Err(cause) => fail(CdnErrorView::TransformFailed(cause)),
        },
        (StateView::Store(params, blob), EventView::Stored(answer)) => (
            StateView::Done,
            ActionView::Respond {
                blob,
                content_type: params.format.mime_type(),
                warning: match answer {
                    Ok(_) => None,
                    Err(_) => Some(CdnErrorView::StorageWriteFailed),
                },
            },
        ),
        _ => fail(CdnErrorView::ServerError),
    }
}

/// The first step for a request path that was read: the actor is looked up.
/// A path that could not be read ends the request at once.
pub open spec fn first(app: AppStateView, parsed: Result<RequestView, CdnErrorView>) -> (
    StateView,
    ActionView,
) {
    match parsed {
        Ok(request) => (
            StateView::ResolveOrigin(request),
            ActionView::Resolve { directory: app.directory_url, did: request.did },
        ),
        Err(e) => fail(e),
    }
}

/// Begins the handling of a request from the four segments of its path.
pub fn start(app: &AppState, preset: &str, did: &str, cid: &str, format: &str) -> (step: (
    State,
    Action,
))
    ensures
        (step.0@, step.1@) == first(app@, request_of(preset@, did@, cid@, format@)),
{
    match Request::parse(preset, did, cid, format) {
        Ok(request) => {
            let action = Action::Resolve {
                directory: app.directory_url().to_owned(),
                did: request.did.clone(),
            };
            (State::ResolveOrigin(request), action)
        },
        Err(e) => (State::Done, Action::Fail(e)),
    }
}

/// A path whose preset or format is not known ends the request at once, in
/// a client error, before the actor is looked up or anything else is asked
/// for; so does one whose actor or content identifier cannot be read.
pub proof fn lemma_unknown_segment_is_refused(
    app: AppStateView,
    preset: Seq<char>,
    did: Seq<char>,
    cid: Seq<char>,
    format: Seq<char>,
)
    requires
        ImagePreset::named(preset).is_none() || ImageFormat::named(format).is_none() || !is_did(
            did,
        ) || parsed_cid(cid).is_none(),
    ensures
        ({
            let (state, action) = first(app, request_of(preset, did, cid, format));
            &&& state is Done
            &&& action matches ActionView::Fail(e)
            &&& e is UnknownPathSegment
            &&& 400 <= e.status() < 500
        }),
{
}

/// A path that can be read begins a request for just what it names, in the
/// canonical text of the content identifier, with the lookup of the actor.
pub proof fn lemma_known_path_is_accepted(
    app: AppStateView,
    preset: ImagePreset,
    did: Seq<char>,
    cid: Seq<char>,
    format: ImageFormat,
)
    requires
        is_did(did),
        parsed_cid(cid).is_some(),
    ensures
        ({
            let (state, action) = first(app, request_of(preset.name(), did, cid, format.name()));
            &&& state matches StateView::ResolveOrigin(request)
            &&& request.preset == preset
            &&& request.did == did
            &&& parsed_cid(cid) == Some((request.cid.codec, request.cid.hash, request.cid.text))
            &&& request.format == format
            &&& action == ActionView::Resolve { directory: app.directory_url, did }
        }),
{
    crate::presets::lemma_preset_names(preset, preset, preset.name());
    crate::presets::lemma_format_names(format, format, format.name());
}

/// A copy of the bytes.
fn copy_bytes(bytes: &Vec<u8>) -> (copy: Vec<u8>)
    ensures
        copy@ == bytes@,
{
    let copy = bytes.clone();
    assert(copy@ =~= bytes@);
    copy
}

/// Takes the handling of a request one step further: from where it stands
/// and the outcome of the step that was asked for last, to where it stands
/// then and what is to be done next.
pub fn get_blob(app: &AppState, state: State, event: Event) -> (step: (State, Action))
    ensures
        (step.0@, step.1@) == next(app@, state@, event@),
{
    match (state, event) {
        (State::ResolveOrigin(request), Event::Resolved(answer)) => {
            match resolve_pds_endpoint(answer) {
                Ok(pds_endpoint) => {
                    let params = CacheParameters {
                        pds_endpoint,
                        preset: request.preset,
                        format: request.format,
                        did: request.did,
                        cid: request.cid,
                    };
                    let object = app.clone().aws().locate(&params);
                    (State::CheckCache(params), Action::ReadCache(object))
                },
                Err(e) => (State::Done, Action::Fail(e)),
            }
        },
        (State::CheckCache(params), Event::CacheRead(answer)) => {
            match app.clone().aws().get_cached_blob(answer) {
                Ok(Some(blob)) => match guess_content_type(blob.as_slice()) {
                    Ok(content_type) => (
                        State::Done,
                        Action::Respond { blob, content_type, warning: None },
                    ),
                    Err(e) => (State::Done, Action::Fail(e)),
                },
                Ok(None) => {
                    let action = Action::FetchBlob {
                        endpoint: params.pds_endpoint.clone(),
                        did: params.did.clone(),
                        cid: params.cid.clone(),
                    };
                    (State::Fetch(params), action)
                },
                Err(e) => (State::Done, Action::Fail(e)),
            }
        },
        (State::Fetch(params), Event::Fetched(answer)) => {
            match get_blob_from_pds(answer) {
                Ok(bytes) => match verify_cid(params.cid.clone(), bytes.as_slice()) {
                    Ok(()) => (State::Decode(params), Action::Decode { bytes }),
                    Err(e) => (State::Done, Action::Fail(e)),
                },
                Err(e) => (State::Done, Action::Fail(e)),
            }
        },
        (State::Decode(params), Event::Decoded(answer)) => {
            match read_image(answer) {
                Ok(size) => match params.preset.process(size) {
                    Ok(transform) => {
                        let format = params.format;
                        (State::Transform(params), Action::Transform { transform, format })
                    },
                    Err(e) => (State::Done, Action::Fail(e)),
                },
                Err(e) => (State::Done, Action::Fail(e)),
            }
        },
        (State::Transform(params), Event::Transformed(answer)) => {
            match get_image_bytes(answer) {
                Ok(blob) => {
                    let object = app.clone().aws().locate(&params);
                    let action = Action::WriteCache { object, blob: copy_bytes(&blob) };
                    (State::Store(params, blob), action)
                },
                Err(e) => (State::Done, Action::Fail(e)),
            }
        },
        (State::Store(params, blob), Event::Stored(answer)) => {
            let content_type = String::from_str(params.format.to_mime_type());
            let warning = match app.clone().aws().store_blob(answer) {
                Ok(()) => None,
                Err(e) => Some(e),
            };
            (State::Done, Action::Respond { blob, content_type, warning })
        },
        _ => (State::Done, Action::Fail(CdnError::ServerError)),
    }
}

} // verus!
