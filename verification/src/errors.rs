//! The failures a request can end in, and how each is reported to the client.

use vstd::prelude::*;
use vstd::string::*;

verus! {

/// Why a request failed.
///
/// The variants that carry a string hold the underlying cause as text.
#[derive(Debug, Clone, PartialEq, Eq)]
pub enum CdnError {
    /// A path segment was not a known preset, actor identifier, content
    /// identifier or format; the string names the segment.
    UnknownPathSegment(String),
    /// The identity lookup failed.
    IdentityResolutionFailed(String),
    /// The identity was found but names no origin endpoint.
    NoOriginEndpoint,
    /// The origin did not deliver the blob.
    OriginFetchFailed(String),
    /// The fetched bytes do not hash to the requested content identifier.
    IntegrityMismatch,
    /// The bytes are not an image that can be read.
    UnrecognizedImage(String),
    /// The image could not be resized or encoded.
    TransformFailed(String),
    /// The cache could not be read; this is not a miss.
    StorageReadFailed,
    /// The cache could not be written. Never ends a request.
    StorageWriteFailed,
    /// The steps of a request were driven out of order.
    ServerError,
}

/// A `CdnError` with its texts as sequences of characters.
pub enum CdnErrorView {
    UnknownPathSegment(Seq<char>),
    IdentityResolutionFailed(Seq<char>),
    NoOriginEndpoint,
    OriginFetchFailed(Seq<char>),
    IntegrityMismatch,
    UnrecognizedImage(Seq<char>),
    TransformFailed(Seq<char>),
    StorageReadFailed,
    StorageWriteFailed,
    ServerError,
}

/// The body of an error response.
#[derive(Debug, Clone, PartialEq, Eq)]
pub struct CdnErrorResponse {
    pub error: String,
    pub reason: Option<String>,
}

/// A `CdnErrorResponse` with its texts as sequences of characters.
pub struct CdnErrorResponseView {
    pub error: Seq<char>,
    pub reason: Option<Seq<char>>,
}

impl View for CdnErrorResponse {
    type V = CdnErrorResponseView;

    open spec fn view(&self) -> CdnErrorResponseView {
        CdnErrorResponseView {
            error: self.error@,
            reason: match self.reason {
                Some(text) => Some(text@),
                None => None,
            },
        }
    }
}

impl View for CdnError {
    type V = CdnErrorView;

    open spec fn view(&self) -> CdnErrorView {
        match self {
            CdnError::UnknownPathSegment(s) => CdnErrorView::UnknownPathSegment(s@),
            CdnError::IdentityResolutionFailed(s) => CdnErrorView::IdentityResolutionFailed(s@),
            CdnError::NoOriginEndpoint => CdnErrorView::NoOriginEndpoint,
            CdnError::OriginFetchFailed(s) => CdnErrorView::OriginFetchFailed(s@),
            CdnError::IntegrityMismatch => CdnErrorView::IntegrityMismatch,
            CdnError::UnrecognizedImage(s) => CdnErrorView::UnrecognizedImage(s@),
            CdnError::TransformFailed(s) => CdnErrorView::TransformFailed(s@),
            CdnError::StorageReadFailed => CdnErrorView::StorageReadFailed,
            CdnError::StorageWriteFailed => CdnErrorView::StorageWriteFailed,
            CdnError::ServerError => CdnErrorView::ServerError,
        }
    }
}

impl CdnErrorView {
    /// The HTTP status that reports the failure: 404 for a missing origin
    /// endpoint, 500 for what went wrong on this side, 400 for the rest.
    pub open spec fn status(self) -> u16 {
        match self {
            CdnErrorView::NoOriginEndpoint => 404,
            CdnErrorView::StorageReadFailed => 500,
            CdnErrorView::StorageWriteFailed => 500,
            CdnErrorView::ServerError => 500,
            _ => 400,
        }
    }

    /// The fixed text that names the kind of failure.
    pub open spec fn message(self) -> Seq<char> {
        match self {
            CdnErrorView::UnknownPathSegment(_) => "request: unknown path segment"@,
            CdnErrorView::IdentityResolutionFailed(_) => "did: failed to resolve did doc"@,
            CdnErrorView::NoOriginEndpoint => "did: no pds endpoint on record"@,
            CdnErrorView::OriginFetchFailed(_) => "blob: failed to fetch blob from pds"@,
            CdnErrorView::IntegrityMismatch => "blob: content does not match the requested cid"@,
            CdnErrorView::UnrecognizedImage(_) => "image: blob was not a valid image"@,
            CdnErrorView::TransformFailed(_) => "image: failure to process image"@,
            CdnErrorView::StorageReadFailed => "cache: failed to read stored blob"@,
            CdnErrorView::StorageWriteFailed => "cache: failed to store blob"@,
            CdnErrorView::ServerError => "internal server error"@,
        }
    }

    /// The underlying cause, for the kinds that carry one.
    pub open spec fn reason(self) -> Option<Seq<char>> {
        match self {
            CdnErrorView::UnknownPathSegment(s) => Some(s),
            CdnErrorView::IdentityResolutionFailed(s) => Some(s),
            CdnErrorView::OriginFetchFailed(s) => Some(s),
            CdnErrorView::UnrecognizedImage(s) => Some(s),
            CdnErrorView::TransformFailed(s) => Some(s),
            _ => None,
        }
    }

    /// The response body: the kind's text and the cause.
    pub open spec fn response(self) -> CdnErrorResponseView {
        CdnErrorResponseView { error: self.message(), reason: self.reason() }
    }
}

impl CdnError {
    /// The HTTP status that reports this failure.
    pub fn status_code(&self) -> (status: u16)
        ensures
            status == self@.status(),
            400 <= status < 600,
    {
        match self {
            CdnError::NoOriginEndpoint => 404,
            CdnError::StorageReadFailed => 500,
            CdnError::StorageWriteFailed => 500,
            CdnError::ServerError => 500,
            _ => 400,
        }
    }

    /// The fixed text that names the kind of failure.
    pub fn message(&self) -> (text: &'static str)
        ensures
            text@ == self@.message(),
    {
        match self {
            CdnError::UnknownPathSegment(_) => "request: unknown path segment",
            CdnError::IdentityResolutionFailed(_) => "did: failed to resolve did doc",
            CdnError::NoOriginEndpoint => "did: no pds endpoint on record",
            CdnError::OriginFetchFailed(_) => "blob: failed to fetch blob from pds",
            CdnError::IntegrityMismatch => "blob: content does not match the requested cid",
            CdnError::UnrecognizedImage(_) => "image: blob was not a valid image",
            CdnError::TransformFailed(_) => "image: failure to process image",
            CdnError::StorageReadFailed => "cache: failed to read stored blob",
            CdnError::StorageWriteFailed => "cache: failed to store blob",
            CdnError::ServerError => "internal server error",
        }
    }

    /// The underlying cause, for the kinds that carry one.
    pub fn reason(&self) -> (cause: Option<String>)
        ensures
            match cause {
                Some(text) => self@.reason() == Some(text@),
                None => self@.reason().is_none(),
            },
    {
        match self {
            CdnError::UnknownPathSegment(s) => Some(s.clone()),
            CdnError::IdentityResolutionFailed(s) => Some(s.clone()),
            CdnError::OriginFetchFailed(s) => Some(s.clone()),
            CdnError::UnrecognizedImage(s) => Some(s.clone()),
            CdnError::TransformFailed(s) => Some(s.clone()),
            _ => None,
        }
    }

    /// The status and the body of the response that reports this failure.
    pub fn into_response(self) -> (response: (u16, CdnErrorResponse))
        ensures
            response.0 == self@.status(),
            response.1@ == self@.response(),
    {
        let status = self.status_code();
        let error = String::from_str(self.message());
        let reason = self.reason();
        (status, CdnErrorResponse { error, reason })
    }
}

} // verus!
