//! The configuration that every request is served with.

use vstd::prelude::*;
use vstd::string::*;
use crate::aws::AwsWrapper;

verus! {

/// The bucket that holds the cache and the base URL of the identity
/// directory, fixed when the service starts.
#[derive(Debug, PartialEq, Eq)]
pub struct AppState {
    bucket: String,
    directory_url: String,
}

/// An `AppState` as plain values.
pub struct AppStateView {
    pub bucket: Seq<char>,
    pub directory_url: Seq<char>,
}

impl View for AppState {
    type V = AppStateView;

    closed spec fn view(&self) -> AppStateView {
        AppStateView { bucket: self.bucket@, directory_url: self.directory_url@ }
    }
}

impl AppState {
    /// The configuration with the given bucket name and directory URL.
    pub fn new(bucket: String, directory_url: String) -> (state: AppState)
        ensures
            state@.bucket == bucket@,
            state@.directory_url == directory_url@,
    {
        AppState { bucket, directory_url }
    }

    /// The cache in the configured bucket.
    pub fn aws(self) -> (cache: AwsWrapper)
        ensures
            cache@ == self@.bucket,
    {
        AwsWrapper::new(self.bucket)
    }

    /// The base URL of the identity directory.
    pub fn directory_url(&self) -> (url: &str)
        ensures
            url@ == self@.directory_url,
    {
        self.directory_url.as_str()
    }
}

impl Clone for AppState {
    fn clone(&self) -> (copy: AppState)
        ensures
            copy@ == self@,
    {
        AppState { bucket: self.bucket.clone(), directory_url: self.directory_url.clone() }
    }
}

} // verus!
