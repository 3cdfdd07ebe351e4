//! The error type surfaced when retrieval fails.
//!
//! There is a single "retrieval failed" kind: an error code, a message, and
//! optionally the underlying client failure carried as the cause. Aggregator
//! functions never produce an error; absence of applicable data is expressed
//! as "no value" in their results instead.

use vstd::prelude::*;

verus! {

/// Error code used when the API client could not be initialised.
pub const ERROR_CLIENT_INIT: u8 = 1u8;

/// The underlying failure an error may carry as its cause.
///
/// The transport client lives outside this crate, so its failure is carried
/// here as the text it reported.
#[derive(Debug)]
pub enum InnerGhProdError {
    ClientError(String),
}

/// A retrieval failure: an error code, a message, and optionally the
/// underlying cause.
#[derive(Debug)]
pub struct GhProdError {
    code: u8,
    msg: String,
    inner: Option<InnerGhProdError>,
}

impl GhProdError {
    /// The error's code.
    pub closed spec fn spec_code(&self) -> u8 {
        self.code
    }

    /// The error's message.
    pub closed spec fn spec_msg(&self) -> Seq<char> {
        self.msg@
    }

    /// The underlying cause, if one was recorded.
    pub closed spec fn spec_inner(&self) -> Option<InnerGhProdError> {
        self.inner
    }

    pub fn new(code: u8, msg: String, inner: Option<InnerGhProdError>) -> (e: Self)
        ensures
            e.spec_code() == code,
            e.spec_msg() == msg@,
            e.spec_inner() == inner,
    {
        Self { code, msg, inner }
    }

    pub fn code(&self) -> (c: u8)
        ensures
            c == self.spec_code(),
    {
        self.code
    }

    pub fn msg(&self) -> (m: &String)
        ensures
            m@ == self.spec_msg(),
    {
        &self.msg
    }

    pub fn inner(&self) -> (i: &Option<InnerGhProdError>)
        ensures
            *i == self.spec_inner(),
    {
        &self.inner
    }
}

} // verus!
