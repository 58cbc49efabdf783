//! The one failure an advisory call can end in: the host refused it.

use vstd::prelude::*;

verus! {

/// `std::io::Error`, carried from the call that reads it to the calls that
/// take its code and its text. Nothing inside it is visible to a proof.
#[verifier::external_type_specification]
#[verifier::external_body]
pub struct ExIoError(std::io::Error);

/// The host's code that an `std::io::Error` holds, if it holds one: what
/// `std::io::Error::raw_os_error` returns for it.
pub uninterp spec fn os_code_of(error: std::io::Error) -> Option<i32>;

/// `std::io::Error::last_os_error` wraps the error code that the host last set
/// for the calling thread. Which code that is depends on the thread's latest
/// failing call and is not claimed; that the error holds a code is, as std
/// documents of every error made this way.
pub assume_specification[ std::io::Error::last_os_error ]() -> (error: std::io::Error)
    ensures
        os_code_of(error) is Some,
;

/// `std::io::Error::raw_os_error` gives the host's code where the error holds
/// one. The error is opaque here, so the result is only given its name.
pub assume_specification[ std::io::Error::raw_os_error ](error: &std::io::Error) -> (code: Option<
    i32,
>)
    ensures
        code == os_code_of(*error),
;

/// The text that `std::io::Error` displays, through `ToString::to_string`. It
/// is the host's wording for the code, and nothing is claimed of it.
#[verifier::external_body]
fn error_text(error: &std::io::Error) -> (text: String) {
    error.to_string()
}

/// A refused advisory call: the code that the host reported, where it
/// reported one, and the host's description of it.
#[derive(Debug, PartialEq, Eq)]
pub struct AdviseError {
    os_code: Option<i32>,
    description: String,
}

impl AdviseError {
    /// The host's error code, as a proof sees it.
    pub closed spec fn spec_raw_os_error(&self) -> Option<i32> {
        self.os_code
    }

    /// The host's description, as a proof sees it.
    pub closed spec fn spec_description(&self) -> Seq<char> {
        self.description@
    }

    /// An error with the given code and description.
    pub fn new(os_code: Option<i32>, description: String) -> (error: AdviseError)
        ensures
            error.spec_raw_os_error() == os_code,
            error.spec_description() == description@,
    {
        AdviseError { os_code, description }
    }

    /// The error that the host last reported to the calling thread: it always
    /// carries a host code, and the description is the host's wording for it.
    /// Call it right after the failing call, before anything else can
    /// overwrite the host's record.
    pub(crate) fn last_os_error() -> (error: AdviseError)
        ensures
            error.spec_raw_os_error() is Some,
    {
        let source = std::io::Error::last_os_error();
        let os_code = source.raw_os_error();
        let description = error_text(&source);
        AdviseError::new(os_code, description)
    }

    /// The host's error code, if the host reported one.
    #[verifier::when_used_as_spec(spec_raw_os_error)]
    pub fn raw_os_error(&self) -> (code: Option<i32>)
        ensures
            code == self.spec_raw_os_error(),
    {
        self.os_code
    }

    /// The host's description of the failure.
    pub fn description(&self) -> (text: &str)
        ensures
            text@ == self.spec_description(),
    {
        self.description.as_str()
    }
}

} // verus!
