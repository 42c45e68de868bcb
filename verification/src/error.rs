//! The error type shared by every directory lookup.

use vstd::prelude::*;
use vstd::std_specs::convert::FromSpec;
use vstd::string::to_string_from_display_ensures;

verus! {

/// `std::io::Error` is carried through as an opaque value.
#[verifier::external_type_specification]
#[verifier::external_body]
pub struct ExIoError(std::io::Error);

/// Message of [`AppDirsError::NotSupported`].
pub const ERR_NOT_SUPPORTED: &'static str = "App data directories not supported";

/// Message of [`AppDirsError::InvalidAppInfo`].
pub const ERR_INVALID_APP_INFO: &'static str = "Invalid app name or author";

/// `std::error::Error::description` of a `std::io::Error`: a short text for
/// the error. Std marks the method as deprecated in favour of `Display` and
/// promises nothing about the text, so nothing is claimed of it here.
#[allow(deprecated)]
#[verifier::external_body]
fn io_error_description(e: &std::io::Error) -> &str {
    std::error::Error::description(e)
}

/// Error type for any `app_dirs` operation.
#[derive(Debug)]
pub enum AppDirsError {
    /// An I/O error occurred during the operation.
    Io(std::io::Error),
    /// App-specific directories are not properly supported by the system
    /// (e.g. required environment variables don't exist).
    NotSupported,
    /// App info given to this library was invalid (e.g. app name or author
    /// were empty).
    InvalidAppInfo,
}

impl AppDirsError {
    /// The underlying error, if there is one: the wrapped I/O error of `Io`,
    /// nothing for the other variants.
    pub open spec fn spec_cause(&self) -> Option<&std::io::Error> {
        match self {
            AppDirsError::Io(e) => Some(e),
            AppDirsError::NotSupported => None,
            AppDirsError::InvalidAppInfo => None,
        }
    }

    /// The message of a variant that carries no payload. `Io` has none of
    /// its own: it speaks with the voice of the error that it wraps.
    pub open spec fn fixed_message(&self) -> Option<Seq<char>> {
        match self {
            AppDirsError::Io(_) => None,
            AppDirsError::NotSupported => Some(ERR_NOT_SUPPORTED@),
            AppDirsError::InvalidAppInfo => Some(ERR_INVALID_APP_INFO@),
        }
    }

    /// Whether `text` is a rendering of this error. The two variants without
    /// payload have one fixed message each; `Io` is rendered by the wrapped
    /// error's own `Display`, with nothing added.
    pub open spec fn renders_to(&self, text: String) -> bool {
        match self {
            AppDirsError::Io(e) => to_string_from_display_ensures::<std::io::Error>(e, text),
            AppDirsError::NotSupported => text@ == ERR_NOT_SUPPORTED@,
            AppDirsError::InvalidAppInfo => text@ == ERR_INVALID_APP_INFO@,
        }
    }

    /// The description of this error, where `io_description` is what the
    /// wrapped I/O error, if there is one, says of itself.
    pub open spec fn spec_description_with(&self, io_description: Seq<char>) -> Seq<char> {
        match self.fixed_message() {
            Some(message) => message,
            None => io_description,
        }
    }

    /// The lower-level source of this error, if any.
    #[verifier::when_used_as_spec(spec_cause)]
    pub fn cause(&self) -> (cause: Option<&std::io::Error>)
        ensures
            cause == self.spec_cause(),
    {
        match self {
            AppDirsError::Io(e) => Some(e),
            AppDirsError::NotSupported => None,
            AppDirsError::InvalidAppInfo => None,
        }
    }

    /// The single-line, user-facing message of this error.
    pub fn to_string(&self) -> (text: String)
        ensures
            self.renders_to(text),
    {
        match self {
            AppDirsError::Io(e) => e.to_string(),
            AppDirsError::NotSupported => ERR_NOT_SUPPORTED.to_owned(),
            AppDirsError::InvalidAppInfo => ERR_INVALID_APP_INFO.to_owned(),
        }
    }

    /// Chooses the description of this error: `io_description`, untouched,
    /// where the error wraps an I/O error, and the variant's fixed message
    /// where it does not.
    pub fn description_with<'a>(&self, io_description: &'a str) -> (text: &'a str)
        ensures
            text@ == self.spec_description_with(io_description@),
    {
        match self {
            AppDirsError::Io(_) => io_description,
            AppDirsError::NotSupported => ERR_NOT_SUPPORTED,
            AppDirsError::InvalidAppInfo => ERR_INVALID_APP_INFO,
        }
    }

    /// A short description of this error. For `Io` it is the wrapped
    /// error's own description, whatever that is; the other variants give
    /// their fixed message.
    pub fn description(&self) -> (text: &str)
        ensures
            self.fixed_message() matches Some(message) ==> text@ == message,
    {
        let io_description = match self {
            AppDirsError::Io(e) => io_error_description(e),
            AppDirsError::NotSupported => "",
            AppDirsError::InvalidAppInfo => "",
        };
        self.description_with(io_description)
    }
}

impl From<std::io::Error> for AppDirsError {
    /// Lifts an I/O error into the `Io` variant, so that code which fails
    /// with an I/O error can hand it on without wrapping it by hand.
    fn from(e: std::io::Error) -> (error: AppDirsError)
        ensures
            error == AppDirsError::Io(e),
    {
        AppDirsError::Io(e)
    }
}

impl vstd::std_specs::convert::FromSpecImpl<std::io::Error> for AppDirsError {
    open spec fn obeys_from_spec() -> bool {
        true
    }

    open spec fn from_spec(e: std::io::Error) -> AppDirsError {
        AppDirsError::Io(e)
    }
}

/// Lifting an I/O error wraps it and changes nothing: the result is the `Io`
/// variant, its cause is the lifted error itself, and a text is a rendering
/// of the result exactly when it is a rendering of the lifted error.
pub proof fn lemma_lift_keeps_error(e: std::io::Error)
    ensures
        AppDirsError::from_spec(e) == AppDirsError::Io(e),
        AppDirsError::from_spec(e).spec_cause() == Some(&e),
        forall|text: String| #[trigger]
            AppDirsError::from_spec(e).renders_to(text) <==> to_string_from_display_ensures::<
                std::io::Error,
            >(&e, text),
{
}

} // verus!
