//! Errors of the image service.
use vstd::prelude::*;
use crate::text::owned;

verus! {

/// The errors of the image service. Errors that come from an outside library
/// (the OpenAI client, I/O, JSON decoding, HTTP) carry that error's own text.
#[derive(Debug, Clone)]
pub enum DomainError {
    OpenAi(String),
    Image(String),
    Adb(String),
    Config(String),
    Io(String),
    Serialization(String),
    Http(String),
    InvalidInput(String),
    ServiceUnavailable(String),
}

/// Results of the image service.
pub type DomainResult<T> = Result<T, DomainError>;

/// The text that describes an error: a prefix naming its kind, then its detail.
pub open spec fn error_message(e: DomainError) -> Seq<char> {
    match e {
        DomainError::OpenAi(m) => "OpenAI API error: "@ + m@,
        DomainError::Image(m) => "Image processing error: "@ + m@,
        DomainError::Adb(m) => "ADB error: "@ + m@,
        DomainError::Config(m) => "Configuration error: "@ + m@,
        DomainError::Io(m) => "IO error: "@ + m@,
        DomainError::Serialization(m) => "Serialization error: "@ + m@,
        DomainError::Http(m) => "HTTP request error: "@ + m@,
        DomainError::InvalidInput(m) => "Invalid input: "@ + m@,
        DomainError::ServiceUnavailable(m) => "Service not available: "@ + m@,
    }
}

/// `e` is an image-processing error with the given detail.
pub open spec fn is_image_error(e: DomainError, detail: Seq<char>) -> bool {
    e matches DomainError::Image(m) && m@ == detail
}

/// An image-processing error with the given detail.
pub fn image_error_text(detail: &str) -> (e: DomainError)
    ensures
        is_image_error(e, detail@),
{
    DomainError::Image(owned(detail))
}

/// An image-processing error whose detail is `prefix` followed by `detail`.
pub fn image_error(prefix: &str, detail: &str) -> (e: DomainError)
    ensures
        is_image_error(e, prefix@ + detail@),
{
    let mut text = owned(prefix);
    text.append(detail);
    DomainError::Image(text)
}

/// `prefix` followed by `detail`.
fn prefixed(prefix: &str, detail: &String) -> (text: String)
    ensures
        text@ == prefix@ + detail@,
{
    let mut text = owned(prefix);
    text.append(detail.as_str());
    text
}

impl DomainError {
    /// The text that describes this error.
    pub fn message(&self) -> (text: String)
        ensures
            text@ == error_message(*self),
    {
        match self {
            DomainError::OpenAi(m) => prefixed("OpenAI API error: ", m),
            DomainError::Image(m) => prefixed("Image processing error: ", m),
            DomainError::Adb(m) => prefixed("ADB error: ", m),
            DomainError::Config(m) => prefixed("Configuration error: ", m),
            DomainError::Io(m) => prefixed("IO error: ", m),
            DomainError::Serialization(m) => prefixed("Serialization error: ", m),
            DomainError::Http(m) => prefixed("HTTP request error: ", m),
            DomainError::InvalidInput(m) => prefixed("Invalid input: ", m),
            DomainError::ServiceUnavailable(m) => prefixed("Service not available: ", m),
        }
    }
}

} // verus!
