//! The error type shared by every part of the updater.

use vstd::prelude::*;
use vstd::string::*;

verus! {

/// Why an operation on a domain could not be completed.
#[derive(Debug, PartialEq, Eq)]
pub enum AppError {
    /// Bad or missing input: the domain list or a configuration file.
    ConfigError(String),
    /// A certificate authority, DNS or CDN call failed, whether the vendor
    /// rejected it or the network did.
    CloudError(String),
    /// A reachability or TLS probe failed.
    HttpError(String),
    /// Structured input could not be decoded.
    JsonError(String),
    /// Reading or writing data failed.
    IoError(String),
    /// A certificate bundle could not be decoded, or a required key was not in it.
    ParseError(String),
    /// Something that was expected to exist does not, such as the validation
    /// record that a changed challenge value should have replaced.
    NotFound(String),
    /// The caller's cancellation signal stopped the work.
    Cancelled,
    /// Anything else.
    Other(String),
}

/// The mathematical value of an [`AppError`]: the variant with its message as
/// a sequence of characters.
pub enum ErrorView {
    ConfigError(Seq<char>),
    CloudError(Seq<char>),
    HttpError(Seq<char>),
    JsonError(Seq<char>),
    IoError(Seq<char>),
    ParseError(Seq<char>),
    NotFound(Seq<char>),
    Cancelled,
    Other(Seq<char>),
}

impl ErrorView {
    /// The message the error carries, empty for a cancellation.
    pub open spec fn message(self) -> Seq<char> {
        match self {
            ErrorView::ConfigError(m) => m,
            ErrorView::CloudError(m) => m,
            ErrorView::HttpError(m) => m,
            ErrorView::JsonError(m) => m,
            ErrorView::IoError(m) => m,
            ErrorView::ParseError(m) => m,
            ErrorView::NotFound(m) => m,
            ErrorView::Cancelled => Seq::empty(),
            ErrorView::Other(m) => m,
        }
    }

    /// The words that introduce the message when the error is shown.
    pub open spec fn prefix(self) -> Seq<char> {
        match self {
            ErrorView::ConfigError(_) => "Config Error: "@,
            ErrorView::CloudError(_) => "Cloud API Error: "@,
            ErrorView::HttpError(_) => "HTTP Error: "@,
            ErrorView::JsonError(_) => "JSON Error: "@,
            ErrorView::IoError(_) => "Io Error: "@,
            ErrorView::ParseError(_) => "Parse Error: "@,
            ErrorView::NotFound(_) => "Not Found: "@,
            ErrorView::Cancelled => "Cancelled"@,
            ErrorView::Other(_) => "Other Error: "@,
        }
    }

    /// The error as one line of text.
    pub open spec fn text(self) -> Seq<char> {
        self.prefix() + self.message()
    }
}

impl View for AppError {
    type V = ErrorView;

    open spec fn view(&self) -> ErrorView {
        match self {
            AppError::ConfigError(m) => ErrorView::ConfigError(m@),
            AppError::CloudError(m) => ErrorView::CloudError(m@),
            AppError::HttpError(m) => ErrorView::HttpError(m@),
            AppError::JsonError(m) => ErrorView::JsonError(m@),
            AppError::IoError(m) => ErrorView::IoError(m@),
            AppError::ParseError(m) => ErrorView::ParseError(m@),
            AppError::NotFound(m) => ErrorView::NotFound(m@),
            AppError::Cancelled => ErrorView::Cancelled,
            AppError::Other(m) => ErrorView::Other(m@),
        }
    }
}

impl Clone for AppError {
    fn clone(&self) -> (copy: AppError)
        ensures
            copy@ == self@,
    {
        match self {
            AppError::ConfigError(m) => AppError::ConfigError(m.clone()),
            AppError::CloudError(m) => AppError::CloudError(m.clone()),
            AppError::HttpError(m) => AppError::HttpError(m.clone()),
            AppError::JsonError(m) => AppError::JsonError(m.clone()),
            AppError::IoError(m) => AppError::IoError(m.clone()),
            AppError::ParseError(m) => AppError::ParseError(m.clone()),
            AppError::NotFound(m) => AppError::NotFound(m.clone()),
            AppError::Cancelled => AppError::Cancelled,
            AppError::Other(m) => AppError::Other(m.clone()),
        }
    }
}

impl AppError {
    /// The error as one line of text: what kind it is, then its message.
    pub fn describe(&self) -> (line: String)
        ensures
            line@ == self@.text(),
    {
        match self {
            AppError::ConfigError(m) => String::from_str("Config Error: ").concat(m.as_str()),
            AppError::CloudError(m) => String::from_str("Cloud API Error: ").concat(m.as_str()),
            AppError::HttpError(m) => String::from_str("HTTP Error: ").concat(m.as_str()),
            AppError::JsonError(m) => String::from_str("JSON Error: ").concat(m.as_str()),
            AppError::IoError(m) => String::from_str("Io Error: ").concat(m.as_str()),
            AppError::ParseError(m) => String::from_str("Parse Error: ").concat(m.as_str()),
            AppError::NotFound(m) => String::from_str("Not Found: ").concat(m.as_str()),
            AppError::Cancelled => {
                assert("Cancelled"@ + Seq::<char>::empty() =~= "Cancelled"@);
                String::from_str("Cancelled")
            },
            AppError::Other(m) => String::from_str("Other Error: ").concat(m.as_str()),
        }
    }
}

/// What the updater's operations return.
pub type Result<T> = std::result::Result<T, AppError>;

/// The view of a result whose success is a text.
pub open spec fn text_result(r: Result<String>) -> std::result::Result<Seq<char>, ErrorView> {
    match r {
        Ok(s) => Ok(s@),
        Err(e) => Err(e@),
    }
}

} // verus!
