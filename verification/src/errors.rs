//! The errors of the library.

use crate::get::FieldError;
use crate::get::FieldErrorView;
use crate::get::Reason;
use crate::yaml::describe;
use vstd::prelude::*;
use vstd::string::StringExecFns;

verus! {

/// Why a configuration could not be had.
#[derive(Debug)]
pub enum ErrorKind {
    /// A failure that has nothing but its message.
    Msg(String),
    /// The text is not a well-formed YAML document.
    Yaml(serde_yaml::Error),
    /// The document is well-formed, and it is not a mapping.
    NotMapping,
    /// A required field is missing or holds a value of the wrong type.
    Field(FieldError),
    /// No file could be read at the given path.
    MissingConfigFile(String),
}

/// An `ErrorKind` as a mathematical value.
pub ghost enum ErrorKindView {
    Msg(Seq<char>),
    Yaml(serde_yaml::Error),
    NotMapping,
    Field(FieldErrorView),
    MissingConfigFile(Seq<char>),
}

impl View for ErrorKind {
    type V = ErrorKindView;

    open spec fn view(&self) -> ErrorKindView {
        match *self {
            ErrorKind::Msg(text) => ErrorKindView::Msg(text@),
            ErrorKind::Yaml(e) => ErrorKindView::Yaml(e),
            ErrorKind::NotMapping => ErrorKindView::NotMapping,
            ErrorKind::Field(e) => ErrorKindView::Field(e@),
            ErrorKind::MissingConfigFile(path) => ErrorKindView::MissingConfigFile(path@),
        }
    }
}

/// The result of a fallible step as a mathematical value.
pub open spec fn result_view<T: View>(result: Result<T, ErrorKind>) -> Result<T::V, ErrorKindView> {
    match result {
        Ok(x) => Ok(x@),
        Err(e) => Err(e@),
    }
}

/// The message of a failed extraction: it names the field and says whether
/// the field is missing or of the wrong type.
pub open spec fn field_message(error: FieldErrorView) -> Seq<char> {
    match error.reason {
        Reason::Missing => "missing field `"@ + error.field + "`"@,
        Reason::WrongType => "invalid type for field `"@ + error.field + "`"@,
    }
}

/// The message of a file that could not be read: it quotes the path.
pub open spec fn missing_file_message(path: Seq<char>) -> Seq<char> {
    "missing config file: '"@ + path + "'"@
}

impl FieldError {
    /// The message of this failure, for a reader.
    pub fn message(&self) -> (text: String)
        ensures
            text@ == field_message(self@),
    {
        let mut text = match self.reason {
            Reason::Missing => String::from_str("missing field `"),
            Reason::WrongType => String::from_str("invalid type for field `"),
        };
        text.append(self.field.as_str());
        text.append("`");
        text
    }
}

impl ErrorKind {
    /// What the message of an error must be. Of a `Yaml` error the wording is
    /// the parser's own, and any text is accepted.
    pub open spec fn has_message(self, text: Seq<char>) -> bool {
        match self@ {
            ErrorKindView::Msg(message) => text == message,
            ErrorKindView::Yaml(_) => true,
            ErrorKindView::NotMapping => text == "the document is not a mapping"@,
            ErrorKindView::Field(e) => text == field_message(e),
            ErrorKindView::MissingConfigFile(path) => text == missing_file_message(path),
        }
    }

    /// The message of this error, for a reader.
    pub fn message(&self) -> (text: String)
        ensures
            self.has_message(text@),
    {
        match self {
            ErrorKind::Msg(message) => message.clone(),
            ErrorKind::Yaml(e) => describe(e),
            ErrorKind::NotMapping => String::from_str("the document is not a mapping"),
            ErrorKind::Field(e) => e.message(),
            ErrorKind::MissingConfigFile(path) => {
                let mut text = String::from_str("missing config file: '");
                text.append(path.as_str());
                text.append("'");
                text
            },
        }
    }
}

} // verus!
