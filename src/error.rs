//! The ways a decode can fail.
use vstd::prelude::*;

verus! {

/// Every failure that decoding can report.
#[derive(Debug)]
pub enum Error {
    /// The payload does not open with the `@` marker line.
    NonCompliance,
    /// A control byte is missing from the start of the header; `violation` names it.
    Formatting { violation: String },
    /// The five characters after the control bytes are not `ANSI `.
    InvalidFileType,
    /// Reserved: a failure to initialise the shared element registry.
    LockError,
    /// No line carries the named element.
    ElementNotFound { element_name: String },
    /// Reserved: an element carries a document type outside `Both`, `ID` and `DL`.
    DocumentTypeInvalid { document_type: String },
    /// A line's identifier (`var_1`) is not the one looked for (`var_2`).
    MatchError { var_1: String, var_2: String },
    /// A value is too short for the fixed-width fields read from it.
    InvalidStringLength,
}

/// What an [`Error`] says, with its text as character sequences.
pub enum ErrorView {
    NonCompliance,
    Formatting(Seq<char>),
    InvalidFileType,
    LockError,
    ElementNotFound(Seq<char>),
    DocumentTypeInvalid(Seq<char>),
    MatchError(Seq<char>, Seq<char>),
    InvalidStringLength,
}

impl View for Error {
    type V = ErrorView;

    open spec fn view(&self) -> ErrorView {
        match self {
            Error::NonCompliance => ErrorView::NonCompliance,
            Error::Formatting { violation } => ErrorView::Formatting(violation@),
            Error::InvalidFileType => ErrorView::InvalidFileType,
            Error::LockError => ErrorView::LockError,
            Error::ElementNotFound { element_name } => ErrorView::ElementNotFound(element_name@),
            Error::DocumentTypeInvalid { document_type } => ErrorView::DocumentTypeInvalid(
                document_type@,
            ),
            Error::MatchError { var_1, var_2 } => ErrorView::MatchError(var_1@, var_2@),
            Error::InvalidStringLength => ErrorView::InvalidStringLength,
        }
    }
}

/// A result seen through the views of its value and of its error.
pub open spec fn result_view<T: View>(r: Result<T, Error>) -> Result<T::V, ErrorView> {
    match r {
        Ok(v) => Ok(v@),
        Err(e) => Err(e@),
    }
}

/// The human-readable description of an error.
pub open spec fn message_of(e: ErrorView) -> Seq<char> {
    match e {
        ErrorView::NonCompliance => "Non compliance error, @ sign required as first character."@,
        ErrorView::Formatting(violation) => "Formatting error, violation:\n"@ + violation,
        ErrorView::InvalidFileType => "File type should be 'ANSI ', please check your headers."@,
        ErrorView::LockError => "Error with threading lock in static element structs"@,
        ErrorView::ElementNotFound(name) => "Element with name '"@ + name + "' not found"@,
        ErrorView::DocumentTypeInvalid(t) => "Element has invalid document_type: "@ + t
            + ", document_type must be one of 'Both', 'ID', 'DL"@,
        ErrorView::MatchError(found, expected) => "Match error: "@ + found + " does not match "@
            + expected,
        ErrorView::InvalidStringLength => "Invalid length of string"@,
    }
}

impl Error {
    /// The human-readable description of this error.
    pub fn message(&self) -> (r: String)
        ensures
            r@ == message_of(self@),
    {
        match self {
            Error::NonCompliance => String::from_str(
                "Non compliance error, @ sign required as first character.",
            ),
            Error::Formatting { violation } => String::from_str(
                "Formatting error, violation:\n",
            ).concat(violation.as_str()),
            Error::InvalidFileType => String::from_str(
                "File type should be 'ANSI ', please check your headers.",
            ),
            Error::LockError => String::from_str(
                "Error with threading lock in static element structs",
            ),
            Error::ElementNotFound { element_name } => String::from_str(
                "Element with name '",
            ).concat(element_name.as_str()).concat("' not found"),
            Error::DocumentTypeInvalid { document_type } => String::from_str(
                "Element has invalid document_type: ",
            ).concat(document_type.as_str()).concat(
                ", document_type must be one of 'Both', 'ID', 'DL",
            ),
            Error::MatchError { var_1, var_2 } => String::from_str("Match error: ").concat(
                var_1.as_str(),
            ).concat(" does not match ").concat(var_2.as_str()),
            Error::InvalidStringLength => String::from_str("Invalid length of string"),
        }
    }
}

} // verus!
