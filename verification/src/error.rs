//! The failures of the boundary.

use vstd::prelude::*;
use vstd::string::StringExecFns;
use crate::value::{Tag, tag_name};
use crate::decimal::{render_int, render_usize};

verus! {

/// Why a boundary operation failed.
#[derive(Clone, Debug, PartialEq, Eq)]
pub enum Error {
    /// A value's kind cannot satisfy the requested host type.
    TypeMismatch { expected: Tag, actual: Tag },
    /// The member `name` of an aggregate was found with a kind that cannot
    /// satisfy its host type.
    Member { name: String, expected: Tag, actual: Tag },
    /// A text names no variant of the requested enumeration.
    UnknownVariant { tag: String },
    /// A call supplied no value for the parameter at `index`.
    MissingArgument { index: usize, supplied: usize },
    /// The engine raised an exception, whose message this is.
    EngineException { message: String },
    /// The engine could not allocate a value.
    AllocationFailure,
}

/// The mathematical content of an [`Error`].
pub ghost enum ErrorView {
    TypeMismatch { expected: Tag, actual: Tag },
    Member { name: Seq<char>, expected: Tag, actual: Tag },
    UnknownVariant { tag: Seq<char> },
    MissingArgument { index: nat, supplied: nat },
    EngineException { message: Seq<char> },
    AllocationFailure,
}

impl ErrorView {
    /// The text that describes this failure.
    pub open spec fn message(self) -> Seq<char> {
        match self {
            ErrorView::TypeMismatch { expected, actual } => "type mismatch: expected "@
                + tag_name(expected) + ", found "@ + tag_name(actual),
            ErrorView::Member { name, expected, actual } => "member "@ + name
                + ": type mismatch: expected "@ + tag_name(expected) + ", found "@ + tag_name(actual),
            ErrorView::UnknownVariant { tag } => "unknown variant "@ + tag,
            ErrorView::MissingArgument { index, supplied } => "missing argument "@ + render_int(
                index as int,
            ) + ": only "@ + render_int(supplied as int) + " supplied"@,
            ErrorView::EngineException { message } => message,
            ErrorView::AllocationFailure => "out of memory"@,
        }
    }
}

impl View for Error {
    type V = ErrorView;

    open spec fn view(&self) -> ErrorView {
        match self {
            Error::TypeMismatch { expected, actual } => ErrorView::TypeMismatch {
                expected: *expected,
                actual: *actual,
            },
            Error::Member { name, expected, actual } => ErrorView::Member {
                name: name@,
                expected: *expected,
                actual: *actual,
            },
            Error::UnknownVariant { tag } => ErrorView::UnknownVariant { tag: tag@ },
            Error::MissingArgument { index, supplied } => ErrorView::MissingArgument {
                index: *index as nat,
                supplied: *supplied as nat,
            },
            Error::EngineException { message } => ErrorView::EngineException { message: message@ },
            Error::AllocationFailure => ErrorView::AllocationFailure,
        }
    }
}

impl Error {
    /// The text that describes this failure.
    pub fn message(&self) -> (m: String)
        ensures
            m@ == self@.message(),
    {
        match self {
            Error::TypeMismatch { expected, actual } => {
                let mut m = String::from_str("type mismatch: expected ");
                m.append(expected.name());
                m.append(", found ");
                m.append(actual.name());
                m
            },
            Error::Member { name, expected, actual } => {
                let mut m = String::from_str("member ");
                m.append(name.as_str());
                m.append(": type mismatch: expected ");
                m.append(expected.name());
                m.append(", found ");
                m.append(actual.name());
                m
            },
            Error::UnknownVariant { tag } => {
                let mut m = String::from_str("unknown variant ");
                m.append(tag.as_str());
                m
            },
            Error::MissingArgument { index, supplied } => {
                let mut m = String::from_str("missing argument ");
                let i = render_usize(*index);
                m.append(i.as_str());
                m.append(": only ");
                let n = render_usize(*supplied);
                m.append(n.as_str());
                m.append(" supplied");
                m
            },
            Error::EngineException { message } => message.clone(),
            Error::AllocationFailure => String::from_str("out of memory"),
        }
    }
}

} // verus!
