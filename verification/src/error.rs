//! The errors of the codec.

use vstd::prelude::*;
use crate::json::{error_column, error_line, error_message, fault_of, JsonFault};

verus! {

/// Why a host value could not be extended.
#[derive(Clone, Copy, Debug, PartialEq, Eq)]
pub enum HostFault {
    /// An item was appended to a value that is not an array.
    NotAnArray,
    /// A property was set on a value that is not a keyed mapping.
    NotAnObject,
}

/// An error of the codec. Every fallible operation returns one of these as
/// a value.
#[derive(Debug, PartialEq, Eq)]
pub enum CodecError {
    /// The text is not JSON; position and message are the parser's own.
    Parse { line: usize, column: usize, message: String },
    /// A JSON number is neither a 64-bit integer nor a double.
    InvalidNumber,
    /// A host value refused an append or a property.
    HostConstructionFailed(HostFault),
    /// The JSON writer failed; the message is the writer's own.
    Write { message: String },
    /// The written bytes are not UTF-8.
    Encoding,
    /// The element at `index` of a batch is not a text.
    BatchElementType { index: usize },
}

impl CodecError {
    /// This error is the parse error that reports `fault`.
    pub open spec fn is_parse_of(self, fault: JsonFault) -> bool {
        self matches CodecError::Parse { line, column, message } && line == fault.line && column
            == fault.column && message@ == fault.message
    }

    /// This error is the write error that reports `fault`.
    pub open spec fn is_write_of(self, fault: JsonFault) -> bool {
        self matches CodecError::Write { message } && message@ == fault.message
    }

    /// The parse error for a fault of the parser.
    pub fn parse(error: &serde_json::Error) -> (e: CodecError)
        ensures
            e.is_parse_of(fault_of(*error)),
    {
        CodecError::Parse {
            line: error_line(error),
            column: error_column(error),
            message: error_message(error),
        }
    }

    /// The write error for a fault of the writer.
    pub fn write(error: &serde_json::Error) -> (e: CodecError)
        ensures
            e.is_write_of(fault_of(*error)),
    {
        CodecError::Write { message: error_message(error) }
    }
}

} // verus!
