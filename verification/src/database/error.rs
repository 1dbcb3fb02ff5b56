//! The module defining the error that the operations of this crate return.
//!
//! The engine reports a failure through an out-parameter: no message (or an
//! empty one) means success, any other message describes the failure. The
//! message leads with the label of the engine's status code. This layer reads
//! that label to name the kind of the failure, and nothing else of the message,
//! which is handed on as it came.
use vstd::prelude::*;
use vstd::string::StringSliceAdditionalSpecFns;

verus! {

/// The kinds of failure.
#[derive(Clone, Copy, Debug, PartialEq, Eq, Structural)]
pub enum ErrorKind {
    /// The engine failed on the path, a permission or the disk.
    IOError,
    /// The engine refused the configuration, or the comparator's name differs
    /// from the one that the database was created with.
    InvalidArgument,
    /// The engine found damaged data.
    Corruption,
    /// The engine does not implement what was asked.
    NotSupported,
    /// A cursor that is not on an entry was read or moved.
    InvalidCursorState,
    /// The engine reported a failure under a label that this layer does not
    /// know.
    Other,
}

/// A failure, with the message that describes it.
#[derive(Clone, Debug, PartialEq, Eq)]
pub struct Error {
    kind: ErrorKind,
    message: String,
}

/// Whether `message` begins with `label`, byte for byte.
pub open spec fn has_label(message: Seq<char>, label: &str) -> bool {
    label.spec_bytes().is_prefix_of(vstd::utf8::encode_utf8(message))
}

/// The kind of failure that an engine's message reports, by the label of the
/// status code that leads it.
pub open spec fn kind_of(message: Seq<char>) -> ErrorKind {
    if has_label(message, "IO error: ") {
        ErrorKind::IOError
    } else if has_label(message, "Invalid argument: ") {
        ErrorKind::InvalidArgument
    } else if has_label(message, "Corruption: ") {
        ErrorKind::Corruption
    } else if has_label(message, "Not implemented: ") {
        ErrorKind::NotSupported
    } else {
        ErrorKind::Other
    }
}

/// Whether an engine's status reports success: no message, or an empty one.
pub open spec fn is_success(status: Option<String>) -> bool {
    match status {
        None => true,
        Some(message) => message@.len() == 0,
    }
}

/// Whether `bytes` begins with `prefix`.
pub fn starts_with(bytes: &[u8], prefix: &[u8]) -> (b: bool)
    ensures
        b == prefix@.is_prefix_of(bytes@),
{
    if prefix.len() > bytes.len() {
        return false;
    }
    let mut i: usize = 0;
    while i < prefix.len()
        invariant
            i <= prefix.len() <= bytes.len(),
            forall|j: int| 0 <= j < i ==> prefix@[j] == bytes@[j],
        decreases prefix.len() - i,
    {
        if prefix[i] != bytes[i] {
            assert(bytes@.subrange(0, prefix@.len() as int)[i as int] != prefix@[i as int]);
            return false;
        }
        i += 1;
    }
    assert(prefix@ =~= bytes@.subrange(0, prefix@.len() as int));
    true
}

impl Error {
    /// The kind of this failure.
    pub closed spec fn spec_kind(&self) -> ErrorKind {
        self.kind
    }

    /// The message of this failure.
    pub closed spec fn spec_message(&self) -> Seq<char> {
        self.message@
    }

    /// A failure that the engine reported with `message`.
    pub fn new(message: String) -> (error: Error)
        ensures
            error.spec_message() == message@,
            error.spec_kind() == kind_of(message@),
    {
        let bytes = message.as_str().as_bytes();
        let kind = if starts_with(bytes, "IO error: ".as_bytes()) {
            ErrorKind::IOError
        } else if starts_with(bytes, "Invalid argument: ".as_bytes()) {
            ErrorKind::InvalidArgument
        } else if starts_with(bytes, "Corruption: ".as_bytes()) {
            ErrorKind::Corruption
        } else if starts_with(bytes, "Not implemented: ".as_bytes()) {
            ErrorKind::NotSupported
        } else {
            ErrorKind::Other
        };
        Error { kind, message }
    }

    /// The failure of reading or moving a cursor that is not on an entry.
    pub fn invalid_cursor_state() -> (error: Error)
        ensures
            error.spec_kind() == ErrorKind::InvalidCursorState,
            error.spec_message() == "disallowed method called on invalid iterator"@,
    {
        Error {
            kind: ErrorKind::InvalidCursorState,
            message: "disallowed method called on invalid iterator".to_owned(),
        }
    }

    /// Turns the status that the engine left in its error out-parameter into
    /// a result: success where there is no message or an empty one, and
    /// otherwise the failure that the message reports.
    pub fn from_status(status: Option<String>) -> (result: Result<(), Error>)
        ensures
            is_success(status) <==> result is Ok,
            result matches Err(error) ==> error.spec_message() == status->0@ && error.spec_kind()
                == kind_of(status->0@),
    {
        match status {
            None => Ok(()),
            Some(message) => {
                if message.as_str().is_empty() {
                    Ok(())
                } else {
                    Err(Error::new(message))
                }
            },
        }
    }

    /// The kind of this failure.
    #[verifier::when_used_as_spec(spec_kind)]
    pub fn kind(&self) -> (kind: ErrorKind)
        ensures
            kind == self.spec_kind(),
    {
        self.kind
    }

    /// The message of this failure, as the engine gave it.
    pub fn message(&self) -> (message: &str)
        ensures
            message@ == self.spec_message(),
    {
        self.message.as_str()
    }

    /// The message of this failure, as a string of its own.
    pub fn to_string(&self) -> (message: String)
        ensures
            message@ == self.spec_message(),
    {
        self.message.as_str().to_owned()
    }
}

} // verus!
