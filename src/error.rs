use vstd::prelude::*;

verus! {

/// The kinds of failure that the dump operations report.
#[derive(Debug, Clone, Copy, PartialEq, Eq, Structural)]
pub enum DumpError {
    /// A dump is already in progress.
    Conflict,
    /// No dump is known under the requested identifier.
    NotFound,
    /// Reading or writing a file failed.
    Internal,
    /// A file name or identifier is malformed or unsafe.
    InvalidInput,
}

impl DumpError {
    /// The transport status code under which the error is answered.
    pub open spec fn spec_status_code(self) -> u16 {
        match self {
            DumpError::Conflict => 409,
            DumpError::NotFound => 404,
            DumpError::Internal => 500,
            DumpError::InvalidInput => 400,
        }
    }

    pub fn status_code(&self) -> (r: u16)
        ensures
            r == self.spec_status_code(),
    {
        match self {
            DumpError::Conflict => 409,
            DumpError::NotFound => 404,
            DumpError::Internal => 500,
            DumpError::InvalidInput => 400,
        }
    }

    /// The stable, machine-readable name of the kind.
    pub fn kind_name(&self) -> (r: &'static str)
        ensures
            *self == DumpError::Conflict ==> r@ == "conflict"@,
            *self == DumpError::NotFound ==> r@ == "not_found"@,
            *self == DumpError::Internal ==> r@ == "internal"@,
            *self == DumpError::InvalidInput ==> r@ == "invalid_input"@,
    {
        match self {
            DumpError::Conflict => "conflict",
            DumpError::NotFound => "not_found",
            DumpError::Internal => "internal",
            DumpError::InvalidInput => "invalid_input",
        }
    }

    /// A human-readable message for the kind.
    pub fn message(&self) -> (r: &'static str)
        ensures
            *self == DumpError::Conflict ==> r@ == "a dump is already in progress"@,
            *self == DumpError::NotFound ==> r@ == "dump does not exist"@,
            *self == DumpError::Internal ==> r@ == "reading or writing the dump failed"@,
            *self == DumpError::InvalidInput ==> r@ == "invalid file name"@,
    {
        match self {
            DumpError::Conflict => "a dump is already in progress",
            DumpError::NotFound => "dump does not exist",
            DumpError::Internal => "reading or writing the dump failed",
            DumpError::InvalidInput => "invalid file name",
        }
    }
}

} // verus!
