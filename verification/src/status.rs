//! Status codes with which the host answers every call.

use vstd::prelude::*;

verus! {

/// The closed set of status codes of the host interface.
#[derive(Clone, Copy, Debug, PartialEq, Eq, Structural)]
pub enum Status {
    NoError,
    UnknownError,
    UnableToAllocate,
    InsufficientBuffer,
    OutOfRange,
    LogicError,
    DeletedObject,
    InvalidArgument,
    KeyAlreadyExists,
    ImmutableObject,
    ValueConversion,
    SerializationError,
}

/// Number of status codes the interface defines.
pub const STATUS_COUNT: u32 = 12;

impl Status {
    /// The number the host uses for this status.
    pub open spec fn spec_code(self) -> u32 {
        match self {
            Status::NoError => 0,
            Status::UnknownError => 1,
            Status::UnableToAllocate => 2,
            Status::InsufficientBuffer => 3,
            Status::OutOfRange => 4,
            Status::LogicError => 5,
            Status::DeletedObject => 6,
            Status::InvalidArgument => 7,
            Status::KeyAlreadyExists => 8,
            Status::ImmutableObject => 9,
            Status::ValueConversion => 10,
            Status::SerializationError => 11,
        }
    }

    /// The status a raw code stands for, if it is one of the interface's codes.
    pub open spec fn spec_from_code(code: u32) -> Option<Status> {
        if code == 0 {
            Some(Status::NoError)
        } else if code == 1 {
            Some(Status::UnknownError)
        } else if code == 2 {
            Some(Status::UnableToAllocate)
        } else if code == 3 {
            Some(Status::InsufficientBuffer)
        } else if code == 4 {
            Some(Status::OutOfRange)
        } else if code == 5 {
            Some(Status::LogicError)
        } else if code == 6 {
            Some(Status::DeletedObject)
        } else if code == 7 {
            Some(Status::InvalidArgument)
        } else if code == 8 {
            Some(Status::KeyAlreadyExists)
        } else if code == 9 {
            Some(Status::ImmutableObject)
        } else if code == 10 {
            Some(Status::ValueConversion)
        } else if code == 11 {
            Some(Status::SerializationError)
        } else {
            None
        }
    }

    pub open spec fn is_success(self) -> bool {
        self == Status::NoError
    }

    #[verifier::when_used_as_spec(spec_code)]
    pub fn code(self) -> (c: u32)
        ensures
            c == self.spec_code(),
            c < STATUS_COUNT,
    {
        match self {
            Status::NoError => 0,
            Status::UnknownError => 1,
            Status::UnableToAllocate => 2,
            Status::InsufficientBuffer => 3,
            Status::OutOfRange => 4,
            Status::LogicError => 5,
            Status::DeletedObject => 6,
            Status::InvalidArgument => 7,
            Status::KeyAlreadyExists => 8,
            Status::ImmutableObject => 9,
            Status::ValueConversion => 10,
            Status::SerializationError => 11,
        }
    }

    /// Decodes a raw code. Codes outside the interface's set are refused
    /// rather than mapped to some status.
    #[verifier::when_used_as_spec(spec_from_code)]
    pub fn from_code(code: u32) -> (s: Option<Status>)
        ensures
            s == Status::spec_from_code(code),
            s is Some <==> code < STATUS_COUNT,
            s matches Some(status) ==> status.spec_code() == code,
    {
        match code {
            0 => Some(Status::NoError),
            1 => Some(Status::UnknownError),
            2 => Some(Status::UnableToAllocate),
            3 => Some(Status::InsufficientBuffer),
            4 => Some(Status::OutOfRange),
            5 => Some(Status::LogicError),
            6 => Some(Status::DeletedObject),
            7 => Some(Status::InvalidArgument),
            8 => Some(Status::KeyAlreadyExists),
            9 => Some(Status::ImmutableObject),
            10 => Some(Status::ValueConversion),
            11 => Some(Status::SerializationError),
            _ => None,
        }
    }

    #[verifier::when_used_as_spec(is_success)]
    pub fn succeeded(self) -> (b: bool)
        ensures
            b == self.is_success(),
    {
        matches!(self, Status::NoError)
    }
}

/// Encoding a status and decoding the code gives the status back.
pub proof fn lemma_status_code_round_trip(status: Status)
    ensures
        Status::spec_from_code(status.spec_code()) == Some(status),
{
}

} // verus!
