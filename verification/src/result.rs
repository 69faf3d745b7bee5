//! The error taxonomy, and the translation of the host's answers into it.

use vstd::prelude::*;
use crate::mgp::{Handle, Payload, Reply, ValueTag};
use crate::text::{c_string, is_c_string, text_result};
use crate::status::Status;

verus! {

/// Every way in which an operation of this library can fail. Each call site
/// has its own member, so that a failure names the step that failed.
#[derive(Clone, Copy, Debug, PartialEq, Eq, Structural)]
pub enum MgpError {
    UnableToCreateGraphVerticesIterator,
    UnableToFindVertexById,
    UnableToCopyVertex,
    UnableToGetVertexId,
    UnableToReturnVertexLabelsCount,
    UnableToCheckVertexHasLabel,
    UnableToReturnVertexPropertyValueAllocationError,
    UnableToReturnVertexPropertyValueCreationError,
    UnableToReturnVertexPropertyNameAllocationError,
    UnableToReturnVertexPropertiesIterator,
    UnableToReturnVertexInEdgesIterator,
    UnableToReturnVertexOutEdgesIterator,
    UnableToCopyEdge,
    UnableToGetEdgeId,
    UnableToReturnEdgeType,
    UnableToReturnEdgeEndpoint,
    UnableToReturnEdgePropertyValueAllocationError,
    UnableToReturnEdgePropertyValueCreationError,
    UnableToReturnEdgePropertyNameAllocationError,
    UnableToReturnEdgePropertiesIterator,
    UnableToAdvanceIterator,
    UnableToAllocateNullValue,
    UnableToAllocateBoolValue,
    UnableToAllocateIntegerValue,
    UnableToAllocateStringValue,
    UnableToAllocateDoubleValue,
    UnableToAllocateListValue,
    UnableToAllocateMapValue,
    UnableToAllocateVertexValue,
    UnableToAllocateEdgeValue,
    UnableToAllocatePathValue,
    UnableToAllocateDateValue,
    UnableToAllocateLocalTimeValue,
    UnableToAllocateLocalDateTimeValue,
    UnableToAllocateDurationValue,
    UnableToGetValueType,
    UnableToReadValue,
    ValueTypeMismatch,
    UnableToCreateCString,
    UnableToCreateEmptyList,
    UnableToCopyList,
    UnableToCopyMap,
    UnableToCopyPath,
    UnableToCopyDate,
    UnableToCopyLocalTime,
    UnableToCopyLocalDateTime,
    UnableToCopyDuration,
    UnableToAppendListValue,
    UnableToAppendExtendListValue,
    UnableToAccessListValueByIndex,
    UnableToGetListSize,
    UnableToGetListCapacity,
    UnableToCreateEmptyMap,
    UnableToInsertMapValue,
    UnableToAccessMapValue,
    UnableToGetMapSize,
    UnableToCreateMapIterator,
    UnableToCreateDateFromNaiveDate,
    UnableToReadDate,
    UnableToCreateLocalTimeFromNaiveTime,
    UnableToReadLocalTime,
    UnableToCreateLocalDateTimeFromNaiveDateTime,
    UnableToReadLocalDateTime,
    UnableToCreateDurationFromChronoDuration,
    UnableToReadDuration,
    UnableToCreateResultRecord,
    PreparingResultError,
    UnableToRegisterReadProcedure,
    AddProcedureParameterTypeError,
    UnableToAddRequiredArguments,
    UnableToAddOptionalArguments,
    UnableToAddReturnType,
    OutOfBoundLabelIndexError,
}

pub type MgpResult<T> = Result<T, MgpError>;

impl MgpError {
    /// The text that describes this error to a reader.
    pub open spec fn spec_message(self) -> Seq<char> {
        match self {
            MgpError::UnableToCreateGraphVerticesIterator => "Unable to create graph vertices iterator."@,
            MgpError::UnableToFindVertexById => "Unable to find vertex by id."@,
            MgpError::UnableToCopyVertex => "Unable to copy vertex."@,
            MgpError::UnableToGetVertexId => "Unable to get vertex id."@,
            MgpError::UnableToReturnVertexLabelsCount => "Unable to return vertex labels count."@,
            MgpError::UnableToCheckVertexHasLabel => "Unable to check whether vertex has label."@,
            MgpError::UnableToReturnVertexPropertyValueAllocationError => "Unable to return vertex property because of value allocation error."@,
            MgpError::UnableToReturnVertexPropertyValueCreationError => "Unable to return vertex property because of value creation error."@,
            MgpError::UnableToReturnVertexPropertyNameAllocationError => "Unable to return vertex property because of name allocation error."@,
            MgpError::UnableToReturnVertexPropertiesIterator => "Unable to return vertex properties iterator."@,
            MgpError::UnableToReturnVertexInEdgesIterator => "Unable to return vertex in_edges iterator."@,
            MgpError::UnableToReturnVertexOutEdgesIterator => "Unable to return vertex out_edges iterator."@,
            MgpError::UnableToCopyEdge => "Unable to copy edge."@,
            MgpError::UnableToGetEdgeId => "Unable to get edge id."@,
            MgpError::UnableToReturnEdgeType => "Unable to return edge type."@,
            MgpError::UnableToReturnEdgeEndpoint => "Unable to return edge endpoint."@,
            MgpError::UnableToReturnEdgePropertyValueAllocationError => "Unable to return edge property because of value allocation error."@,
            MgpError::UnableToReturnEdgePropertyValueCreationError => "Unable to return edge property because of value creation error."@,
            MgpError::UnableToReturnEdgePropertyNameAllocationError => "Unable to return edge property because of name allocation error."@,
            MgpError::UnableToReturnEdgePropertiesIterator => "Unable to return edge properties iterator."@,
            MgpError::UnableToAdvanceIterator => "Unable to advance iterator."@,
            MgpError::UnableToAllocateNullValue => "Unable to allocate null value."@,
            MgpError::UnableToAllocateBoolValue => "Unable to allocate bool value."@,
            MgpError::UnableToAllocateIntegerValue => "Unable to allocate integer value."@,
            MgpError::UnableToAllocateStringValue => "Unable to allocate string value."@,
            MgpError::UnableToAllocateDoubleValue => "Unable to allocate double value."@,
            MgpError::UnableToAllocateListValue => "Unable to allocate list value."@,
            MgpError::UnableToAllocateMapValue => "Unable to allocate map value."@,
            MgpError::UnableToAllocateVertexValue => "Unable to allocate vertex value."@,
            MgpError::UnableToAllocateEdgeValue => "Unable to allocate edge value."@,
            MgpError::UnableToAllocatePathValue => "Unable to allocate path value."@,
            MgpError::UnableToAllocateDateValue => "Unable to allocate date value."@,
            MgpError::UnableToAllocateLocalTimeValue => "Unable to allocate local time value."@,
            MgpError::UnableToAllocateLocalDateTimeValue => "Unable to allocate local date-time value."@,
            MgpError::UnableToAllocateDurationValue => "Unable to allocate duration value."@,
            MgpError::UnableToGetValueType => "Unable to get the type of a value."@,
            MgpError::UnableToReadValue => "Unable to read the payload of a value."@,
            MgpError::ValueTypeMismatch => "The value is not of the requested type."@,
            MgpError::UnableToCreateCString => "Unable to create/allocate new CString."@,
            MgpError::UnableToCreateEmptyList => "Unable to create empty list."@,
            MgpError::UnableToCopyList => "Unable to copy list."@,
            MgpError::UnableToCopyMap => "Unable to copy map."@,
            MgpError::UnableToCopyPath => "Unable to copy path."@,
            MgpError::UnableToCopyDate => "Unable to copy date."@,
            MgpError::UnableToCopyLocalTime => "Unable to copy local time."@,
            MgpError::UnableToCopyLocalDateTime => "Unable to copy local date-time."@,
            MgpError::UnableToCopyDuration => "Unable to copy duration."@,
            MgpError::UnableToAppendListValue => "Unable to append list value."@,
            MgpError::UnableToAppendExtendListValue => "Unable to append extend list value."@,
            MgpError::UnableToAccessListValueByIndex => "Unable to access list value by index."@,
            MgpError::UnableToGetListSize => "Unable to get list size."@,
            MgpError::UnableToGetListCapacity => "Unable to get list capacity."@,
            MgpError::UnableToCreateEmptyMap => "Unable to create empty map."@,
            MgpError::UnableToInsertMapValue => "Unable to insert map value."@,
            MgpError::UnableToAccessMapValue => "Unable to access map value."@,
            MgpError::UnableToGetMapSize => "Unable to get map size."@,
            MgpError::UnableToCreateMapIterator => "Unable to create map iterator."@,
            MgpError::UnableToCreateDateFromNaiveDate => "Unable to create date from naive date."@,
            MgpError::UnableToReadDate => "Unable to read date."@,
            MgpError::UnableToCreateLocalTimeFromNaiveTime => "Unable to create local time from naive time."@,
            MgpError::UnableToReadLocalTime => "Unable to read local time."@,
            MgpError::UnableToCreateLocalDateTimeFromNaiveDateTime => "Unable to create local date-time from naive date-time."@,
            MgpError::UnableToReadLocalDateTime => "Unable to read local date-time."@,
            MgpError::UnableToCreateDurationFromChronoDuration => "Unable to create duration from chrono duration."@,
            MgpError::UnableToReadDuration => "Unable to read duration."@,
            MgpError::UnableToCreateResultRecord => "Unable to create result record."@,
            MgpError::PreparingResultError => "Unable to prepare result within Rust procedure."@,
            MgpError::UnableToRegisterReadProcedure => "Unable to register read procedure."@,
            MgpError::AddProcedureParameterTypeError => "Unable to add a type of procedure parameter in Rust Module."@,
            MgpError::UnableToAddRequiredArguments => "Unable to add required arguments."@,
            MgpError::UnableToAddOptionalArguments => "Unable to add optional arguments."@,
            MgpError::UnableToAddReturnType => "Unable to add return type."@,
            MgpError::OutOfBoundLabelIndexError => "Out of bound label index."@,
        }
    }

    /// A sentence for the user, one per error.
    pub fn message(&self) -> (text: &'static str)
        ensures
            text@ == self.spec_message(),
    {
        match self {
            MgpError::UnableToCreateGraphVerticesIterator => "Unable to create graph vertices iterator.",
            MgpError::UnableToFindVertexById => "Unable to find vertex by id.",
            MgpError::UnableToCopyVertex => "Unable to copy vertex.",
            MgpError::UnableToGetVertexId => "Unable to get vertex id.",
            MgpError::UnableToReturnVertexLabelsCount => "Unable to return vertex labels count.",
            MgpError::UnableToCheckVertexHasLabel => "Unable to check whether vertex has label.",
            MgpError::UnableToReturnVertexPropertyValueAllocationError => "Unable to return vertex property because of value allocation error.",
            MgpError::UnableToReturnVertexPropertyValueCreationError => "Unable to return vertex property because of value creation error.",
            MgpError::UnableToReturnVertexPropertyNameAllocationError => "Unable to return vertex property because of name allocation error.",
            MgpError::UnableToReturnVertexPropertiesIterator => "Unable to return vertex properties iterator.",
            MgpError::UnableToReturnVertexInEdgesIterator => "Unable to return vertex in_edges iterator.",
            MgpError::UnableToReturnVertexOutEdgesIterator => "Unable to return vertex out_edges iterator.",
            MgpError::UnableToCopyEdge => "Unable to copy edge.",
            MgpError::UnableToGetEdgeId => "Unable to get edge id.",
            MgpError::UnableToReturnEdgeType => "Unable to return edge type.",
            MgpError::UnableToReturnEdgeEndpoint => "Unable to return edge endpoint.",
            MgpError::UnableToReturnEdgePropertyValueAllocationError => "Unable to return edge property because of value allocation error.",
            MgpError::UnableToReturnEdgePropertyValueCreationError => "Unable to return edge property because of value creation error.",
            MgpError::UnableToReturnEdgePropertyNameAllocationError => "Unable to return edge property because of name allocation error.",
            MgpError::UnableToReturnEdgePropertiesIterator => "Unable to return edge properties iterator.",
            MgpError::UnableToAdvanceIterator => "Unable to advance iterator.",
            MgpError::UnableToAllocateNullValue => "Unable to allocate null value.",
            MgpError::UnableToAllocateBoolValue => "Unable to allocate bool value.",
            MgpError::UnableToAllocateIntegerValue => "Unable to allocate integer value.",
            MgpError::UnableToAllocateStringValue => "Unable to allocate string value.",
            MgpError::UnableToAllocateDoubleValue => "Unable to allocate double value.",
            MgpError::UnableToAllocateListValue => "Unable to allocate list value.",
            MgpError::UnableToAllocateMapValue => "Unable to allocate map value.",
            MgpError::UnableToAllocateVertexValue => "Unable to allocate vertex value.",
            MgpError::UnableToAllocateEdgeValue => "Unable to allocate edge value.",
            MgpError::UnableToAllocatePathValue => "Unable to allocate path value.",
            MgpError::UnableToAllocateDateValue => "Unable to allocate date value.",
            MgpError::UnableToAllocateLocalTimeValue => "Unable to allocate local time value.",
            MgpError::UnableToAllocateLocalDateTimeValue => "Unable to allocate local date-time value.",
            MgpError::UnableToAllocateDurationValue => "Unable to allocate duration value.",
            MgpError::UnableToGetValueType => "Unable to get the type of a value.",
            MgpError::UnableToReadValue => "Unable to read the payload of a value.",
            MgpError::ValueTypeMismatch => "The value is not of the requested type.",
            MgpError::UnableToCreateCString => "Unable to create/allocate new CString.",
            MgpError::UnableToCreateEmptyList => "Unable to create empty list.",
            MgpError::UnableToCopyList => "Unable to copy list.",
            MgpError::UnableToCopyMap => "Unable to copy map.",
            MgpError::UnableToCopyPath => "Unable to copy path.",
            MgpError::UnableToCopyDate => "Unable to copy date.",
            MgpError::UnableToCopyLocalTime => "Unable to copy local time.",
            MgpError::UnableToCopyLocalDateTime => "Unable to copy local date-time.",
            MgpError::UnableToCopyDuration => "Unable to copy duration.",
            MgpError::UnableToAppendListValue => "Unable to append list value.",
            MgpError::UnableToAppendExtendListValue => "Unable to append extend list value.",
            MgpError::UnableToAccessListValueByIndex => "Unable to access list value by index.",
            MgpError::UnableToGetListSize => "Unable to get list size.",
            MgpError::UnableToGetListCapacity => "Unable to get list capacity.",
            MgpError::UnableToCreateEmptyMap => "Unable to create empty map.",
            MgpError::UnableToInsertMapValue => "Unable to insert map value.",
            MgpError::UnableToAccessMapValue => "Unable to access map value.",
            MgpError::UnableToGetMapSize => "Unable to get map size.",
            MgpError::UnableToCreateMapIterator => "Unable to create map iterator.",
            MgpError::UnableToCreateDateFromNaiveDate => "Unable to create date from naive date.",
            MgpError::UnableToReadDate => "Unable to read date.",
            MgpError::UnableToCreateLocalTimeFromNaiveTime => "Unable to create local time from naive time.",
            MgpError::UnableToReadLocalTime => "Unable to read local time.",
            MgpError::UnableToCreateLocalDateTimeFromNaiveDateTime => "Unable to create local date-time from naive date-time.",
            MgpError::UnableToReadLocalDateTime => "Unable to read local date-time.",
            MgpError::UnableToCreateDurationFromChronoDuration => "Unable to create duration from chrono duration.",
            MgpError::UnableToReadDuration => "Unable to read duration.",
            MgpError::UnableToCreateResultRecord => "Unable to create result record.",
            MgpError::PreparingResultError => "Unable to prepare result within Rust procedure.",
            MgpError::UnableToRegisterReadProcedure => "Unable to register read procedure.",
            MgpError::AddProcedureParameterTypeError => "Unable to add a type of procedure parameter in Rust Module.",
            MgpError::UnableToAddRequiredArguments => "Unable to add required arguments.",
            MgpError::UnableToAddOptionalArguments => "Unable to add optional arguments.",
            MgpError::UnableToAddReturnType => "Unable to add return type.",
            MgpError::OutOfBoundLabelIndexError => "Out of bound label index.",
        }
    }
}

/// Translates the status of a call made at a site whose documented failure is
/// `error`: success passes, and every other status becomes exactly `error`.
pub fn translate(status: Status, error: MgpError) -> (r: Result<(), MgpError>)
    ensures
        status == Status::NoError ==> r == Ok::<(), MgpError>(()),
        status != Status::NoError ==> r == Err::<(), MgpError>(error),
{
    match status {
        Status::NoError => Ok(()),
        _ => Err(error),
    }
}

impl Reply {
    /// A reply that reports `status` and carries no output.
    pub fn failure(status: Status) -> (reply: Reply)
        ensures
            reply.status == status,
            reply.value == Payload::Nothing,
            reply.text@ == Seq::<u8>::empty(),
    {
        Reply { status, value: Payload::Nothing, text: Vec::new() }
    }

    /// A successful reply that carries the scalar `value`.
    pub fn success(value: Payload) -> (reply: Reply)
        ensures
            reply.status == Status::NoError,
            reply.value == value,
            reply.text@ == Seq::<u8>::empty(),
    {
        Reply { status: Status::NoError, value, text: Vec::new() }
    }

    /// A successful reply that carries a string.
    pub fn success_text(text: Vec<u8>) -> (reply: Reply)
        ensures
            reply.status == Status::NoError,
            reply.value == Payload::Nothing,
            reply.text@ == text@,
    {
        Reply { status: Status::NoError, value: Payload::Nothing, text }
    }

    pub open spec fn spec_done_or(&self, error: MgpError) -> Result<(), MgpError> {
        if self.status == Status::NoError {
            Ok(())
        } else {
            Err(error)
        }
    }

    /// The outcome of a call that has no output.
    #[verifier::when_used_as_spec(spec_done_or)]
    pub fn done_or(&self, error: MgpError) -> (r: Result<(), MgpError>)
        ensures
            r == self.spec_done_or(error),
    {
        translate(self.status, error)
    }

    pub open spec fn spec_handle_or(&self, error: MgpError) -> Result<Handle, MgpError> {
        match (self.status, self.value) {
            (Status::NoError, Payload::Handle(handle)) => Ok(handle),
            _ => Err(error),
        }
    }

    /// The outcome of a call whose output is a handle.
    #[verifier::when_used_as_spec(spec_handle_or)]
    pub fn handle_or(&self, error: MgpError) -> (r: Result<Handle, MgpError>)
        ensures
            r == self.spec_handle_or(error),
    {
        translate(self.status, error)?;
        match self.value {
            Payload::Handle(handle) => Ok(handle),
            _ => Err(error),
        }
    }

    pub open spec fn spec_size_or(&self, error: MgpError) -> Result<u64, MgpError> {
        match (self.status, self.value) {
            (Status::NoError, Payload::Size(size)) => Ok(size),
            _ => Err(error),
        }
    }

    /// The outcome of a call whose output is a size or a count.
    #[verifier::when_used_as_spec(spec_size_or)]
    pub fn size_or(&self, error: MgpError) -> (r: Result<u64, MgpError>)
        ensures
            r == self.spec_size_or(error),
    {
        translate(self.status, error)?;
        match self.value {
            Payload::Size(size) => Ok(size),
            _ => Err(error),
        }
    }

    pub open spec fn spec_int_or(&self, error: MgpError) -> Result<i64, MgpError> {
        match (self.status, self.value) {
            (Status::NoError, Payload::Int(value)) => Ok(value),
            _ => Err(error),
        }
    }

    /// The outcome of a call whose output is an integer.
    #[verifier::when_used_as_spec(spec_int_or)]
    pub fn int_or(&self, error: MgpError) -> (r: Result<i64, MgpError>)
        ensures
            r == self.spec_int_or(error),
    {
        translate(self.status, error)?;
        match self.value {
            Payload::Int(value) => Ok(value),
            _ => Err(error),
        }
    }

    pub open spec fn spec_i32_or(&self, error: MgpError) -> Result<i32, MgpError> {
        match (self.status, self.value) {
            (Status::NoError, Payload::Int(value)) => if i32::MIN <= value <= i32::MAX {
                Ok(value as i32)
            } else {
                Err(error)
            },
            _ => Err(error),
        }
    }

    /// The outcome of a call whose output is an integer that has to fit in
    /// 32 bits.
    #[verifier::when_used_as_spec(spec_i32_or)]
    pub fn i32_or(&self, error: MgpError) -> (r: Result<i32, MgpError>)
        ensures
            r == self.spec_i32_or(error),
    {
        translate(self.status, error)?;
        match self.value {
            Payload::Int(value) => if -2_147_483_648 <= value && value <= 2_147_483_647 {
                Ok(value as i32)
            } else {
                Err(error)
            },
            _ => Err(error),
        }
    }

    pub open spec fn spec_u32_or(&self, error: MgpError) -> Result<u32, MgpError> {
        match (self.status, self.value) {
            (Status::NoError, Payload::Int(value)) => if 0 <= value <= u32::MAX {
                Ok(value as u32)
            } else {
                Err(error)
            },
            _ => Err(error),
        }
    }

    /// The outcome of a call whose output is an integer that has to be a
    /// natural number of 32 bits.
    #[verifier::when_used_as_spec(spec_u32_or)]
    pub fn u32_or(&self, error: MgpError) -> (r: Result<u32, MgpError>)
        ensures
            r == self.spec_u32_or(error),
    {
        translate(self.status, error)?;
        match self.value {
            Payload::Int(value) => if 0 <= value && value <= 4_294_967_295 {
                Ok(value as u32)
            } else {
                Err(error)
            },
            _ => Err(error),
        }
    }

    pub open spec fn spec_bool_or(&self, error: MgpError) -> Result<bool, MgpError> {
        match (self.status, self.value) {
            (Status::NoError, Payload::Bool(value)) => Ok(value),
            _ => Err(error),
        }
    }

    /// The outcome of a call whose output is a truth value.
    #[verifier::when_used_as_spec(spec_bool_or)]
    pub fn bool_or(&self, error: MgpError) -> (r: Result<bool, MgpError>)
        ensures
            r == self.spec_bool_or(error),
    {
        translate(self.status, error)?;
        match self.value {
            Payload::Bool(value) => Ok(value),
            _ => Err(error),
        }
    }

    pub open spec fn spec_double_or(&self, error: MgpError) -> Result<u64, MgpError> {
        match (self.status, self.value) {
            (Status::NoError, Payload::Double(bits)) => Ok(bits),
            _ => Err(error),
        }
    }

    /// The outcome of a call whose output is a double, as its bit pattern.
    #[verifier::when_used_as_spec(spec_double_or)]
    pub fn double_or(&self, error: MgpError) -> (r: Result<u64, MgpError>)
        ensures
            r == self.spec_double_or(error),
    {
        translate(self.status, error)?;
        match self.value {
            Payload::Double(bits) => Ok(bits),
            _ => Err(error),
        }
    }

    pub open spec fn spec_text_or(&self, error: MgpError) -> Result<Seq<u8>, MgpError> {
        if self.status != Status::NoError {
            Err(error)
        } else if is_c_string(self.text@) {
            Ok(self.text@)
        } else {
            Err(MgpError::UnableToCreateCString)
        }
    }

    /// The outcome of a call whose output is a string. A string that the
    /// host's representation cannot hold is a failure of its own kind.
    pub fn text_or(&self, error: MgpError) -> (r: Result<Vec<u8>, MgpError>)
        ensures
            text_result(r) == self.spec_text_or(error),
    {
        translate(self.status, error)?;
        c_string(self.text.as_slice())
    }

    pub open spec fn spec_tag_or(&self, error: MgpError) -> Result<ValueTag, MgpError> {
        match (self.status, self.value) {
            (Status::NoError, Payload::Tag(tag)) => Ok(tag),
            _ => Err(error),
        }
    }

    /// The outcome of a call whose output is the case of a value.
    #[verifier::when_used_as_spec(spec_tag_or)]
    pub fn tag_or(&self, error: MgpError) -> (r: Result<ValueTag, MgpError>)
        ensures
            r == self.spec_tag_or(error),
    {
        translate(self.status, error)?;
        match self.value {
            Payload::Tag(tag) => Ok(tag),
            _ => Err(error),
        }
    }
}

} // verus!
