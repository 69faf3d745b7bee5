use rsmgp_sys::memgraph::{Context, Memgraph};
use rsmgp_sys::mgp::{Entry, Handle, Host, Payload, Reply, ValueTag};
use rsmgp_sys::result::{translate, MgpError};
use rsmgp_sys::scripted::Scripted;
use rsmgp_sys::status::{Status, STATUS_COUNT};
use rsmgp_sys::text::c_string;

const STATUSES: [Status; 12] = [
    Status::NoError,
    Status::UnknownError,
    Status::UnableToAllocate,
    Status::InsufficientBuffer,
    Status::OutOfRange,
    Status::LogicError,
    Status::DeletedObject,
    Status::InvalidArgument,
    Status::KeyAlreadyExists,
    Status::ImmutableObject,
    Status::ValueConversion,
    Status::SerializationError,
];

#[test]
fn every_status_has_its_code() {
    assert_eq!(STATUS_COUNT, 12);
    for (code, status) in STATUSES.iter().enumerate() {
        assert_eq!(status.code(), code as u32);
        assert_eq!(Status::from_code(code as u32), Some(*status));
    }
    assert_eq!(Status::from_code(12), None);
    assert_eq!(Status::from_code(u32::MAX), None);
    assert!(Status::NoError.succeeded());
    assert!(!Status::LogicError.succeeded());
}

#[test]
fn every_status_but_success_becomes_the_error_of_the_site() {
    let error = MgpError::UnableToCreateEmptyList;
    for status in STATUSES {
        let expected = if status == Status::NoError { Ok(()) } else { Err(error) };
        assert_eq!(translate(status, error), expected);
        let mut reply = Reply::failure(status);
        assert_eq!(reply.done_or(error), expected);
        if status != Status::NoError {
            // Whatever the outputs hold, a failed call yields the error.
            reply.value = Payload::Handle(Handle { addr: 1 });
            assert_eq!(reply.handle_or(error), Err(error));
            reply.value = Payload::Size(1);
            assert_eq!(reply.size_or(error), Err(error));
            reply.value = Payload::Int(1);
            assert_eq!(reply.int_or(error), Err(error));
            assert_eq!(reply.i32_or(error), Err(error));
            assert_eq!(reply.u32_or(error), Err(error));
            reply.value = Payload::Bool(true);
            assert_eq!(reply.bool_or(error), Err(error));
            reply.value = Payload::Double(1);
            assert_eq!(reply.double_or(error), Err(error));
            reply.value = Payload::Tag(ValueTag::Int);
            assert_eq!(reply.tag_or(error), Err(error));
            reply.text = b"abc".to_vec();
            assert_eq!(reply.text_or(error), Err(error));
        }
    }
}

#[test]
fn a_successful_reply_yields_its_output() {
    let error = MgpError::UnableToReadValue;
    let h = Handle { addr: 9 };
    assert_eq!(Reply::success(Payload::Handle(h)).handle_or(error), Ok(h));
    assert_eq!(Reply::success(Payload::Size(3)).size_or(error), Ok(3));
    assert_eq!(Reply::success(Payload::Int(-3)).int_or(error), Ok(-3));
    assert_eq!(Reply::success(Payload::Bool(true)).bool_or(error), Ok(true));
    assert_eq!(Reply::success(Payload::Double(5)).double_or(error), Ok(5));
    assert_eq!(
        Reply::success(Payload::Tag(ValueTag::Edge)).tag_or(error),
        Ok(ValueTag::Edge)
    );
    assert_eq!(Reply::success_text(b"abc".to_vec()).text_or(error), Ok(b"abc".to_vec()));
    assert_eq!(Reply::success(Payload::Nothing).done_or(error), Ok(()));
}

#[test]
fn integers_have_to_fit_where_they_are_read() {
    let error = MgpError::UnableToReadDate;
    let reply = |value: i64| Reply::success(Payload::Int(value));
    assert_eq!(reply(i32::MAX as i64).i32_or(error), Ok(i32::MAX));
    assert_eq!(reply(i32::MIN as i64).i32_or(error), Ok(i32::MIN));
    assert_eq!(reply(i32::MAX as i64 + 1).i32_or(error), Err(error));
    assert_eq!(reply(i32::MIN as i64 - 1).i32_or(error), Err(error));
    assert_eq!(reply(u32::MAX as i64).u32_or(error), Ok(u32::MAX));
    assert_eq!(reply(0).u32_or(error), Ok(0));
    assert_eq!(reply(-1).u32_or(error), Err(error));
    assert_eq!(reply(u32::MAX as i64 + 1).u32_or(error), Err(error));
}

#[test]
fn a_string_for_the_host_holds_no_zero_byte() {
    assert_eq!(c_string(b"node_id"), Ok(b"node_id".to_vec()));
    assert_eq!(c_string(b""), Ok(Vec::new()));
    assert_eq!(c_string(&[0]), Err(MgpError::UnableToCreateCString));
    assert_eq!(c_string(&[b'a', b'b', 0]), Err(MgpError::UnableToCreateCString));
    assert_eq!(c_string(&[0, b'a']), Err(MgpError::UnableToCreateCString));
    assert_eq!(c_string(&[255, 1]), Ok(vec![255, 1]));
    assert_eq!(
        Reply::success_text(vec![b'a', 0]).text_or(MgpError::UnableToReadValue),
        Err(MgpError::UnableToCreateCString)
    );
}

#[test]
fn every_error_has_its_sentence() {
    assert_eq!(
        MgpError::UnableToCreateGraphVerticesIterator.message(),
        "Unable to create graph vertices iterator."
    );
    assert_eq!(
        MgpError::UnableToReturnVertexPropertyValueAllocationError.message(),
        "Unable to return vertex property because of value allocation error."
    );
    assert_eq!(
        MgpError::UnableToReturnEdgePropertyNameAllocationError.message(),
        "Unable to return edge property because of name allocation error."
    );
    assert_eq!(
        MgpError::UnableToCreateCString.message(),
        "Unable to create/allocate new CString."
    );
    assert_eq!(
        MgpError::PreparingResultError.message(),
        "Unable to prepare result within Rust procedure."
    );
    assert_eq!(
        MgpError::AddProcedureParameterTypeError.message(),
        "Unable to add a type of procedure parameter in Rust Module."
    );
    assert_eq!(
        MgpError::OutOfBoundLabelIndexError.message(),
        "Out of bound label index."
    );
    assert_eq!(
        MgpError::UnableToAllocateDoubleValue.message(),
        "Unable to allocate double value."
    );
    assert_ne!(
        MgpError::ValueTypeMismatch.message(),
        MgpError::UnableToReadValue.message()
    );
}

#[test]
fn the_scripted_host_answers_in_order_and_keeps_a_record() {
    let mut host = Scripted::new(vec![Reply::success(Payload::Size(1))]);
    host.expect(Reply::failure(Status::OutOfRange));
    assert_eq!(host.calls(), 0);
    assert!(!host.exhausted());

    let first = host.invoke(Entry::ListSize { list: Handle::null() }, b"");
    assert_eq!(first, Reply::success(Payload::Size(1)));
    let second = host.invoke(Entry::MapAt { map: Handle { addr: 3 } }, b"key");
    assert_eq!(second, Reply::failure(Status::OutOfRange));
    assert!(host.exhausted());
    assert_eq!(host.served(), 2);

    // Past the end of the script every call fails.
    let third = host.invoke(Entry::MapMakeEmpty, b"");
    assert_eq!(third.status, Status::UnknownError);
    assert_eq!(host.served(), 2);

    assert_eq!(host.calls(), 3);
    assert_eq!(host.requests()[0].entry, Entry::ListSize { list: Handle::null() });
    assert_eq!(host.requests()[1].entry, Entry::MapAt { map: Handle { addr: 3 } });
    assert_eq!(host.requests()[1].text, b"key".to_vec());
    assert_eq!(host.requests()[2].entry, Entry::MapMakeEmpty);
}

#[test]
fn a_new_invocation_has_the_context_it_was_given() {
    let context = Context {
        args: Handle { addr: 1 },
        graph: Handle { addr: 2 },
        result: Handle { addr: 3 },
        module: Handle { addr: 4 },
    };
    let memgraph = Memgraph::new(Scripted::new(Vec::new()), context);
    assert_eq!(memgraph.context(), context);
    assert_eq!(memgraph.args().handle, Handle { addr: 1 });
    assert_eq!(memgraph.host().calls(), 0);
    let nothing = Context::default();
    assert!(nothing.args.is_null() && nothing.graph.is_null());
    assert!(nothing.result.is_null() && nothing.module.is_null());
    assert_eq!(Handle::null(), Handle { addr: 0 });
    assert!(!Handle { addr: 1 }.is_null());
}
