use rsmgp_sys::edge::EdgeRef;
use rsmgp_sys::list::ListRef;
use rsmgp_sys::map::MapRef;
use rsmgp_sys::memgraph::{Context, Memgraph};
use rsmgp_sys::mgp::{Entry, Handle, Kind, Payload, Reply, ValueTag};
use rsmgp_sys::path::PathRef;
use rsmgp_sys::result::MgpError;
use rsmgp_sys::scripted::Scripted;
use rsmgp_sys::status::Status;
use rsmgp_sys::temporal::{DateRef, DurationRef, LocalDateTimeRef, LocalTimeRef};
use rsmgp_sys::value::Value;
use rsmgp_sys::vertex::VertexRef;

fn memgraph_with(replies: Vec<Reply>) -> Memgraph<Scripted> {
    Memgraph::new(Scripted::new(replies), Context::default())
}

fn handle(addr: u64) -> Handle {
    Handle { addr }
}

fn gives(addr: u64) -> Reply {
    Reply::success(Payload::Handle(handle(addr)))
}

fn tagged(tag: ValueTag) -> Reply {
    Reply::success(Payload::Tag(tag))
}

fn entries(memgraph: &Memgraph<Scripted>) -> Vec<Entry> {
    memgraph.host().requests().iter().map(|request| request.entry).collect()
}

fn decode(replies: Vec<Reply>) -> (Result<Value, MgpError>, usize) {
    let mut memgraph = memgraph_with(replies);
    let value = Value::decode(handle(9), &mut memgraph);
    (value, memgraph.host().calls())
}

#[test]
fn the_case_is_asked_for_first_and_selects_the_reading() {
    let mut memgraph = memgraph_with(vec![
        tagged(ValueTag::Int),
        Reply::success(Payload::Int(-3)),
    ]);
    assert_eq!(Value::decode(handle(9), &mut memgraph), Ok(Value::Int(-3)));
    assert_eq!(
        entries(&memgraph),
        vec![
            Entry::ValueGetType { value: handle(9) },
            Entry::ValueGet { tag: ValueTag::Int, value: handle(9) },
        ]
    );
}

#[test]
fn null_takes_the_one_query() {
    assert_eq!(decode(vec![tagged(ValueTag::Null)]), (Ok(Value::Null), 1));
}

#[test]
fn scalars_are_copied_by_value() {
    assert_eq!(
        decode(vec![tagged(ValueTag::Bool), Reply::success(Payload::Bool(true))]),
        (Ok(Value::Bool(true)), 2)
    );
    let bits = 0.25f64.to_bits();
    assert_eq!(
        decode(vec![tagged(ValueTag::Double), Reply::success(Payload::Double(bits))]),
        (Ok(Value::Double(bits)), 2)
    );
    assert_eq!(
        decode(vec![tagged(ValueTag::String), Reply::success_text(b"hello".to_vec())]),
        (Ok(Value::String(b"hello".to_vec())), 2)
    );
}

#[test]
fn objects_are_wrapped_as_borrowed_views() {
    let h = handle(77);
    let cases = vec![
        (ValueTag::List, Value::List(ListRef::new(h))),
        (ValueTag::Mapping, Value::Mapping(MapRef::new(h))),
        (ValueTag::Vertex, Value::Vertex(VertexRef::new(h))),
        (ValueTag::Edge, Value::Edge(EdgeRef::new(h))),
        (ValueTag::Path, Value::Path(PathRef { handle: h })),
        (ValueTag::Date, Value::Date(DateRef::new(h))),
        (ValueTag::LocalTime, Value::LocalTime(LocalTimeRef::new(h))),
        (ValueTag::LocalDateTime, Value::LocalDateTime(LocalDateTimeRef::new(h))),
        (ValueTag::Duration, Value::Duration(DurationRef::new(h))),
    ];
    for (tag, expected) in cases {
        let mut memgraph = memgraph_with(vec![tagged(tag), gives(77)]);
        assert_eq!(Value::decode(handle(9), &mut memgraph), Ok(expected.clone()));
        assert_eq!(expected.tag(), tag);
        // Nothing was copied and nothing is to be released.
        assert_eq!(
            entries(&memgraph),
            vec![
                Entry::ValueGetType { value: handle(9) },
                Entry::ValueGet { tag, value: handle(9) },
            ]
        );
    }
}

#[test]
fn each_step_of_the_reading_fails_with_its_own_error() {
    assert_eq!(
        decode(vec![Reply::failure(Status::UnknownError)]),
        (Err(MgpError::UnableToGetValueType), 1)
    );
    assert_eq!(
        decode(vec![tagged(ValueTag::Int), Reply::failure(Status::ValueConversion)]),
        (Err(MgpError::UnableToReadValue), 2)
    );
    // The payload does not have the shape of the case.
    assert_eq!(
        decode(vec![tagged(ValueTag::Int), Reply::success(Payload::Bool(true))]),
        (Err(MgpError::UnableToReadValue), 2)
    );
    // A string that holds a zero byte cannot stand for a string of the host.
    assert_eq!(
        decode(vec![tagged(ValueTag::String), Reply::success_text(vec![b'a', 0, b'b'])]),
        (Err(MgpError::UnableToCreateCString), 2)
    );
}

#[test]
fn a_value_read_as_another_case_is_a_mismatch() {
    let value = Value::Int(5);
    assert_eq!(value.as_int(), Ok(5));
    assert_eq!(value.as_bool(), Err(MgpError::ValueTypeMismatch));
    assert_eq!(value.as_double(), Err(MgpError::ValueTypeMismatch));
    assert_eq!(value.as_string(), Err(MgpError::ValueTypeMismatch));
    assert_eq!(value.as_list(), Err(MgpError::ValueTypeMismatch));
    assert_eq!(value.as_map(), Err(MgpError::ValueTypeMismatch));
    assert_eq!(value.as_vertex(), Err(MgpError::ValueTypeMismatch));
    assert_eq!(value.as_edge(), Err(MgpError::ValueTypeMismatch));
    assert_eq!(value.as_path(), Err(MgpError::ValueTypeMismatch));
    assert_eq!(value.as_date(), Err(MgpError::ValueTypeMismatch));
    assert_eq!(value.as_local_time(), Err(MgpError::ValueTypeMismatch));
    assert_eq!(value.as_local_date_time(), Err(MgpError::ValueTypeMismatch));
    assert_eq!(value.as_duration(), Err(MgpError::ValueTypeMismatch));
    assert!(!value.is_null());
    assert!(Value::Null.is_null());
    // No case is converted into another.
    assert_eq!(Value::Bool(true).as_int(), Err(MgpError::ValueTypeMismatch));
    assert_eq!(Value::Double(1).as_int(), Err(MgpError::ValueTypeMismatch));
    assert_eq!(Value::Null.as_bool(), Err(MgpError::ValueTypeMismatch));
}

#[test]
fn a_value_read_as_its_own_case_gives_the_payload() {
    let h = handle(3);
    assert_eq!(Value::Bool(true).as_bool(), Ok(true));
    assert_eq!(Value::Double(42).as_double(), Ok(42));
    assert_eq!(Value::String(b"x".to_vec()).as_string(), Ok(&b"x".to_vec()));
    assert_eq!(Value::List(ListRef::new(h)).as_list(), Ok(ListRef::new(h)));
    assert_eq!(Value::Mapping(MapRef::new(h)).as_map(), Ok(MapRef::new(h)));
    assert_eq!(Value::Vertex(VertexRef::new(h)).as_vertex(), Ok(VertexRef::new(h)));
    assert_eq!(Value::Edge(EdgeRef::new(h)).as_edge(), Ok(EdgeRef::new(h)));
    assert_eq!(Value::Path(PathRef { handle: h }).as_path(), Ok(PathRef { handle: h }));
    assert_eq!(Value::Date(DateRef::new(h)).as_date(), Ok(DateRef::new(h)));
    assert_eq!(
        Value::LocalTime(LocalTimeRef::new(h)).as_local_time(),
        Ok(LocalTimeRef::new(h))
    );
    assert_eq!(
        Value::LocalDateTime(LocalDateTimeRef::new(h)).as_local_date_time(),
        Ok(LocalDateTimeRef::new(h))
    );
    assert_eq!(
        Value::Duration(DurationRef::new(h)).as_duration(),
        Ok(DurationRef::new(h))
    );
}

#[test]
fn a_scalar_becomes_a_value_of_the_host_with_one_call() {
    let bits = 1.5f64.to_bits();
    let cases = vec![
        (Value::Null, Entry::ValueMakeNull, MgpError::UnableToAllocateNullValue),
        (
            Value::Bool(true),
            Entry::ValueMakeBool { value: true },
            MgpError::UnableToAllocateBoolValue,
        ),
        (
            Value::Int(7),
            Entry::ValueMakeInt { value: 7 },
            MgpError::UnableToAllocateIntegerValue,
        ),
        (
            Value::Double(bits),
            Entry::ValueMakeDouble { bits },
            MgpError::UnableToAllocateDoubleValue,
        ),
        (
            Value::String(b"abc".to_vec()),
            Entry::ValueMakeString,
            MgpError::UnableToAllocateStringValue,
        ),
    ];
    for (value, entry, error) in cases {
        let mut memgraph = memgraph_with(vec![gives(200)]);
        let made = value.to_mgp_value(&mut memgraph).unwrap();
        assert_eq!(made.handle(), handle(200));
        assert_eq!(entries(&memgraph), vec![entry]);
        made.release(&mut memgraph);
        assert_eq!(
            entries(&memgraph)[1],
            Entry::Destroy { kind: Kind::Value, object: handle(200) }
        );

        let mut memgraph = memgraph_with(vec![Reply::failure(Status::UnableToAllocate)]);
        assert_eq!(value.to_mgp_value(&mut memgraph).err().unwrap(), error);
        assert_eq!(memgraph.host().calls(), 1);
    }
}

#[test]
fn the_string_travels_beside_the_call() {
    let mut memgraph = memgraph_with(vec![gives(200)]);
    Value::String(b"abc".to_vec()).to_mgp_value(&mut memgraph).unwrap();
    assert_eq!(memgraph.host().requests()[0].text, b"abc".to_vec());
}

#[test]
fn a_string_with_a_zero_byte_is_refused_before_the_host_is_asked() {
    let mut memgraph = memgraph_with(vec![gives(200)]);
    let made = Value::String(vec![1, 0, 2]).to_mgp_value(&mut memgraph);
    assert_eq!(made.err().unwrap(), MgpError::UnableToCreateCString);
    assert_eq!(memgraph.host().calls(), 0);
}

#[test]
fn an_object_is_copied_by_the_host_before_it_is_wrapped() {
    let h = handle(7);
    let cases = vec![
        (Value::Mapping(MapRef::new(h)), ValueTag::Mapping, Kind::Mapping),
        (Value::Vertex(VertexRef::new(h)), ValueTag::Vertex, Kind::Vertex),
        (Value::Edge(EdgeRef::new(h)), ValueTag::Edge, Kind::Edge),
        (Value::Path(PathRef { handle: h }), ValueTag::Path, Kind::Path),
        (Value::Date(DateRef::new(h)), ValueTag::Date, Kind::Date),
        (Value::LocalTime(LocalTimeRef::new(h)), ValueTag::LocalTime, Kind::LocalTime),
        (
            Value::LocalDateTime(LocalDateTimeRef::new(h)),
            ValueTag::LocalDateTime,
            Kind::LocalDateTime,
        ),
        (Value::Duration(DurationRef::new(h)), ValueTag::Duration, Kind::Duration),
    ];
    for (value, tag, kind) in cases {
        assert_eq!(tag.object_kind(), Some(kind));
        let mut memgraph = memgraph_with(vec![gives(60), gives(200)]);
        let made = value.to_mgp_value(&mut memgraph).unwrap();
        assert_eq!(made.handle(), handle(200));
        assert_eq!(
            entries(&memgraph),
            vec![
                Entry::Copy { kind, object: h },
                Entry::ValueMakeFrom { tag, object: handle(60) },
            ]
        );
    }
}

#[test]
fn an_object_that_cannot_be_copied_or_wrapped_leaves_nothing_behind() {
    let value = Value::Vertex(VertexRef::new(handle(7)));

    let mut memgraph = memgraph_with(vec![Reply::failure(Status::UnableToAllocate)]);
    assert_eq!(
        value.to_mgp_value(&mut memgraph).err().unwrap(),
        MgpError::UnableToCopyVertex
    );
    assert_eq!(memgraph.host().calls(), 1);

    let mut memgraph = memgraph_with(vec![gives(60), Reply::failure(Status::UnableToAllocate)]);
    assert_eq!(
        value.to_mgp_value(&mut memgraph).err().unwrap(),
        MgpError::UnableToAllocateVertexValue
    );
    assert_eq!(
        entries(&memgraph),
        vec![
            Entry::Copy { kind: Kind::Vertex, object: handle(7) },
            Entry::ValueMakeFrom { tag: ValueTag::Vertex, object: handle(60) },
            Entry::Destroy { kind: Kind::Vertex, object: handle(60) },
        ]
    );
}

#[test]
fn scalar_cases_hold_no_object() {
    for tag in [
        ValueTag::Null,
        ValueTag::Bool,
        ValueTag::Int,
        ValueTag::Double,
        ValueTag::String,
    ] {
        assert_eq!(tag.object_kind(), None);
    }
}
