use rsmgp_sys::edge::EdgeRef;
use rsmgp_sys::memgraph::{Context, Memgraph};
use rsmgp_sys::mgp::{Entry, Handle, Kind, Payload, Reply, ValueTag};
use rsmgp_sys::property::Property;
use rsmgp_sys::result::MgpError;
use rsmgp_sys::scripted::Scripted;
use rsmgp_sys::status::Status;
use rsmgp_sys::value::Value;
use rsmgp_sys::vertex::VertexRef;

fn memgraph_with(replies: Vec<Reply>) -> Memgraph<Scripted> {
    Memgraph::new(Scripted::new(replies), Context::default())
}

fn handle(addr: u64) -> Handle {
    Handle { addr }
}

fn gives(addr: u64) -> Reply {
    Reply::success(Payload::Handle(handle(addr)))
}

fn tagged(tag: ValueTag) -> Reply {
    Reply::success(Payload::Tag(tag))
}

fn entries(memgraph: &Memgraph<Scripted>) -> Vec<Entry> {
    memgraph.host().requests().iter().map(|request| request.entry).collect()
}

fn releases(memgraph: &Memgraph<Scripted>, kind: Kind, object: Handle) -> usize {
    entries(memgraph)
        .iter()
        .filter(|entry| **entry == Entry::Destroy { kind, object })
        .count()
}

const EDGES: Kind = Kind::EdgesIterator;

#[test]
fn a_vertex_answers_for_its_identifier_and_its_labels() {
    let vertex = VertexRef::new(handle(5));
    let mut memgraph = memgraph_with(vec![
        Reply::success(Payload::Int(42)),
        Reply::success(Payload::Size(2)),
        Reply::success_text(b"Person".to_vec()),
        Reply::success(Payload::Bool(true)),
    ]);
    assert_eq!(vertex.id(&mut memgraph), Ok(42));
    assert_eq!(vertex.labels_count(&mut memgraph), Ok(2));
    assert_eq!(vertex.label_at(1, &mut memgraph), Ok(b"Person".to_vec()));
    assert_eq!(vertex.has_label(b"Person", &mut memgraph), Ok(true));
    assert_eq!(
        entries(&memgraph),
        vec![
            Entry::VertexGetId { vertex: handle(5) },
            Entry::VertexLabelsCount { vertex: handle(5) },
            Entry::VertexLabelAt { vertex: handle(5), index: 1 },
            Entry::VertexHasLabel { vertex: handle(5) },
        ]
    );
    assert_eq!(memgraph.host().requests()[3].text, b"Person".to_vec());
}

#[test]
fn each_question_to_a_vertex_fails_with_its_own_error() {
    let vertex = VertexRef::new(handle(5));
    let failing = || memgraph_with(vec![Reply::failure(Status::OutOfRange)]);
    assert_eq!(vertex.id(&mut failing()), Err(MgpError::UnableToGetVertexId));
    assert_eq!(
        vertex.labels_count(&mut failing()),
        Err(MgpError::UnableToReturnVertexLabelsCount)
    );
    assert_eq!(
        vertex.label_at(9, &mut failing()),
        Err(MgpError::OutOfBoundLabelIndexError)
    );
    assert_eq!(
        vertex.has_label(b"x", &mut failing()),
        Err(MgpError::UnableToCheckVertexHasLabel)
    );
    assert_eq!(
        vertex.copy(&mut failing()).err().unwrap(),
        MgpError::UnableToCopyVertex
    );
    assert_eq!(
        vertex.properties(&mut failing()).err().unwrap(),
        MgpError::UnableToReturnVertexPropertiesIterator
    );
    assert_eq!(
        vertex.in_edges(&mut failing()).err().unwrap(),
        MgpError::UnableToReturnVertexInEdgesIterator
    );
    assert_eq!(
        vertex.out_edges(&mut failing()).err().unwrap(),
        MgpError::UnableToReturnVertexOutEdgesIterator
    );
    let mut memgraph = memgraph_with(vec![]);
    assert_eq!(
        vertex.has_label(&[0], &mut memgraph),
        Err(MgpError::UnableToCreateCString)
    );
    assert_eq!(memgraph.host().calls(), 0);
}

#[test]
fn an_edge_answers_for_its_identifier_its_type_and_its_ends() {
    let edge = EdgeRef::new(handle(6));
    let mut memgraph = memgraph_with(vec![
        Reply::success(Payload::Int(7)),
        Reply::success_text(b"KNOWS".to_vec()),
        gives(11),
        gives(12),
    ]);
    assert_eq!(edge.id(&mut memgraph), Ok(7));
    assert_eq!(edge.edge_type(&mut memgraph), Ok(b"KNOWS".to_vec()));
    assert_eq!(edge.from_vertex(&mut memgraph), Ok(VertexRef::new(handle(11))));
    assert_eq!(edge.to_vertex(&mut memgraph), Ok(VertexRef::new(handle(12))));
    assert_eq!(
        entries(&memgraph),
        vec![
            Entry::EdgeGetId { edge: handle(6) },
            Entry::EdgeGetType { edge: handle(6) },
            Entry::EdgeGetFrom { edge: handle(6) },
            Entry::EdgeGetTo { edge: handle(6) },
        ]
    );
}

#[test]
fn each_question_to_an_edge_fails_with_its_own_error() {
    let edge = EdgeRef::new(handle(6));
    let failing = || memgraph_with(vec![Reply::failure(Status::DeletedObject)]);
    assert_eq!(edge.id(&mut failing()), Err(MgpError::UnableToGetEdgeId));
    assert_eq!(edge.edge_type(&mut failing()), Err(MgpError::UnableToReturnEdgeType));
    assert_eq!(
        edge.from_vertex(&mut failing()),
        Err(MgpError::UnableToReturnEdgeEndpoint)
    );
    assert_eq!(
        edge.to_vertex(&mut failing()),
        Err(MgpError::UnableToReturnEdgeEndpoint)
    );
    assert_eq!(edge.copy(&mut failing()).err().unwrap(), MgpError::UnableToCopyEdge);
    assert_eq!(
        edge.properties(&mut failing()).err().unwrap(),
        MgpError::UnableToReturnEdgePropertiesIterator
    );
}

#[test]
fn a_property_is_read_in_three_steps() {
    let mut memgraph = memgraph_with(vec![
        gives(200),
        tagged(ValueTag::Int),
        Reply::success(Payload::Int(33)),
    ]);
    let property = VertexRef::new(handle(5)).property(b"age", &mut memgraph).unwrap();
    assert_eq!(property.name(), &b"age".to_vec());
    assert_eq!(property.value(), &Value::Int(33));
    assert_eq!(
        entries(&memgraph),
        vec![
            Entry::VertexGetProperty { vertex: handle(5) },
            Entry::ValueGetType { value: handle(200) },
            Entry::ValueGet { tag: ValueTag::Int, value: handle(200) },
        ]
    );
    assert_eq!(memgraph.host().requests()[0].text, b"age".to_vec());
    // The value that the host handed out is kept until the property is
    // released, and then released once.
    assert_eq!(releases(&memgraph, Kind::Value, handle(200)), 0);
    property.release(&mut memgraph);
    assert_eq!(releases(&memgraph, Kind::Value, handle(200)), 1);
    assert_eq!(memgraph.host().calls(), 4);
}

#[test]
fn each_step_of_reading_a_vertex_property_has_its_own_error() {
    let vertex = VertexRef::new(handle(5));

    let mut memgraph = memgraph_with(vec![gives(200)]);
    assert_eq!(
        vertex.property(&[b'a', 0], &mut memgraph).err().unwrap(),
        MgpError::UnableToReturnVertexPropertyNameAllocationError
    );
    assert_eq!(memgraph.host().calls(), 0);

    let mut memgraph = memgraph_with(vec![Reply::failure(Status::UnableToAllocate)]);
    assert_eq!(
        vertex.property(b"age", &mut memgraph).err().unwrap(),
        MgpError::UnableToReturnVertexPropertyValueAllocationError
    );
    assert_eq!(memgraph.host().calls(), 1);

    let mut memgraph = memgraph_with(vec![gives(200), Reply::failure(Status::UnknownError)]);
    assert_eq!(
        vertex.property(b"age", &mut memgraph).err().unwrap(),
        MgpError::UnableToReturnVertexPropertyValueCreationError
    );
    assert_eq!(releases(&memgraph, Kind::Value, handle(200)), 1);
    assert_eq!(memgraph.host().calls(), 3);

    let mut memgraph = memgraph_with(vec![
        gives(200),
        tagged(ValueTag::Bool),
        Reply::failure(Status::UnknownError),
    ]);
    assert_eq!(
        vertex.property(b"age", &mut memgraph).err().unwrap(),
        MgpError::UnableToReturnVertexPropertyValueCreationError
    );
    assert_eq!(releases(&memgraph, Kind::Value, handle(200)), 1);
    assert_eq!(memgraph.host().calls(), 4);
}

#[test]
fn each_step_of_reading_an_edge_property_has_its_own_error() {
    let edge = EdgeRef::new(handle(6));

    let mut memgraph = memgraph_with(vec![]);
    assert_eq!(
        edge.property(&[0], &mut memgraph).err().unwrap(),
        MgpError::UnableToReturnEdgePropertyNameAllocationError
    );
    assert_eq!(memgraph.host().calls(), 0);

    let mut memgraph = memgraph_with(vec![Reply::failure(Status::UnableToAllocate)]);
    assert_eq!(
        edge.property(b"since", &mut memgraph).err().unwrap(),
        MgpError::UnableToReturnEdgePropertyValueAllocationError
    );

    let mut memgraph = memgraph_with(vec![gives(200), Reply::failure(Status::UnknownError)]);
    assert_eq!(
        edge.property(b"since", &mut memgraph).err().unwrap(),
        MgpError::UnableToReturnEdgePropertyValueCreationError
    );
    assert_eq!(
        entries(&memgraph),
        vec![
            Entry::EdgeGetProperty { edge: handle(6) },
            Entry::ValueGetType { value: handle(200) },
            Entry::Destroy { kind: Kind::Value, object: handle(200) },
        ]
    );

    let mut memgraph = memgraph_with(vec![gives(200), tagged(ValueTag::Null)]);
    let property = edge.property(b"since", &mut memgraph).unwrap();
    assert_eq!(property.value(), &Value::Null);
    property.release(&mut memgraph);
    assert_eq!(releases(&memgraph, Kind::Value, handle(200)), 1);
}

#[test]
fn an_empty_edge_set_ends_on_the_first_pull_without_a_call() {
    for outgoing in [false, true] {
        let mut memgraph = memgraph_with(vec![gives(80), gives(0)]);
        let vertex = VertexRef::new(handle(5));
        let mut iter = if outgoing {
            vertex.out_edges(&mut memgraph).unwrap()
        } else {
            vertex.in_edges(&mut memgraph).unwrap()
        };
        assert!(iter.finished());
        let calls = memgraph.host().calls();
        assert_eq!(calls, 2);
        assert!(iter.next(&mut memgraph).is_none());
        assert!(iter.next(&mut memgraph).is_none());
        assert_eq!(memgraph.host().calls(), calls);
        iter.release(&mut memgraph);
        let first = if outgoing {
            Entry::VertexIterOutEdges { vertex: handle(5) }
        } else {
            Entry::VertexIterInEdges { vertex: handle(5) }
        };
        assert_eq!(
            entries(&memgraph),
            vec![
                first,
                Entry::IteratorGet { kind: EDGES, iterator: handle(80) },
                Entry::Destroy { kind: EDGES, object: handle(80) },
            ]
        );
    }
}

#[test]
fn the_edges_are_pulled_as_owned_copies() {
    let mut memgraph = memgraph_with(vec![
        gives(80),
        gives(400),
        gives(500),
        gives(401),
        gives(501),
        gives(0),
    ]);
    let mut iter = VertexRef::new(handle(5)).out_edges(&mut memgraph).unwrap();
    let first = iter.next(&mut memgraph).unwrap().unwrap();
    let second = iter.next(&mut memgraph).unwrap().unwrap();
    assert!(iter.next(&mut memgraph).is_none());
    assert_eq!(first.as_ref(), EdgeRef::new(handle(500)));
    assert_eq!(second.as_ref(), EdgeRef::new(handle(501)));
    assert_eq!(
        entries(&memgraph),
        vec![
            Entry::VertexIterOutEdges { vertex: handle(5) },
            Entry::IteratorGet { kind: EDGES, iterator: handle(80) },
            Entry::Copy { kind: Kind::Edge, object: handle(400) },
            Entry::IteratorNext { kind: EDGES, iterator: handle(80) },
            Entry::Copy { kind: Kind::Edge, object: handle(401) },
            Entry::IteratorNext { kind: EDGES, iterator: handle(80) },
        ]
    );
    first.release(&mut memgraph);
    second.release(&mut memgraph);
    iter.release(&mut memgraph);
    assert_eq!(releases(&memgraph, Kind::Edge, handle(500)), 1);
    assert_eq!(releases(&memgraph, Kind::Edge, handle(501)), 1);
    assert_eq!(releases(&memgraph, EDGES, handle(80)), 1);
    assert_eq!(memgraph.host().calls(), 9);
}

#[test]
fn an_edge_that_cannot_be_copied_ends_the_pass() {
    let mut memgraph = memgraph_with(vec![
        gives(80),
        gives(400),
        Reply::failure(Status::UnableToAllocate),
    ]);
    let mut iter = VertexRef::new(handle(5)).in_edges(&mut memgraph).unwrap();
    assert_eq!(
        iter.next(&mut memgraph).unwrap().err().unwrap(),
        MgpError::UnableToCopyEdge
    );
    let calls = memgraph.host().calls();
    assert!(iter.next(&mut memgraph).is_none());
    assert_eq!(memgraph.host().calls(), calls);
}

#[test]
fn the_properties_are_pulled_one_by_one() {
    let properties = Kind::PropertiesIterator;
    let mut memgraph = memgraph_with(vec![
        gives(90),
        gives(300),
        Reply::success_text(b"name".to_vec()),
        gives(100),
        tagged(ValueTag::String),
        Reply::success_text(b"Ann".to_vec()),
        gives(0),
    ]);
    let mut iter = EdgeRef::new(handle(6)).properties(&mut memgraph).unwrap();
    assert!(!iter.finished());
    assert_eq!(
        iter.next(&mut memgraph),
        Some(Ok(Property { name: b"name".to_vec(), value: Value::String(b"Ann".to_vec()) }))
    );
    assert_eq!(iter.next(&mut memgraph), None);
    assert!(iter.finished());
    iter.release(&mut memgraph);
    assert_eq!(
        entries(&memgraph),
        vec![
            Entry::EdgeIterProperties { edge: handle(6) },
            Entry::IteratorGet { kind: properties, iterator: handle(90) },
            Entry::PairName { kind: properties, pair: handle(300) },
            Entry::PairValue { kind: properties, pair: handle(300) },
            Entry::ValueGetType { value: handle(100) },
            Entry::ValueGet { tag: ValueTag::String, value: handle(100) },
            Entry::IteratorNext { kind: properties, iterator: handle(90) },
            Entry::Destroy { kind: properties, object: handle(90) },
        ]
    );
}

#[test]
fn a_vertex_without_properties_ends_on_the_first_pull_without_a_call() {
    let mut memgraph = memgraph_with(vec![gives(90), gives(0)]);
    let mut iter = VertexRef::new(handle(5)).properties(&mut memgraph).unwrap();
    let calls = memgraph.host().calls();
    assert_eq!(iter.next(&mut memgraph), None);
    assert_eq!(memgraph.host().calls(), calls);
    assert_eq!(
        entries(&memgraph)[0],
        Entry::VertexIterProperties { vertex: handle(5) }
    );
}

#[test]
fn the_graph_hands_out_its_vertices() {
    let context = Context {
        args: handle(1),
        graph: handle(2),
        result: handle(3),
        module: handle(4),
    };
    let vertices = Kind::VerticesIterator;
    let mut memgraph = Memgraph::new(
        Scripted::new(vec![gives(95), gives(600), gives(700), gives(0), gives(701)]),
        context,
    );
    assert_eq!(memgraph.context(), context);
    let mut iter = memgraph.vertices_iter().unwrap();
    let vertex = iter.next(&mut memgraph).unwrap().unwrap();
    assert_eq!(vertex.as_ref(), VertexRef::new(handle(700)));
    assert!(iter.next(&mut memgraph).is_none());
    assert!(iter.finished());
    let found = memgraph.vertex_by_id(17).unwrap();
    assert_eq!(found.as_ref(), VertexRef::new(handle(701)));
    vertex.release(&mut memgraph);
    found.release(&mut memgraph);
    iter.release(&mut memgraph);
    assert_eq!(
        entries(&memgraph),
        vec![
            Entry::GraphIterVertices { graph: handle(2) },
            Entry::IteratorGet { kind: vertices, iterator: handle(95) },
            Entry::Copy { kind: Kind::Vertex, object: handle(600) },
            Entry::IteratorNext { kind: vertices, iterator: handle(95) },
            Entry::GraphGetVertexById { graph: handle(2), id: 17 },
            Entry::Destroy { kind: Kind::Vertex, object: handle(700) },
            Entry::Destroy { kind: Kind::Vertex, object: handle(701) },
            Entry::Destroy { kind: vertices, object: handle(95) },
        ]
    );
}

#[test]
fn the_graph_fails_each_request_with_its_own_error() {
    let mut memgraph = memgraph_with(vec![
        Reply::failure(Status::UnableToAllocate),
        Reply::failure(Status::OutOfRange),
    ]);
    assert_eq!(
        memgraph.vertices_iter().err().unwrap(),
        MgpError::UnableToCreateGraphVerticesIterator
    );
    assert_eq!(
        memgraph.vertex_by_id(1).err().unwrap(),
        MgpError::UnableToFindVertexById
    );
}

#[test]
fn copies_of_vertices_and_edges_are_owned_and_released_once() {
    let mut memgraph = memgraph_with(vec![gives(700), gives(500)]);
    let vertex = VertexRef::new(handle(5)).copy(&mut memgraph).unwrap();
    let edge = EdgeRef::new(handle(6)).copy(&mut memgraph).unwrap();
    vertex.release(&mut memgraph);
    edge.release(&mut memgraph);
    assert_eq!(
        entries(&memgraph),
        vec![
            Entry::Copy { kind: Kind::Vertex, object: handle(5) },
            Entry::Copy { kind: Kind::Edge, object: handle(6) },
            Entry::Destroy { kind: Kind::Vertex, object: handle(700) },
            Entry::Destroy { kind: Kind::Edge, object: handle(500) },
        ]
    );
}
