use rsmgp_sys::map::{MapItem, MapRef, MgpMap};
use rsmgp_sys::memgraph::{Context, Memgraph};
use rsmgp_sys::mgp::{Entry, Handle, Kind, Payload, Reply, ValueTag};
use rsmgp_sys::result::MgpError;
use rsmgp_sys::scripted::Scripted;
use rsmgp_sys::status::Status;
use rsmgp_sys::value::Value;

fn memgraph_with(replies: Vec<Reply>) -> Memgraph<Scripted> {
    Memgraph::new(Scripted::new(replies), Context::default())
}

fn handle(addr: u64) -> Handle {
    Handle { addr }
}

fn gives(addr: u64) -> Reply {
    Reply::success(Payload::Handle(handle(addr)))
}

fn tagged(tag: ValueTag) -> Reply {
    Reply::success(Payload::Tag(tag))
}

fn entries(memgraph: &Memgraph<Scripted>) -> Vec<Entry> {
    memgraph.host().requests().iter().map(|request| request.entry).collect()
}

const ITEMS: Kind = Kind::MapItemsIterator;

#[test]
fn size_is_one_call() {
    let mut memgraph = memgraph_with(vec![Reply::success(Payload::Size(3))]);
    assert_eq!(MapRef::new(handle(8)).size(&mut memgraph), Ok(3));
    assert_eq!(entries(&memgraph), vec![Entry::MapSize { map: handle(8) }]);

    let mut memgraph = memgraph_with(vec![Reply::failure(Status::UnknownError)]);
    assert_eq!(
        MapRef::new(handle(8)).size(&mut memgraph),
        Err(MgpError::UnableToGetMapSize)
    );
}

#[test]
fn value_for_looks_the_key_up_and_reads_the_value() {
    let mut memgraph = memgraph_with(vec![
        gives(100),
        tagged(ValueTag::Int),
        Reply::success(Payload::Int(4)),
    ]);
    assert_eq!(
        MapRef::new(handle(8)).value_for(b"weight", &mut memgraph),
        Ok(Value::Int(4))
    );
    assert_eq!(memgraph.host().requests()[0].entry, Entry::MapAt { map: handle(8) });
    assert_eq!(memgraph.host().requests()[0].text, b"weight".to_vec());
    assert_eq!(memgraph.host().calls(), 3);
}

#[test]
fn value_for_tells_a_failed_lookup_from_a_failed_reading() {
    let mut memgraph = memgraph_with(vec![Reply::failure(Status::OutOfRange)]);
    assert_eq!(
        MapRef::new(handle(8)).value_for(b"weight", &mut memgraph),
        Err(MgpError::UnableToAccessMapValue)
    );
    assert_eq!(memgraph.host().calls(), 1);

    let mut memgraph = memgraph_with(vec![gives(100), Reply::failure(Status::UnknownError)]);
    assert_eq!(
        MapRef::new(handle(8)).value_for(b"weight", &mut memgraph),
        Err(MgpError::UnableToGetValueType)
    );
}

#[test]
fn a_key_with_a_zero_byte_is_refused_before_the_host_is_asked() {
    let mut memgraph = memgraph_with(vec![gives(100)]);
    assert_eq!(
        MapRef::new(handle(8)).value_for(&[b'a', 0], &mut memgraph),
        Err(MgpError::UnableToCreateCString)
    );
    assert_eq!(memgraph.host().calls(), 0);

    let mut memgraph = memgraph_with(vec![gives(50), gives(200)]);
    let map = MgpMap::make_empty(&mut memgraph).unwrap();
    assert_eq!(
        map.insert(&[0], &Value::Null, &mut memgraph),
        Err(MgpError::UnableToCreateCString)
    );
    assert_eq!(memgraph.host().calls(), 1);
}

#[test]
fn make_empty_fails_with_its_own_error() {
    let mut memgraph = memgraph_with(vec![Reply::failure(Status::UnableToAllocate)]);
    assert_eq!(
        MgpMap::make_empty(&mut memgraph).err().unwrap(),
        MgpError::UnableToCreateEmptyMap
    );
    assert_eq!(entries(&memgraph), vec![Entry::MapMakeEmpty]);
}

#[test]
fn insert_makes_a_value_hands_it_over_and_releases_it() {
    let mut memgraph = memgraph_with(vec![
        gives(50),
        gives(200),
        Reply::success(Payload::Nothing),
    ]);
    let map = MgpMap::make_empty(&mut memgraph).unwrap();
    assert_eq!(map.as_ref(), MapRef::new(handle(50)));
    assert_eq!(map.insert(b"key", &Value::Bool(true), &mut memgraph), Ok(()));
    assert_eq!(
        entries(&memgraph),
        vec![
            Entry::MapMakeEmpty,
            Entry::ValueMakeBool { value: true },
            Entry::MapInsert { map: handle(50), value: handle(200) },
            Entry::Destroy { kind: Kind::Value, object: handle(200) },
        ]
    );
    assert_eq!(memgraph.host().requests()[2].text, b"key".to_vec());
    map.release(&mut memgraph);
    assert_eq!(
        entries(&memgraph)[4],
        Entry::Destroy { kind: Kind::Mapping, object: handle(50) }
    );
}

#[test]
fn insert_releases_the_value_when_the_host_refuses_the_key() {
    let mut memgraph = memgraph_with(vec![
        gives(50),
        gives(200),
        Reply::failure(Status::KeyAlreadyExists),
    ]);
    let map = MgpMap::make_empty(&mut memgraph).unwrap();
    assert_eq!(
        map.insert(b"key", &Value::Int(1), &mut memgraph),
        Err(MgpError::UnableToInsertMapValue)
    );
    assert_eq!(
        entries(&memgraph)[3],
        Entry::Destroy { kind: Kind::Value, object: handle(200) }
    );
    assert_eq!(memgraph.host().calls(), 4);
}

#[test]
fn an_empty_map_ends_on_the_first_pull_without_a_call() {
    let mut memgraph = memgraph_with(vec![gives(70), gives(0)]);
    let mut iter = MapRef::new(handle(8)).iter(&mut memgraph).unwrap();
    assert!(iter.finished());
    let calls = memgraph.host().calls();
    assert_eq!(calls, 2);
    assert_eq!(iter.next(&mut memgraph), None);
    assert_eq!(iter.next(&mut memgraph), None);
    assert_eq!(memgraph.host().calls(), calls);
    iter.release(&mut memgraph);
    assert_eq!(
        entries(&memgraph),
        vec![
            Entry::MapIterItems { map: handle(8) },
            Entry::IteratorGet { kind: ITEMS, iterator: handle(70) },
            Entry::Destroy { kind: ITEMS, object: handle(70) },
        ]
    );
}

#[test]
fn the_items_are_pulled_one_by_one() {
    let mut memgraph = memgraph_with(vec![
        gives(70),
        gives(300),
        Reply::success_text(b"a".to_vec()),
        gives(100),
        tagged(ValueTag::Int),
        Reply::success(Payload::Int(1)),
        gives(301),
        Reply::success_text(b"b".to_vec()),
        gives(101),
        tagged(ValueTag::Null),
        gives(0),
    ]);
    let mut iter = MapRef::new(handle(8)).iter(&mut memgraph).unwrap();
    assert!(!iter.finished());
    assert_eq!(
        iter.next(&mut memgraph),
        Some(Ok(MapItem { key: b"a".to_vec(), value: Value::Int(1) }))
    );
    assert_eq!(
        iter.next(&mut memgraph),
        Some(Ok(MapItem { key: b"b".to_vec(), value: Value::Null }))
    );
    assert_eq!(iter.next(&mut memgraph), None);
    assert!(iter.finished());
    let calls = memgraph.host().calls();
    assert_eq!(iter.next(&mut memgraph), None);
    assert_eq!(memgraph.host().calls(), calls);
    assert_eq!(
        entries(&memgraph),
        vec![
            Entry::MapIterItems { map: handle(8) },
            Entry::IteratorGet { kind: ITEMS, iterator: handle(70) },
            Entry::PairName { kind: ITEMS, pair: handle(300) },
            Entry::PairValue { kind: ITEMS, pair: handle(300) },
            Entry::ValueGetType { value: handle(100) },
            Entry::ValueGet { tag: ValueTag::Int, value: handle(100) },
            Entry::IteratorNext { kind: ITEMS, iterator: handle(70) },
            Entry::PairName { kind: ITEMS, pair: handle(301) },
            Entry::PairValue { kind: ITEMS, pair: handle(301) },
            Entry::ValueGetType { value: handle(101) },
            Entry::IteratorNext { kind: ITEMS, iterator: handle(70) },
        ]
    );
}

#[test]
fn an_item_that_cannot_be_read_ends_the_pass() {
    let mut memgraph = memgraph_with(vec![
        gives(70),
        gives(300),
        Reply::failure(Status::UnknownError),
    ]);
    let mut iter = MapRef::new(handle(8)).iter(&mut memgraph).unwrap();
    assert_eq!(
        iter.next(&mut memgraph),
        Some(Err(MgpError::UnableToAccessMapValue))
    );
    let calls = memgraph.host().calls();
    assert_eq!(iter.next(&mut memgraph), None);
    assert_eq!(memgraph.host().calls(), calls);
}

#[test]
fn an_iterator_that_cannot_move_on_ends_the_pass() {
    let mut memgraph = memgraph_with(vec![
        gives(70),
        gives(300),
        Reply::success_text(b"a".to_vec()),
        gives(100),
        tagged(ValueTag::Null),
        Reply::failure(Status::UnknownError),
    ]);
    let mut iter = MapRef::new(handle(8)).iter(&mut memgraph).unwrap();
    assert!(iter.next(&mut memgraph).unwrap().is_ok());
    assert_eq!(
        iter.next(&mut memgraph),
        Some(Err(MgpError::UnableToAdvanceIterator))
    );
    assert_eq!(iter.next(&mut memgraph), None);
}

#[test]
fn an_iterator_that_cannot_be_made_asks_nothing_more() {
    let mut memgraph = memgraph_with(vec![Reply::failure(Status::UnableToAllocate)]);
    assert_eq!(
        MapRef::new(handle(8)).iter(&mut memgraph).err().unwrap(),
        MgpError::UnableToCreateMapIterator
    );
    assert_eq!(memgraph.host().calls(), 1);
}

#[test]
fn an_iterator_whose_first_item_cannot_be_fetched_is_released() {
    let mut memgraph = memgraph_with(vec![gives(70), Reply::failure(Status::UnknownError)]);
    assert_eq!(
        MapRef::new(handle(8)).iter(&mut memgraph).err().unwrap(),
        MgpError::UnableToCreateMapIterator
    );
    assert_eq!(
        entries(&memgraph),
        vec![
            Entry::MapIterItems { map: handle(8) },
            Entry::IteratorGet { kind: ITEMS, iterator: handle(70) },
            Entry::Destroy { kind: ITEMS, object: handle(70) },
        ]
    );
}

#[test]
fn the_host_copies_a_map_on_request() {
    let mut memgraph = memgraph_with(vec![gives(51)]);
    let copy = MapRef::new(handle(8)).copy(&mut memgraph).unwrap();
    assert_eq!(copy.as_ref(), MapRef::new(handle(51)));
    assert_eq!(
        entries(&memgraph),
        vec![Entry::Copy { kind: Kind::Mapping, object: handle(8) }]
    );
    let mut memgraph = memgraph_with(vec![Reply::failure(Status::UnableToAllocate)]);
    assert_eq!(
        MapRef::new(handle(8)).copy(&mut memgraph).err().unwrap(),
        MgpError::UnableToCopyMap
    );
}
