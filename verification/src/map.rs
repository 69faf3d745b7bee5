//! Maps of the host, from strings to values: borrowed views, owned maps, and
//! lazy iteration over the items.

use vstd::prelude::*;
use crate::cursor::{next_pair_run, open_run, Cursor};
use crate::memgraph::{lemma_continues_chain, Memgraph};
use crate::mgp::{Entry, Exchange, Handle, Host, Kind, Token};
use crate::result::MgpError;
use crate::text::{c_string, is_c_string};
use crate::value::{decode_run, give_run, value_result, Target, Value, ValueView};

verus! {

/// A borrowed view of a map that the host owns. It is valid for the time of
/// the invocation and is never released by this library.
#[derive(Clone, Copy, Debug, PartialEq, Eq, Structural)]
pub struct MapRef {
    pub handle: Handle,
}

/// A map that this layer owns: the host allocated it on request, and it is
/// handed back by [`MgpMap::release`], once.
#[derive(Debug, PartialEq, Eq)]
pub struct MgpMap {
    handle: Handle,
}

/// One item of a map. The value is valid until the next pull on the iterator
/// that yielded it.
#[derive(Clone, Debug, PartialEq, Eq)]
pub struct MapItem {
    pub key: Vec<u8>,
    pub value: Value,
}

/// A single pass over the items of a map, in no particular order. It owns an
/// iterator of the host, which [`MapIter::release`] hands back.
#[derive(Debug, PartialEq, Eq)]
pub struct MapIter {
    cursor: Cursor,
}

/// The exchanges `d` are those of looking up `key` in `map`, and `r` is what
/// they come to. A key that the host cannot hold is refused without a call.
pub open spec fn value_for_run(
    map: Handle,
    key: Seq<u8>,
    d: Seq<Exchange>,
    r: Result<ValueView, MgpError>,
) -> bool {
    if is_c_string(key) {
        &&& d.len() >= 1
        &&& d[0].asks(Entry::MapAt { map }, key)
        &&& match d[0].reply.spec_handle_or(MgpError::UnableToAccessMapValue) {
            Err(e) => d.len() == 1 && r == Err::<ValueView, MgpError>(e),
            Ok(value) => decode_run(value, d.skip(1), r),
        }
    } else {
        d.len() == 0 && r == Err::<ValueView, MgpError>(MgpError::UnableToCreateCString)
    }
}

/// A result that carries a map iterator, with the iterator taken by its state.
pub open spec fn map_iter_result(r: Result<MapIter, MgpError>) -> Result<
    (Handle, Handle),
    MgpError,
> {
    match r {
        Ok(iter) => Ok((iter.spec_cursor().spec_iterator(), iter.spec_cursor().spec_current())),
        Err(e) => Err(e),
    }
}

/// The outcome of a pull on a map iterator, with the item taken by its views.
pub open spec fn pulled_item(r: Option<Result<MapItem, MgpError>>) -> Option<
    Result<(Seq<u8>, ValueView), MgpError>,
> {
    match r {
        Some(Ok(item)) => Some(Ok((item.key@, item.value@))),
        Some(Err(e)) => Some(Err(e)),
        None => None,
    }
}

impl MapRef {
    /// A view of the map behind `handle`.
    pub fn new(handle: Handle) -> (map: MapRef)
        ensures
            map.handle == handle,
    {
        MapRef { handle }
    }

    /// The number of items in the map.
    pub fn size<H: Host>(&self, mg: &mut Memgraph<H>) -> (r: Result<u64, MgpError>)
        ensures
            final(mg).one_call(*old(mg), Entry::MapSize { map: self.handle }, Seq::empty()),
            r == final(mg).answer().reply.spec_size_or(MgpError::UnableToGetMapSize),
            final(mg).balanced(*old(mg), None),
    {
        mg.call(Entry::MapSize { map: self.handle }).size_or(MgpError::UnableToGetMapSize)
    }

    /// The value stored under `key`. The host decides whether there is one.
    pub fn value_for<H: Host>(&self, key: &[u8], mg: &mut Memgraph<H>) -> (r: Result<Value, MgpError>)
        ensures
            final(mg).continues(*old(mg)),
            value_for_run(self.handle, key@, final(mg).since(*old(mg)), value_result(r)),
            final(mg).balanced(*old(mg), None),
    {
        let ghost s0 = *mg;
        let key = match c_string(key) {
            Ok(key) => key,
            Err(e) => {
                assert(mg.since(s0) =~= Seq::<Exchange>::empty());
                return Err(e);
            },
        };
        let reply = mg.invoke(Entry::MapAt { map: self.handle }, key.as_slice());
        let ghost s1 = *mg;
        match reply.handle_or(MgpError::UnableToAccessMapValue) {
            Err(e) => Err(e),
            Ok(value) => {
                let r = Value::decode(value, mg);
                proof {
                    lemma_continues_chain(s0, s1, *mg);
                    assert(mg.since(s0).skip(1) =~= mg.since(s1));
                }
                r
            },
        }
    }

    /// Starts a pass over the items of the map. The first item is fetched
    /// here, so an empty map is known to be empty before the first pull.
    pub fn iter<H: Host>(&self, mg: &mut Memgraph<H>) -> (r: Result<MapIter, MgpError>)
        ensures
            final(mg).continues(*old(mg)),
            open_run(
                Entry::MapIterItems { map: self.handle },
                Kind::MapItemsIterator,
                MgpError::UnableToCreateMapIterator,
                final(mg).since(*old(mg)),
                map_iter_result(r),
            ),
            match r {
                Ok(iter) => {
                    &&& iter.spec_cursor().spec_kind() == Kind::MapItemsIterator
                    &&& iter.spec_cursor().spec_fresh()
                    &&& final(mg).balanced(*old(mg), Some(iter.spec_cursor().token()))
                },
                Err(_) => final(mg).balanced(*old(mg), None),
            },
    {
        match Cursor::open(
            Entry::MapIterItems { map: self.handle },
            Kind::MapItemsIterator,
            MgpError::UnableToCreateMapIterator,
            mg,
        ) {
            Ok(cursor) => Ok(MapIter { cursor }),
            Err(e) => Err(e),
        }
    }

    /// Has the host make a copy of the map, which the caller owns.
    pub fn copy<H: Host>(&self, mg: &mut Memgraph<H>) -> (r: Result<MgpMap, MgpError>)
        ensures
            final(mg).one_call(
                *old(mg),
                Entry::Copy { kind: Kind::Mapping, object: self.handle },
                Seq::empty(),
            ),
            match final(mg).answer().reply.spec_handle_or(MgpError::UnableToCopyMap) {
                Ok(handle) => r matches Ok(map) && map.spec_as_ref().handle == handle && final(mg).balanced(*old(mg), Some(map.token())),
                Err(e) => r == Err::<MgpMap, MgpError>(e) && final(mg).balanced(*old(mg), None),
            },
    {
        match mg.copy_object(Kind::Mapping, self.handle, MgpError::UnableToCopyMap) {
            Ok(handle) => Ok(MgpMap { handle }),
            Err(e) => Err(e),
        }
    }
}

impl MapIter {
    /// The cursor that walks the host's iterator.
    pub closed spec fn spec_cursor(&self) -> Cursor {
        self.cursor
    }

    /// Whether the end of the map has been reached.
    pub fn finished(&self) -> (b: bool)
        ensures
            b == self.spec_cursor().spec_finished(),
    {
        self.cursor.finished()
    }

    /// Pulls the next item. At the end this returns `None` without a call to
    /// the host. An item that cannot be read ends the pass: the failure is
    /// returned once, and every later pull returns `None`.
    pub fn next<H: Host>(&mut self, mg: &mut Memgraph<H>) -> (r: Option<Result<MapItem, MgpError>>)
        ensures
            final(mg).continues(*old(mg)),
            final(mg).balanced(*old(mg), None),
            next_pair_run(
                old(self).spec_cursor(),
                MgpError::UnableToAccessMapValue,
                final(mg).since(*old(mg)),
                pulled_item(r),
            ),
            final(self).spec_cursor().token() == old(self).spec_cursor().token(),
            !final(self).spec_cursor().spec_fresh(),
            !(r matches Some(Ok(_))) ==> final(self).spec_cursor().spec_finished(),
            old(self).spec_cursor().spec_finished() ==> r is None && final(mg).silent(*old(mg)),
    {
        match self.cursor.next_pair(MgpError::UnableToAccessMapValue, mg) {
            None => None,
            Some(Err(e)) => Some(Err(e)),
            Some(Ok((key, value))) => Some(Ok(MapItem { key, value })),
        }
    }

    /// Hands the iterator back to the host. The pass is consumed, so it
    /// cannot be released a second time.
    pub fn release<H: Host>(self, mg: &mut Memgraph<H>)
        ensures
            final(mg).one_call(
                *old(mg),
                Entry::Destroy {
                    kind: self.spec_cursor().spec_kind(),
                    object: self.spec_cursor().spec_iterator(),
                },
                Seq::empty(),
            ),
            final(mg).gave_up(*old(mg), self.spec_cursor().token()),
    {
        self.cursor.release(mg);
    }
}

impl MgpMap {
    /// The object that this map stands for in the account of owned objects.
    pub open spec fn token(&self) -> Token {
        Token { kind: Kind::Mapping, handle: self.spec_as_ref().handle }
    }

    pub closed spec fn spec_as_ref(&self) -> MapRef {
        MapRef { handle: self.handle }
    }

    /// A borrowed view of this map, through which it is read.
    #[verifier::when_used_as_spec(spec_as_ref)]
    pub fn as_ref(&self) -> (map: MapRef)
        ensures
            map == self.spec_as_ref(),
            self.token() == (Token { kind: Kind::Mapping, handle: map.handle }),
    {
        MapRef { handle: self.handle }
    }

    /// Asks the host for a new, empty map.
    pub fn make_empty<H: Host>(mg: &mut Memgraph<H>) -> (r: Result<MgpMap, MgpError>)
        ensures
            final(mg).one_call(*old(mg), Entry::MapMakeEmpty, Seq::empty()),
            match final(mg).answer().reply.spec_handle_or(MgpError::UnableToCreateEmptyMap) {
                Ok(handle) => r matches Ok(map) && map.spec_as_ref().handle == handle && final(mg).balanced(*old(mg), Some(map.token())),
                Err(e) => r == Err::<MgpMap, MgpError>(e) && final(mg).balanced(*old(mg), None),
            },
    {
        match mg.call(Entry::MapMakeEmpty).handle_or(MgpError::UnableToCreateEmptyMap) {
            Ok(handle) => Ok(MgpMap { handle }),
            Err(e) => Err(e),
        }
    }

    /// Stores `value` under `key`. The map gets a copy: what `value` borrows
    /// is left as it was. The host decides what becomes of a key that is
    /// already there.
    pub fn insert<H: Host>(&self, key: &[u8], value: &Value, mg: &mut Memgraph<H>) -> (r: Result<
        (),
        MgpError,
    >)
        ensures
            final(mg).continues(*old(mg)),
            give_run(
                Target::MapInsert { map: self.spec_as_ref().handle },
                key@,
                value@,
                final(mg).since(*old(mg)),
                r,
            ),
            final(mg).balanced(*old(mg), None),
    {
        value.give(Target::MapInsert { map: self.handle }, key, mg)
    }

    /// Hands the map back to the host. The map is consumed, so it cannot be
    /// released a second time.
    pub fn release<H: Host>(self, mg: &mut Memgraph<H>)
        ensures
            final(mg).one_call(
                *old(mg),
                Entry::Destroy { kind: Kind::Mapping, object: self.spec_as_ref().handle },
                Seq::empty(),
            ),
            final(mg).gave_up(*old(mg), self.token()),
    {
        mg.destroy(Kind::Mapping, self.handle);
    }
}

} // verus!
