//! Properties of vertices and edges: reading one by name, and walking all.

use vstd::prelude::*;
use crate::cursor::{next_pair_run, Cursor};
use crate::memgraph::{lemma_continues_chain, Memgraph};
use crate::mgp::{Entry, Exchange, Handle, Host, Kind, Token};
use crate::result::MgpError;
use crate::text::{c_string, is_c_string};
use crate::value::{decode_run, MgpValue, Value, ValueView};

verus! {

/// A property: a name and a value. The value is valid until the next pull on
/// the iterator that yielded it.
#[derive(Clone, Debug, PartialEq, Eq)]
pub struct Property {
    pub name: Vec<u8>,
    pub value: Value,
}

/// A property that was read by name. The host allocated its value for this
/// layer, so it is handed back by [`OwnedProperty::release`], once; what the
/// value borrows is valid until then.
#[derive(Debug, PartialEq, Eq)]
pub struct OwnedProperty {
    property: Property,
    holder: MgpValue,
}

/// A single pass over the properties of a vertex or an edge. It owns an
/// iterator of the host, which [`PropertiesIter::release`] hands back.
#[derive(Debug, PartialEq, Eq)]
pub struct PropertiesIter {
    cursor: Cursor,
}

/// The errors of the three steps of reading a property by name.
#[derive(Clone, Copy, Debug, PartialEq, Eq, Structural)]
pub struct PropertyErrors {
    /// The name cannot be handed to the host.
    pub name: MgpError,
    /// The host did not hand out a value for the name.
    pub lookup: MgpError,
    /// The value that the host handed out cannot be read.
    pub creation: MgpError,
}

/// A property read by name as contracts see it: the name, the value, and the
/// handle of the host's value that is owned.
pub struct OwnedPropertyView {
    pub name: Seq<u8>,
    pub value: ValueView,
    pub holder: Handle,
}

/// A result that carries a property read by name, with the property taken
/// by its view.
pub open spec fn property_result(r: Result<OwnedProperty, MgpError>) -> Result<
    OwnedPropertyView,
    MgpError,
> {
    match r {
        Ok(property) => Ok(property@),
        Err(e) => Err(e),
    }
}

/// The exchanges `d` are those of reading the property `name` with the call
/// `entry`, and `r` is what they come to. There are three steps, each with
/// its own error: the name is checked, before anything is asked of the host;
/// the host is asked for the value; the value is read. A value that was
/// handed out and cannot be read is released.
pub open spec fn property_run(
    entry: Entry,
    name: Seq<u8>,
    errors: PropertyErrors,
    d: Seq<Exchange>,
    r: Result<OwnedPropertyView, MgpError>,
) -> bool {
    if is_c_string(name) {
        &&& d.len() >= 1
        &&& d[0].asks(entry, name)
        &&& match d[0].reply.spec_handle_or(errors.lookup) {
            Err(e) => d.len() == 1 && r == Err::<OwnedPropertyView, MgpError>(e),
            Ok(holder) => match r {
                Ok(read) => {
                    &&& read.name == name
                    &&& read.holder == holder
                    &&& decode_run(holder, d.skip(1), Ok::<ValueView, MgpError>(read.value))
                },
                Err(e) => {
                    &&& e == errors.creation
                    &&& d.len() >= 3
                    &&& d.last().asks(
                        Entry::Destroy { kind: Kind::Value, object: holder },
                        Seq::empty(),
                    )
                    &&& exists|cause: MgpError|
                        decode_run(
                            holder,
                            d.subrange(1, d.len() - 1),
                            Err::<ValueView, MgpError>(cause),
                        )
                },
            },
        }
    } else {
        d.len() == 0 && r == Err::<OwnedPropertyView, MgpError>(errors.name)
    }
}

/// The outcome of a pull on a properties iterator, with the property taken
/// by its views.
pub open spec fn pulled_property(r: Option<Result<Property, MgpError>>) -> Option<
    Result<(Seq<u8>, ValueView), MgpError>,
> {
    match r {
        Some(Ok(property)) => Some(Ok((property.name@, property.value@))),
        Some(Err(e)) => Some(Err(e)),
        None => None,
    }
}

impl View for OwnedProperty {
    type V = OwnedPropertyView;

    closed spec fn view(&self) -> OwnedPropertyView {
        OwnedPropertyView {
            name: self.property.name@,
            value: self.property.value@,
            holder: self.holder.spec_handle(),
        }
    }
}

impl OwnedProperty {
    /// The object that this property stands for in the account of owned
    /// objects: the value that the host handed out.
    pub open spec fn token(&self) -> Token {
        Token { kind: Kind::Value, handle: self@.holder }
    }

    /// The name under which the property was read.
    pub fn name(&self) -> (name: &Vec<u8>)
        ensures
            name@ == self@.name,
    {
        &self.property.name
    }

    /// The value of the property.
    pub fn value(&self) -> (value: &Value)
        ensures
            value@ == self@.value,
    {
        &self.property.value
    }

    /// Reads the property `name` with the call `entry`.
    pub(crate) fn read<H: Host>(
        entry: Entry,
        name: &[u8],
        errors: PropertyErrors,
        mg: &mut Memgraph<H>,
    ) -> (r: Result<OwnedProperty, MgpError>)
        requires
            entry.grants() == Some(Kind::Value),
            !(entry is ValueMakeFrom),
            !(entry is Destroy),
        ensures
            final(mg).continues(*old(mg)),
            property_run(entry, name@, errors, final(mg).since(*old(mg)), property_result(r)),
            match r {
                Ok(property) => final(mg).balanced(*old(mg), Some(property.token())),
                Err(_) => final(mg).balanced(*old(mg), None),
            },
    {
        let ghost s0 = *mg;
        let name = match c_string(name) {
            Ok(name) => name,
            Err(_) => {
                assert(mg.since(s0) =~= Seq::<Exchange>::empty());
                return Err(errors.name);
            },
        };
        let reply = mg.invoke(entry, name.as_slice());
        let ghost s1 = *mg;
        let holder = match reply.handle_or(errors.lookup) {
            Ok(holder) => holder,
            Err(e) => {
                return Err(e);
            },
        };
        let read = Value::decode(holder, mg);
        let ghost s2 = *mg;
        proof {
            lemma_continues_chain(s0, s1, s2);
            assert(s2.since(s0).skip(1) =~= s2.since(s1));
        }
        match read {
            Ok(value) => Ok(
                OwnedProperty { property: Property { name, value }, holder: MgpValue::adopt(holder) },
            ),
            Err(cause) => {
                mg.destroy(Kind::Value, holder);
                proof {
                    lemma_continues_chain(s0, s2, *mg);
                    let d = mg.since(s0);
                    assert(d =~= s2.since(s0) + seq![mg.answer()]);
                    assert(d.subrange(1, d.len() - 1) =~= s2.since(s1));
                    assert(decode_run(
                        holder,
                        d.subrange(1, d.len() - 1),
                        Err::<ValueView, MgpError>(cause),
                    ));
                }
                Err(errors.creation)
            },
        }
    }

    /// Hands the value of the property back to the host. The property is
    /// consumed, so it cannot be released a second time.
    pub fn release<H: Host>(self, mg: &mut Memgraph<H>)
        ensures
            final(mg).one_call(
                *old(mg),
                Entry::Destroy { kind: Kind::Value, object: self@.holder },
                Seq::empty(),
            ),
            final(mg).gave_up(*old(mg), self.token()),
    {
        self.holder.release(mg);
    }
}

impl PropertiesIter {
    /// The cursor that walks the host's iterator.
    pub closed spec fn spec_cursor(&self) -> Cursor {
        self.cursor
    }

    /// Opens the pass that the call `entry` asks for.
    pub(crate) fn open<H: Host>(entry: Entry, error: MgpError, mg: &mut Memgraph<H>) -> (r: Result<
        PropertiesIter,
        MgpError,
    >)
        requires
            entry.grants() == Some(Kind::PropertiesIterator),
            !(entry is ValueMakeFrom),
            !(entry is Destroy),
        ensures
            final(mg).continues(*old(mg)),
            crate::cursor::open_run(
                entry,
                Kind::PropertiesIterator,
                error,
                final(mg).since(*old(mg)),
                properties_result(r),
            ),
            match r {
                Ok(iter) => {
                    &&& iter.spec_cursor().spec_kind() == Kind::PropertiesIterator
                    &&& iter.spec_cursor().spec_fresh()
                    &&& final(mg).balanced(*old(mg), Some(iter.spec_cursor().token()))
                },
                Err(_) => final(mg).balanced(*old(mg), None),
            },
    {
        match Cursor::open(entry, Kind::PropertiesIterator, error, mg) {
            Ok(cursor) => Ok(PropertiesIter { cursor }),
            Err(e) => Err(e),
        }
    }

    /// Whether the last property has been reached.
    pub fn finished(&self) -> (b: bool)
        ensures
            b == self.spec_cursor().spec_finished(),
    {
        self.cursor.finished()
    }

    /// Pulls the next property. At the end this returns `None` without a
    /// call to the host. A property that cannot be read ends the pass: the
    /// failure is returned once, and every later pull returns `None`.
    pub fn next<H: Host>(&mut self, mg: &mut Memgraph<H>) -> (r: Option<Result<Property, MgpError>>)
        ensures
            final(mg).continues(*old(mg)),
            final(mg).balanced(*old(mg), None),
            next_pair_run(
                old(self).spec_cursor(),
                MgpError::UnableToReadValue,
                final(mg).since(*old(mg)),
                pulled_property(r),
            ),
            final(self).spec_cursor().token() == old(self).spec_cursor().token(),
            !final(self).spec_cursor().spec_fresh(),
            !(r matches Some(Ok(_))) ==> final(self).spec_cursor().spec_finished(),
            old(self).spec_cursor().spec_finished() ==> r is None && final(mg).silent(*old(mg)),
    {
        match self.cursor.next_pair(MgpError::UnableToReadValue, mg) {
            None => None,
            Some(Err(e)) => Some(Err(e)),
            Some(Ok((name, value))) => Some(Ok(Property { name, value })),
        }
    }

    /// Hands the iterator back to the host. The pass is consumed, so it
    /// cannot be released a second time.
    pub fn release<H: Host>(self, mg: &mut Memgraph<H>)
        ensures
            final(mg).one_call(
                *old(mg),
                Entry::Destroy {
                    kind: self.spec_cursor().spec_kind(),
                    object: self.spec_cursor().spec_iterator(),
                },
                Seq::empty(),
            ),
            final(mg).gave_up(*old(mg), self.spec_cursor().token()),
    {
        self.cursor.release(mg);
    }
}

/// A result that carries a properties iterator, with the iterator taken by
/// its state.
pub open spec fn properties_result(r: Result<PropertiesIter, MgpError>) -> Result<
    (Handle, Handle),
    MgpError,
> {
    match r {
        Ok(iter) => Ok((iter.spec_cursor().spec_iterator(), iter.spec_cursor().spec_current())),
        Err(e) => Err(e),
    }
}

} // verus!
