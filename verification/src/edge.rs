//! Edges of the graph: borrowed views, owned copies, and lazy iteration over
//! the edges at a vertex.

use vstd::prelude::*;
use crate::cursor::{kept_of, next_copy_run, open_run, Cursor};
use crate::memgraph::Memgraph;
use crate::mgp::{Entry, Handle, Host, Kind, Token};
use crate::property::{
    properties_result, property_result, property_run, OwnedProperty, PropertiesIter,
    PropertyErrors,
};
use crate::result::MgpError;
use crate::text::text_result;
use crate::vertex::VertexRef;

verus! {

/// A borrowed view of an edge that the host owns. It is valid for the time of
/// the invocation and is never released by this library.
#[derive(Clone, Copy, Debug, PartialEq, Eq, Structural)]
pub struct EdgeRef {
    pub handle: Handle,
}

/// An edge that this layer owns: a copy that the host made on request. It is
/// handed back by [`Edge::release`], once.
#[derive(Debug, PartialEq, Eq)]
pub struct Edge {
    handle: Handle,
}

/// A single pass over the edges that enter or leave a vertex. It owns an
/// iterator of the host, which [`EdgesIter::release`] hands back.
#[derive(Debug, PartialEq, Eq)]
pub struct EdgesIter {
    cursor: Cursor,
}

/// A result that carries an owned edge, with the edge taken by its handle.
pub open spec fn edge_result(r: Result<Edge, MgpError>) -> Result<Handle, MgpError> {
    match r {
        Ok(edge) => Ok(edge.spec_as_ref().handle),
        Err(e) => Err(e),
    }
}

/// A result that carries a borrowed vertex, with the vertex taken by its handle.
pub open spec fn endpoint_result(r: Result<VertexRef, MgpError>) -> Result<Handle, MgpError> {
    match r {
        Ok(vertex) => Ok(vertex.handle),
        Err(e) => Err(e),
    }
}

/// The errors of the three steps of reading a property of an edge.
pub open spec fn edge_property_errors() -> PropertyErrors {
    PropertyErrors {
        name: MgpError::UnableToReturnEdgePropertyNameAllocationError,
        lookup: MgpError::UnableToReturnEdgePropertyValueAllocationError,
        creation: MgpError::UnableToReturnEdgePropertyValueCreationError,
    }
}

impl EdgeRef {
    /// A view of the edge behind `handle`.
    pub fn new(handle: Handle) -> (edge: EdgeRef)
        ensures
            edge.handle == handle,
    {
        EdgeRef { handle }
    }

    /// The identifier of the edge.
    pub fn id<H: Host>(&self, mg: &mut Memgraph<H>) -> (r: Result<i64, MgpError>)
        ensures
            final(mg).one_call(*old(mg), Entry::EdgeGetId { edge: self.handle }, Seq::empty()),
            r == final(mg).answer().reply.spec_int_or(MgpError::UnableToGetEdgeId),
            final(mg).balanced(*old(mg), None),
    {
        mg.call(Entry::EdgeGetId { edge: self.handle }).int_or(MgpError::UnableToGetEdgeId)
    }

    /// The name of the type of the edge.
    pub fn edge_type<H: Host>(&self, mg: &mut Memgraph<H>) -> (r: Result<Vec<u8>, MgpError>)
        ensures
            final(mg).one_call(*old(mg), Entry::EdgeGetType { edge: self.handle }, Seq::empty()),
            text_result(r) == final(mg).answer().reply.spec_text_or(
                MgpError::UnableToReturnEdgeType,
            ),
            final(mg).balanced(*old(mg), None),
    {
        mg.call(Entry::EdgeGetType { edge: self.handle }).text_or(MgpError::UnableToReturnEdgeType)
    }

    /// The vertex at which the edge starts, as a view into the edge.
    pub fn from_vertex<H: Host>(&self, mg: &mut Memgraph<H>) -> (r: Result<VertexRef, MgpError>)
        ensures
            final(mg).one_call(*old(mg), Entry::EdgeGetFrom { edge: self.handle }, Seq::empty()),
            endpoint_result(r) == final(mg).answer().reply.spec_handle_or(
                MgpError::UnableToReturnEdgeEndpoint,
            ),
            final(mg).balanced(*old(mg), None),
    {
        match mg.call(Entry::EdgeGetFrom { edge: self.handle }).handle_or(
            MgpError::UnableToReturnEdgeEndpoint,
        ) {
            Ok(handle) => Ok(VertexRef { handle }),
            Err(e) => Err(e),
        }
    }

    /// The vertex at which the edge ends, as a view into the edge.
    pub fn to_vertex<H: Host>(&self, mg: &mut Memgraph<H>) -> (r: Result<VertexRef, MgpError>)
        ensures
            final(mg).one_call(*old(mg), Entry::EdgeGetTo { edge: self.handle }, Seq::empty()),
            endpoint_result(r) == final(mg).answer().reply.spec_handle_or(
                MgpError::UnableToReturnEdgeEndpoint,
            ),
            final(mg).balanced(*old(mg), None),
    {
        match mg.call(Entry::EdgeGetTo { edge: self.handle }).handle_or(
            MgpError::UnableToReturnEdgeEndpoint,
        ) {
            Ok(handle) => Ok(VertexRef { handle }),
            Err(e) => Err(e),
        }
    }

    /// Reads the property `name` of the edge. The result owns the value
    /// that the host handed out and is to be released.
    pub fn property<H: Host>(&self, name: &[u8], mg: &mut Memgraph<H>) -> (r: Result<
        OwnedProperty,
        MgpError,
    >)
        ensures
            final(mg).continues(*old(mg)),
            property_run(
                Entry::EdgeGetProperty { edge: self.handle },
                name@,
                edge_property_errors(),
                final(mg).since(*old(mg)),
                property_result(r),
            ),
            match r {
                Ok(property) => final(mg).balanced(*old(mg), Some(property.token())),
                Err(_) => final(mg).balanced(*old(mg), None),
            },
    {
        let errors = PropertyErrors {
            name: MgpError::UnableToReturnEdgePropertyNameAllocationError,
            lookup: MgpError::UnableToReturnEdgePropertyValueAllocationError,
            creation: MgpError::UnableToReturnEdgePropertyValueCreationError,
        };
        OwnedProperty::read(Entry::EdgeGetProperty { edge: self.handle }, name, errors, mg)
    }

    /// Starts a pass over the properties of the edge.
    pub fn properties<H: Host>(&self, mg: &mut Memgraph<H>) -> (r: Result<PropertiesIter, MgpError>)
        ensures
            final(mg).continues(*old(mg)),
            open_run(
                Entry::EdgeIterProperties { edge: self.handle },
                Kind::PropertiesIterator,
                MgpError::UnableToReturnEdgePropertiesIterator,
                final(mg).since(*old(mg)),
                properties_result(r),
            ),
            match r {
                Ok(iter) => {
                    &&& iter.spec_cursor().spec_kind() == Kind::PropertiesIterator
                    &&& iter.spec_cursor().spec_fresh()
                    &&& final(mg).balanced(*old(mg), Some(iter.spec_cursor().token()))
                },
                Err(_) => final(mg).balanced(*old(mg), None),
            },
    {
        PropertiesIter::open(Entry::EdgeIterProperties { edge: self.handle }, MgpError::UnableToReturnEdgePropertiesIterator, mg)
    }

    /// Has the host make a copy of the edge, which the caller owns.
    pub fn copy<H: Host>(&self, mg: &mut Memgraph<H>) -> (r: Result<Edge, MgpError>)
        ensures
            final(mg).one_call(
                *old(mg),
                Entry::Copy { kind: Kind::Edge, object: self.handle },
                Seq::empty(),
            ),
            edge_result(r) == final(mg).answer().reply.spec_handle_or(MgpError::UnableToCopyEdge),
            match r {
                Ok(edge) => final(mg).balanced(*old(mg), Some(edge.token())),
                Err(_) => final(mg).balanced(*old(mg), None),
            },
    {
        match mg.copy_object(Kind::Edge, self.handle, MgpError::UnableToCopyEdge) {
            Ok(handle) => Ok(Edge::adopt(handle)),
            Err(e) => Err(e),
        }
    }
}

impl Edge {
    /// The object that this edge stands for in the account of owned objects.
    pub open spec fn token(&self) -> Token {
        Token { kind: Kind::Edge, handle: self.spec_as_ref().handle }
    }

    pub closed spec fn spec_as_ref(&self) -> EdgeRef {
        EdgeRef { handle: self.handle }
    }

    /// A borrowed view of this edge, through which it is read.
    #[verifier::when_used_as_spec(spec_as_ref)]
    pub fn as_ref(&self) -> (edge: EdgeRef)
        ensures
            edge == self.spec_as_ref(),
    {
        EdgeRef { handle: self.handle }
    }

    /// Takes charge of a edge that the host handed out under `handle`.
    pub(crate) fn adopt(handle: Handle) -> (edge: Edge)
        ensures
            edge.spec_as_ref().handle == handle,
    {
        Edge { handle }
    }

    /// Hands the edge back to the host. The edge is consumed, so it
    /// cannot be released a second time.
    pub fn release<H: Host>(self, mg: &mut Memgraph<H>)
        ensures
            final(mg).one_call(
                *old(mg),
                Entry::Destroy { kind: Kind::Edge, object: self.spec_as_ref().handle },
                Seq::empty(),
            ),
            final(mg).gave_up(*old(mg), self.token()),
    {
        mg.destroy(Kind::Edge, self.handle);
    }
}

/// The outcome of a pull that yields an owned edge, with the edge taken by
/// its handle.
pub open spec fn pulled_edge(r: Option<Result<Edge, MgpError>>) -> Option<Result<Handle, MgpError>> {
    match r {
        Some(read) => Some(edge_result(read)),
        None => None,
    }
}

impl EdgesIter {
    /// The cursor that walks the host's iterator.
    pub closed spec fn spec_cursor(&self) -> Cursor {
        self.cursor
    }

    /// Opens the pass that the call `entry` asks for.
    pub(crate) fn open<H: Host>(entry: Entry, error: MgpError, mg: &mut Memgraph<H>) -> (r: Result<
        EdgesIter,
        MgpError,
    >)
        requires
            entry.grants() == Some(Kind::EdgesIterator),
            !(entry is ValueMakeFrom),
            !(entry is Destroy),
        ensures
            final(mg).continues(*old(mg)),
            open_run(entry, Kind::EdgesIterator, error, final(mg).since(*old(mg)), edges_result(r)),
            match r {
                Ok(iter) => {
                    &&& iter.spec_cursor().spec_kind() == Kind::EdgesIterator
                    &&& iter.spec_cursor().spec_fresh()
                    &&& final(mg).balanced(*old(mg), Some(iter.spec_cursor().token()))
                },
                Err(_) => final(mg).balanced(*old(mg), None),
            },
    {
        match Cursor::open(entry, Kind::EdgesIterator, error, mg) {
            Ok(cursor) => Ok(EdgesIter { cursor }),
            Err(e) => Err(e),
        }
    }

    /// Whether the last edge has been reached.
    pub fn finished(&self) -> (b: bool)
        ensures
            b == self.spec_cursor().spec_finished(),
    {
        self.cursor.finished()
    }

    /// Pulls the next edge, as a copy that the caller owns. At the end this
    /// returns `None` without a call to the host. A edge that cannot be
    /// copied ends the pass: the failure is returned once, and every later
    /// pull returns `None`.
    pub fn next<H: Host>(&mut self, mg: &mut Memgraph<H>) -> (r: Option<Result<Edge, MgpError>>)
        ensures
            final(mg).continues(*old(mg)),
            final(mg).balanced(*old(mg), kept_of(Kind::Edge, pulled_edge(r))),
            next_copy_run(
                old(self).spec_cursor(),
                Kind::Edge,
                MgpError::UnableToCopyEdge,
                final(mg).since(*old(mg)),
                pulled_edge(r),
            ),
            final(self).spec_cursor().token() == old(self).spec_cursor().token(),
            !final(self).spec_cursor().spec_fresh(),
            !(r matches Some(Ok(_))) ==> final(self).spec_cursor().spec_finished(),
            old(self).spec_cursor().spec_finished() ==> r is None && final(mg).silent(*old(mg)),
    {
        match self.cursor.next_copy(Kind::Edge, MgpError::UnableToCopyEdge, mg) {
            None => None,
            Some(Err(e)) => Some(Err(e)),
            Some(Ok(handle)) => Some(Ok(Edge::adopt(handle))),
        }
    }

    /// Hands the iterator back to the host. The pass is consumed, so it
    /// cannot be released a second time.
    pub fn release<H: Host>(self, mg: &mut Memgraph<H>)
        ensures
            final(mg).one_call(
                *old(mg),
                Entry::Destroy {
                    kind: self.spec_cursor().spec_kind(),
                    object: self.spec_cursor().spec_iterator(),
                },
                Seq::empty(),
            ),
            final(mg).gave_up(*old(mg), self.spec_cursor().token()),
    {
        self.cursor.release(mg);
    }
}

/// A result that carries a pass over edges, with the pass taken by its state.
pub open spec fn edges_result(r: Result<EdgesIter, MgpError>) -> Result<(Handle, Handle), MgpError> {
    match r {
        Ok(iter) => Ok((iter.spec_cursor().spec_iterator(), iter.spec_cursor().spec_current())),
        Err(e) => Err(e),
    }
}

} // verus!
