//! Vertices of the graph: borrowed views, owned copies, and the traversals
//! that start at a vertex.

use vstd::prelude::*;
use crate::cursor::{kept_of, next_copy_run, open_run, Cursor};
use crate::edge::{edges_result, EdgesIter};
use crate::memgraph::Memgraph;
use crate::mgp::{Entry, Exchange, Handle, Host, Kind, Token};
use crate::property::{
    properties_result, property_result, property_run, OwnedProperty, PropertiesIter,
    PropertyErrors,
};
use crate::result::MgpError;
use crate::text::{c_string, is_c_string, text_result};

verus! {

/// A borrowed view of a vertex that the host owns. It is valid for the time
/// of the invocation and is never released by this library.
#[derive(Clone, Copy, Debug, PartialEq, Eq, Structural)]
pub struct VertexRef {
    pub handle: Handle,
}

/// A vertex that this layer owns: a copy that the host made on request. It is
/// handed back by [`Vertex::release`], once.
#[derive(Debug, PartialEq, Eq)]
pub struct Vertex {
    handle: Handle,
}

/// A single pass over the vertices of the graph. It owns an iterator of the
/// host, which [`VerticesIter::release`] hands back.
#[derive(Debug, PartialEq, Eq)]
pub struct VerticesIter {
    cursor: Cursor,
}

/// A result that carries an owned vertex, with the vertex taken by its handle.
pub open spec fn vertex_result(r: Result<Vertex, MgpError>) -> Result<Handle, MgpError> {
    match r {
        Ok(vertex) => Ok(vertex.spec_as_ref().handle),
        Err(e) => Err(e),
    }
}

/// The errors of the three steps of reading a property of a vertex.
pub open spec fn vertex_property_errors() -> PropertyErrors {
    PropertyErrors {
        name: MgpError::UnableToReturnVertexPropertyNameAllocationError,
        lookup: MgpError::UnableToReturnVertexPropertyValueAllocationError,
        creation: MgpError::UnableToReturnVertexPropertyValueCreationError,
    }
}

/// The exchanges `d` are those of asking whether `vertex` has the label
/// `name`, and `r` is what they come to. A label that the host cannot hold is
/// refused without a call.
pub open spec fn has_label_run(
    vertex: Handle,
    name: Seq<u8>,
    d: Seq<Exchange>,
    r: Result<bool, MgpError>,
) -> bool {
    if is_c_string(name) {
        &&& d.len() == 1
        &&& d[0].asks(Entry::VertexHasLabel { vertex }, name)
        &&& r == d[0].reply.spec_bool_or(MgpError::UnableToCheckVertexHasLabel)
    } else {
        d.len() == 0 && r == Err::<bool, MgpError>(MgpError::UnableToCreateCString)
    }
}

impl VertexRef {
    /// A view of the vertex behind `handle`.
    pub fn new(handle: Handle) -> (vertex: VertexRef)
        ensures
            vertex.handle == handle,
    {
        VertexRef { handle }
    }

    /// The identifier of the vertex.
    pub fn id<H: Host>(&self, mg: &mut Memgraph<H>) -> (r: Result<i64, MgpError>)
        ensures
            final(mg).one_call(*old(mg), Entry::VertexGetId { vertex: self.handle }, Seq::empty()),
            r == final(mg).answer().reply.spec_int_or(MgpError::UnableToGetVertexId),
            final(mg).balanced(*old(mg), None),
    {
        mg.call(Entry::VertexGetId { vertex: self.handle }).int_or(MgpError::UnableToGetVertexId)
    }

    /// The number of labels of the vertex.
    pub fn labels_count<H: Host>(&self, mg: &mut Memgraph<H>) -> (r: Result<u64, MgpError>)
        ensures
            final(mg).one_call(*old(mg), Entry::VertexLabelsCount { vertex: self.handle }, Seq::empty()),
            r == final(mg).answer().reply.spec_size_or(MgpError::UnableToReturnVertexLabelsCount),
            final(mg).balanced(*old(mg), None),
    {
        mg.call(Entry::VertexLabelsCount { vertex: self.handle }).size_or(MgpError::UnableToReturnVertexLabelsCount)
    }

    /// The label at `index`. The host decides whether the index is in range.
    pub fn label_at<H: Host>(&self, index: u64, mg: &mut Memgraph<H>) -> (r: Result<Vec<u8>, MgpError>)
        ensures
            final(mg).one_call(
                *old(mg),
                Entry::VertexLabelAt { vertex: self.handle, index },
                Seq::empty(),
            ),
            text_result(r) == final(mg).answer().reply.spec_text_or(
                MgpError::OutOfBoundLabelIndexError,
            ),
            final(mg).balanced(*old(mg), None),
    {
        mg.call(Entry::VertexLabelAt { vertex: self.handle, index }).text_or(
            MgpError::OutOfBoundLabelIndexError,
        )
    }

    /// Whether the vertex has the label `name`.
    pub fn has_label<H: Host>(&self, name: &[u8], mg: &mut Memgraph<H>) -> (r: Result<bool, MgpError>)
        ensures
            final(mg).continues(*old(mg)),
            has_label_run(self.handle, name@, final(mg).since(*old(mg)), r),
            final(mg).balanced(*old(mg), None),
    {
        let name = match c_string(name) {
            Ok(name) => name,
            Err(e) => {
                assert(mg.since(*mg) =~= Seq::<Exchange>::empty());
                assert(mg.trace() + Seq::<Exchange>::empty() =~= mg.trace());
                return Err(e);
            },
        };
        mg.invoke(Entry::VertexHasLabel { vertex: self.handle }, name.as_slice()).bool_or(
            MgpError::UnableToCheckVertexHasLabel,
        )
    }

    /// Reads the property `name` of the vertex. The result owns the value
    /// that the host handed out and is to be released.
    pub fn property<H: Host>(&self, name: &[u8], mg: &mut Memgraph<H>) -> (r: Result<
        OwnedProperty,
        MgpError,
    >)
        ensures
            final(mg).continues(*old(mg)),
            property_run(
                Entry::VertexGetProperty { vertex: self.handle },
                name@,
                vertex_property_errors(),
                final(mg).since(*old(mg)),
                property_result(r),
            ),
            match r {
                Ok(property) => final(mg).balanced(*old(mg), Some(property.token())),
                Err(_) => final(mg).balanced(*old(mg), None),
            },
    {
        let errors = PropertyErrors {
            name: MgpError::UnableToReturnVertexPropertyNameAllocationError,
            lookup: MgpError::UnableToReturnVertexPropertyValueAllocationError,
            creation: MgpError::UnableToReturnVertexPropertyValueCreationError,
        };
        OwnedProperty::read(Entry::VertexGetProperty { vertex: self.handle }, name, errors, mg)
    }

    /// Starts a pass over the properties of the vertex.
    pub fn properties<H: Host>(&self, mg: &mut Memgraph<H>) -> (r: Result<PropertiesIter, MgpError>)
        ensures
            final(mg).continues(*old(mg)),
            open_run(
                Entry::VertexIterProperties { vertex: self.handle },
                Kind::PropertiesIterator,
                MgpError::UnableToReturnVertexPropertiesIterator,
                final(mg).since(*old(mg)),
                properties_result(r),
            ),
            match r {
                Ok(iter) => {
                    &&& iter.spec_cursor().spec_kind() == Kind::PropertiesIterator
                    &&& iter.spec_cursor().spec_fresh()
                    &&& final(mg).balanced(*old(mg), Some(iter.spec_cursor().token()))
                },
                Err(_) => final(mg).balanced(*old(mg), None),
            },
    {
        PropertiesIter::open(Entry::VertexIterProperties { vertex: self.handle }, MgpError::UnableToReturnVertexPropertiesIterator, mg)
    }

    /// Starts a pass over the edges that enter the vertex.
    pub fn in_edges<H: Host>(&self, mg: &mut Memgraph<H>) -> (r: Result<EdgesIter, MgpError>)
        ensures
            final(mg).continues(*old(mg)),
            open_run(
                Entry::VertexIterInEdges { vertex: self.handle },
                Kind::EdgesIterator,
                MgpError::UnableToReturnVertexInEdgesIterator,
                final(mg).since(*old(mg)),
                edges_result(r),
            ),
            match r {
                Ok(iter) => {
                    &&& iter.spec_cursor().spec_kind() == Kind::EdgesIterator
                    &&& iter.spec_cursor().spec_fresh()
                    &&& final(mg).balanced(*old(mg), Some(iter.spec_cursor().token()))
                },
                Err(_) => final(mg).balanced(*old(mg), None),
            },
    {
        EdgesIter::open(
            Entry::VertexIterInEdges { vertex: self.handle },
            MgpError::UnableToReturnVertexInEdgesIterator,
            mg,
        )
    }

    /// Starts a pass over the edges that leave the vertex.
    pub fn out_edges<H: Host>(&self, mg: &mut Memgraph<H>) -> (r: Result<EdgesIter, MgpError>)
        ensures
            final(mg).continues(*old(mg)),
            open_run(
                Entry::VertexIterOutEdges { vertex: self.handle },
                Kind::EdgesIterator,
                MgpError::UnableToReturnVertexOutEdgesIterator,
                final(mg).since(*old(mg)),
                edges_result(r),
            ),
            match r {
                Ok(iter) => {
                    &&& iter.spec_cursor().spec_kind() == Kind::EdgesIterator
                    &&& iter.spec_cursor().spec_fresh()
                    &&& final(mg).balanced(*old(mg), Some(iter.spec_cursor().token()))
                },
                Err(_) => final(mg).balanced(*old(mg), None),
            },
    {
        EdgesIter::open(
            Entry::VertexIterOutEdges { vertex: self.handle },
            MgpError::UnableToReturnVertexOutEdgesIterator,
            mg,
        )
    }

    /// Has the host make a copy of the vertex, which the caller owns.
    pub fn copy<H: Host>(&self, mg: &mut Memgraph<H>) -> (r: Result<Vertex, MgpError>)
        ensures
            final(mg).one_call(
                *old(mg),
                Entry::Copy { kind: Kind::Vertex, object: self.handle },
                Seq::empty(),
            ),
            vertex_result(r) == final(mg).answer().reply.spec_handle_or(MgpError::UnableToCopyVertex),
            match r {
                Ok(vertex) => final(mg).balanced(*old(mg), Some(vertex.token())),
                Err(_) => final(mg).balanced(*old(mg), None),
            },
    {
        match mg.copy_object(Kind::Vertex, self.handle, MgpError::UnableToCopyVertex) {
            Ok(handle) => Ok(Vertex::adopt(handle)),
            Err(e) => Err(e),
        }
    }
}

impl Vertex {
    /// The object that this vertex stands for in the account of owned objects.
    pub open spec fn token(&self) -> Token {
        Token { kind: Kind::Vertex, handle: self.spec_as_ref().handle }
    }

    pub closed spec fn spec_as_ref(&self) -> VertexRef {
        VertexRef { handle: self.handle }
    }

    /// A borrowed view of this vertex, through which it is read.
    #[verifier::when_used_as_spec(spec_as_ref)]
    pub fn as_ref(&self) -> (vertex: VertexRef)
        ensures
            vertex == self.spec_as_ref(),
    {
        VertexRef { handle: self.handle }
    }

    /// Takes charge of a vertex that the host handed out under `handle`.
    pub(crate) fn adopt(handle: Handle) -> (vertex: Vertex)
        ensures
            vertex.spec_as_ref().handle == handle,
    {
        Vertex { handle }
    }

    /// Hands the vertex back to the host. The vertex is consumed, so it
    /// cannot be released a second time.
    pub fn release<H: Host>(self, mg: &mut Memgraph<H>)
        ensures
            final(mg).one_call(
                *old(mg),
                Entry::Destroy { kind: Kind::Vertex, object: self.spec_as_ref().handle },
                Seq::empty(),
            ),
            final(mg).gave_up(*old(mg), self.token()),
    {
        mg.destroy(Kind::Vertex, self.handle);
    }
}

/// The outcome of a pull that yields an owned vertex, with the vertex taken by
/// its handle.
pub open spec fn pulled_vertex(r: Option<Result<Vertex, MgpError>>) -> Option<Result<Handle, MgpError>> {
    match r {
        Some(read) => Some(vertex_result(read)),
        None => None,
    }
}

impl VerticesIter {
    /// The cursor that walks the host's iterator.
    pub closed spec fn spec_cursor(&self) -> Cursor {
        self.cursor
    }

    /// Opens the pass that the call `entry` asks for.
    pub(crate) fn open<H: Host>(entry: Entry, error: MgpError, mg: &mut Memgraph<H>) -> (r: Result<
        VerticesIter,
        MgpError,
    >)
        requires
            entry.grants() == Some(Kind::VerticesIterator),
            !(entry is ValueMakeFrom),
            !(entry is Destroy),
        ensures
            final(mg).continues(*old(mg)),
            open_run(entry, Kind::VerticesIterator, error, final(mg).since(*old(mg)), vertices_result(r)),
            match r {
                Ok(iter) => {
                    &&& iter.spec_cursor().spec_kind() == Kind::VerticesIterator
                    &&& iter.spec_cursor().spec_fresh()
                    &&& final(mg).balanced(*old(mg), Some(iter.spec_cursor().token()))
                },
                Err(_) => final(mg).balanced(*old(mg), None),
            },
    {
        match Cursor::open(entry, Kind::VerticesIterator, error, mg) {
            Ok(cursor) => Ok(VerticesIter { cursor }),
            Err(e) => Err(e),
        }
    }

    /// Whether the last vertex has been reached.
    pub fn finished(&self) -> (b: bool)
        ensures
            b == self.spec_cursor().spec_finished(),
    {
        self.cursor.finished()
    }

    /// Pulls the next vertex, as a copy that the caller owns. At the end this
    /// returns `None` without a call to the host. A vertex that cannot be
    /// copied ends the pass: the failure is returned once, and every later
    /// pull returns `None`.
    pub fn next<H: Host>(&mut self, mg: &mut Memgraph<H>) -> (r: Option<Result<Vertex, MgpError>>)
        ensures
            final(mg).continues(*old(mg)),
            final(mg).balanced(*old(mg), kept_of(Kind::Vertex, pulled_vertex(r))),
            next_copy_run(
                old(self).spec_cursor(),
                Kind::Vertex,
                MgpError::UnableToCopyVertex,
                final(mg).since(*old(mg)),
                pulled_vertex(r),
            ),
            final(self).spec_cursor().token() == old(self).spec_cursor().token(),
            !final(self).spec_cursor().spec_fresh(),
            !(r matches Some(Ok(_))) ==> final(self).spec_cursor().spec_finished(),
            old(self).spec_cursor().spec_finished() ==> r is None && final(mg).silent(*old(mg)),
    {
        match self.cursor.next_copy(Kind::Vertex, MgpError::UnableToCopyVertex, mg) {
            None => None,
            Some(Err(e)) => Some(Err(e)),
            Some(Ok(handle)) => Some(Ok(Vertex::adopt(handle))),
        }
    }

    /// Hands the iterator back to the host. The pass is consumed, so it
    /// cannot be released a second time.
    pub fn release<H: Host>(self, mg: &mut Memgraph<H>)
        ensures
            final(mg).one_call(
                *old(mg),
                Entry::Destroy {
                    kind: self.spec_cursor().spec_kind(),
                    object: self.spec_cursor().spec_iterator(),
                },
                Seq::empty(),
            ),
            final(mg).gave_up(*old(mg), self.spec_cursor().token()),
    {
        self.cursor.release(mg);
    }
}

/// A result that carries a pass over vertices, with the pass taken by its state.
pub open spec fn vertices_result(r: Result<VerticesIter, MgpError>) -> Result<(Handle, Handle), MgpError> {
    match r {
        Ok(iter) => Ok((iter.spec_cursor().spec_iterator(), iter.spec_cursor().spec_current())),
        Err(e) => Err(e),
    }
}

} // verus!
