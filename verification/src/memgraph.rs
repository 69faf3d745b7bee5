//! The context of one procedure invocation, and the seam through which every
//! call to the host passes.

use vstd::prelude::*;
use crate::cursor::open_run;
use crate::list::ListRef;
use crate::mgp::{held, lemma_held_push, Entry, Exchange, Handle, Host, Kind, Reply, Token};
use crate::record::ResultRecord;
use crate::result::MgpError;
use crate::vertex::{vertex_result, vertices_result, Vertex, VerticesIter};

verus! {

/// The objects that the host lends for the time of one invocation. None of
/// them is ever released by this library.
#[derive(Clone, Copy, Debug, PartialEq, Eq, Structural)]
pub struct Context {
    /// The list of arguments of the invocation.
    pub args: Handle,
    pub graph: Handle,
    /// The sink that takes the output rows.
    pub result: Handle,
    pub module: Handle,
}

impl Default for Context {
    fn default() -> (context: Context)
        ensures
            context.args == Handle::spec_null(),
            context.graph == Handle::spec_null(),
            context.result == Handle::spec_null(),
            context.module == Handle::spec_null(),
    {
        Context {
            args: Handle::null(),
            graph: Handle::null(),
            result: Handle::null(),
            module: Handle::null(),
        }
    }
}

/// One procedure invocation: the host behind the seam, the borrowed context,
/// and the record of every exchange made so far.
pub struct Memgraph<H: Host> {
    host: H,
    context: Context,
    trace: Ghost<Seq<Exchange>>,
}

impl<H: Host> Memgraph<H> {
    /// Every exchange with the host since this invocation began, oldest first.
    pub closed spec fn trace(self) -> Seq<Exchange> {
        self.trace@
    }

    pub closed spec fn spec_context(&self) -> Context {
        self.context
    }

    pub closed spec fn spec_host(&self) -> H {
        self.host
    }

    /// The exchanges made after the state `before`.
    pub open spec fn since(self, before: Self) -> Seq<Exchange> {
        self.trace().skip(before.trace().len() as int)
    }

    /// `self` is a later state of the invocation `before`: the context is
    /// the same and the trace was only added to.
    pub open spec fn continues(self, before: Self) -> bool {
        &&& self.spec_context() == before.spec_context()
        &&& before.trace().len() <= self.trace().len()
        &&& self.trace() == before.trace() + self.since(before)
    }

    /// Nothing was exchanged with the host between `before` and `self`.
    pub open spec fn silent(self, before: Self) -> bool {
        &&& self.spec_context() == before.spec_context()
        &&& self.trace() == before.trace()
    }

    /// Exactly one call was made between `before` and `self`: `entry`, with
    /// the textual argument `sent`.
    pub open spec fn one_call(self, before: Self, entry: Entry, sent: Seq<u8>) -> bool {
        &&& self.continues(before)
        &&& self.since(before) == seq![self.answer()]
        &&& self.answer().asks(entry, sent)
    }

    /// The latest exchange.
    pub open spec fn answer(self) -> Exchange {
        self.trace().last()
    }

    /// How many times `token` is in the layer's hands.
    pub open spec fn held(self, token: Token) -> int {
        held(self.trace(), token)
    }

    /// Between `before` and `self` every owned object that was acquired was
    /// given up again, with two exceptions: `given`, which the caller held
    /// and which is held once less than before, and `kept`, which is held
    /// once more.
    pub open spec fn settled(self, before: Self, given: Option<Token>, kept: Option<Token>) -> bool {
        forall|token: Token| #[trigger]
            self.held(token) == before.held(token) - (if given == Some(token) {
                1int
            } else {
                0int
            }) + (if kept == Some(token) {
                1int
            } else {
                0int
            })
    }

    /// Between `before` and `self` every owned object that was acquired was
    /// given up again, but for `kept`, which is held once more than before.
    pub open spec fn balanced(self, before: Self, kept: Option<Token>) -> bool {
        self.settled(before, None, kept)
    }

    /// Between `before` and `self` the layer gave up `given` once, and every
    /// other owned object that was acquired was given up again.
    pub open spec fn gave_up(self, before: Self, given: Token) -> bool {
        self.settled(before, Some(given), None)
    }

    /// Starts an invocation on `host` with the context that the host lent.
    pub fn new(host: H, context: Context) -> (memgraph: Memgraph<H>)
        ensures
            memgraph.trace() == Seq::<Exchange>::empty(),
            memgraph.spec_context() == context,
            memgraph.spec_host() == host,
    {
        Memgraph { host, context, trace: Ghost(Seq::empty()) }
    }

    #[verifier::when_used_as_spec(spec_context)]
    pub fn context(&self) -> (context: Context)
        ensures
            context == self.spec_context(),
    {
        self.context
    }

    /// The host behind the seam, to look at.
    pub fn host(&self) -> (host: &H)
        ensures
            *host == self.spec_host(),
    {
        &self.host
    }

    /// Ends the invocation and hands the host back.
    pub fn into_host(self) -> (host: H)
        ensures
            host == self.spec_host(),
    {
        self.host
    }

    /// The arguments with which the procedure was invoked, as a list that
    /// the host owns.
    pub fn args(&self) -> (args: ListRef)
        ensures
            args.handle == self.spec_context().args,
    {
        ListRef { handle: self.context.args }
    }

    /// Adds a row to the output and returns it, to be filled.
    pub fn result_record(&mut self) -> (r: Result<ResultRecord, MgpError>)
        ensures
            final(self).one_call(
                *old(self),
                Entry::ResultNewRecord { result: old(self).spec_context().result },
                Seq::empty(),
            ),
            final(self).balanced(*old(self), None),
            match final(self).answer().reply.spec_handle_or(MgpError::UnableToCreateResultRecord) {
                Ok(handle) => r == Ok::<ResultRecord, MgpError>(ResultRecord { handle }),
                Err(e) => r == Err::<ResultRecord, MgpError>(e),
            },
    {
        let result = self.context.result;
        match self.call(Entry::ResultNewRecord { result }).handle_or(
            MgpError::UnableToCreateResultRecord,
        ) {
            Ok(handle) => Ok(ResultRecord { handle }),
            Err(e) => Err(e),
        }
    }

    /// Starts a pass over the vertices of the graph.
    pub fn vertices_iter(&mut self) -> (r: Result<VerticesIter, MgpError>)
        ensures
            final(self).continues(*old(self)),
            open_run(
                Entry::GraphIterVertices { graph: old(self).spec_context().graph },
                Kind::VerticesIterator,
                MgpError::UnableToCreateGraphVerticesIterator,
                final(self).since(*old(self)),
                vertices_result(r),
            ),
            match r {
                Ok(iter) => {
                    &&& iter.spec_cursor().spec_kind() == Kind::VerticesIterator
                    &&& iter.spec_cursor().spec_fresh()
                    &&& final(self).balanced(*old(self), Some(iter.spec_cursor().token()))
                },
                Err(_) => final(self).balanced(*old(self), None),
            },
    {
        let graph = self.context.graph;
        VerticesIter::open(
            Entry::GraphIterVertices { graph },
            MgpError::UnableToCreateGraphVerticesIterator,
            self,
        )
    }

    /// The vertex with the identifier `id`, as a copy that the caller owns.
    /// The host decides whether there is one.
    pub fn vertex_by_id(&mut self, id: i64) -> (r: Result<Vertex, MgpError>)
        ensures
            final(self).one_call(
                *old(self),
                Entry::GraphGetVertexById { graph: old(self).spec_context().graph, id },
                Seq::empty(),
            ),
            vertex_result(r) == final(self).answer().reply.spec_handle_or(
                MgpError::UnableToFindVertexById,
            ),
            match r {
                Ok(vertex) => final(self).balanced(*old(self), Some(vertex.token())),
                Err(_) => final(self).balanced(*old(self), None),
            },
    {
        let graph = self.context.graph;
        match self.call(Entry::GraphGetVertexById { graph, id }).handle_or(
            MgpError::UnableToFindVertexById,
        ) {
            Ok(handle) => Ok(Vertex::adopt(handle)),
            Err(e) => Err(e),
        }
    }

    /// Makes one call to the host and records it.
    pub(crate) fn invoke(&mut self, entry: Entry, text: &[u8]) -> (reply: Reply)
        ensures
            final(self).one_call(*old(self), entry, text@),
            final(self).answer().reply == reply,
            forall|token: Token| #[trigger]
                final(self).held(token) == old(self).held(token) + final(self).answer().credit(
                    token,
                ),
    {
        let reply = self.host.invoke(entry, text);
        proof {
            let x = Exchange::of(entry, text@, reply);
            let before = self.trace@;
            self.trace@ = before.push(x);
            assert(before.push(x).skip(before.len() as int) =~= seq![x]);
            assert(before.push(x) =~= before + seq![x]);
            assert forall|token: Token| held(before.push(x), token) == held(before, token)
                + x.credit(token) by {
                lemma_held_push(before, x, token);
            }
        }
        reply
    }

    /// Makes one call that takes no textual argument.
    pub(crate) fn call(&mut self, entry: Entry) -> (reply: Reply)
        ensures
            final(self).one_call(*old(self), entry, Seq::<u8>::empty()),
            final(self).answer().reply == reply,
            forall|token: Token| #[trigger]
                final(self).held(token) == old(self).held(token) + final(self).answer().credit(
                    token,
                ),
    {
        let none: Vec<u8> = Vec::new();
        self.invoke(entry, none.as_slice())
    }

    /// Asks the host for a copy of `object`, which the caller will own.
    pub(crate) fn copy_object(&mut self, kind: Kind, object: Handle, error: MgpError) -> (r: Result<
        Handle,
        MgpError,
    >)
        ensures
            final(self).one_call(*old(self), Entry::Copy { kind, object }, Seq::<u8>::empty()),
            r == final(self).answer().reply.spec_handle_or(error),
            match r {
                Ok(copy) => final(self).balanced(*old(self), Some(Token { kind, handle: copy })),
                Err(_) => final(self).balanced(*old(self), None),
            },
    {
        self.call(Entry::Copy { kind, object }).handle_or(error)
    }

    /// Hands the owned object `object` of `kind` back to the host.
    pub(crate) fn destroy(&mut self, kind: Kind, object: Handle)
        ensures
            final(self).one_call(*old(self), Entry::Destroy { kind, object }, Seq::<u8>::empty()),
            final(self).gave_up(*old(self), Token { kind, handle: object }),
    {
        let _ = self.call(Entry::Destroy { kind, object });
    }
}

/// Two steps of an invocation, one after the other, make one: the exchanges
/// since the start are those of the first step followed by those of the second.
pub proof fn lemma_continues_chain<H: Host>(a: Memgraph<H>, b: Memgraph<H>, c: Memgraph<H>)
    requires
        b.continues(a),
        c.continues(b),
    ensures
        c.continues(a),
        c.since(a) == b.since(a) + c.since(b),
{
    assert(c.since(a) =~= b.since(a) + c.since(b));
    assert(c.trace() =~= a.trace() + c.since(a));
}

} // verus!
