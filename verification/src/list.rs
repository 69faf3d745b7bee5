//! Lists of the host: borrowed views, owned lists, and lazy iteration.

use vstd::prelude::*;
use crate::memgraph::{lemma_continues_chain, Memgraph};
use crate::mgp::{Entry, Exchange, Handle, Host, Kind, Token};
use crate::result::MgpError;
use crate::value::{decode_run, give_run, value_result, Target, Value, ValueView};

verus! {

/// A borrowed view of a list that the host owns. It is valid for the time of
/// the invocation and is never released by this library.
#[derive(Clone, Copy, Debug, PartialEq, Eq, Structural)]
pub struct ListRef {
    pub handle: Handle,
}

/// A list that this layer owns: the host allocated it on request, and it is
/// handed back by [`List::release`], once.
#[derive(Debug, PartialEq, Eq)]
pub struct List {
    handle: Handle,
}

/// A single pass over a list. The size is asked for once, when the iterator
/// is made; pulls beyond it cost nothing.
#[derive(Debug, PartialEq, Eq)]
pub struct ListIter {
    list: ListRef,
    size: u64,
    position: u64,
}

/// The exchanges `d` are those of reading the value at `index` of `list`,
/// and `r` is what they come to.
pub open spec fn value_at_run(
    list: Handle,
    index: u64,
    d: Seq<Exchange>,
    r: Result<ValueView, MgpError>,
) -> bool {
    &&& d.len() >= 1
    &&& d[0].asks(Entry::ListAt { list, index }, Seq::empty())
    &&& match d[0].reply.spec_handle_or(MgpError::UnableToAccessListValueByIndex) {
        Err(e) => d.len() == 1 && r == Err::<ValueView, MgpError>(e),
        Ok(value) => decode_run(value, d.skip(1), r),
    }
}

/// The exchanges `d` are those of copying the values of `source` from
/// `index` on into `copy`, and `r` is what they come to. Each value is read
/// and appended in turn; the first failure ends the copy, and the unfinished
/// `copy` is released before the failure is returned.
pub open spec fn copy_fill_run(
    source: Handle,
    copy: Handle,
    index: u64,
    size: u64,
    d: Seq<Exchange>,
    r: Result<Handle, MgpError>,
) -> bool
    decreases size - index,
{
    if index >= size {
        d.len() == 0 && r == Ok::<Handle, MgpError>(copy)
    } else {
        &&& d.len() >= 1
        &&& d[0].asks(Entry::ListAt { list: source, index }, Seq::empty())
        &&& match d[0].reply.spec_handle_or(MgpError::UnableToCopyList) {
            Err(e) => {
                &&& d.len() == 2
                &&& d[1].asks(Entry::Destroy { kind: Kind::List, object: copy }, Seq::empty())
                &&& r == Err::<Handle, MgpError>(e)
            },
            Ok(value) => {
                &&& d.len() >= 2
                &&& d[1].asks(Entry::ListAppend { list: copy, value }, Seq::empty())
                &&& match d[1].reply.spec_done_or(MgpError::UnableToCopyList) {
                    Err(e) => {
                        &&& d.len() == 3
                        &&& d[2].asks(
                            Entry::Destroy { kind: Kind::List, object: copy },
                            Seq::empty(),
                        )
                        &&& r == Err::<Handle, MgpError>(e)
                    },
                    Ok(_) => copy_fill_run(source, copy, (index + 1) as u64, size, d.skip(2), r),
                }
            },
        }
    }
}

/// The exchanges `d` are those of copying the list `source`, and `r` is what
/// they come to: the size is asked for, a list of that capacity is made, and
/// the values are copied over one by one.
pub open spec fn copy_run(source: Handle, d: Seq<Exchange>, r: Result<Handle, MgpError>) -> bool {
    &&& d.len() >= 1
    &&& d[0].asks(Entry::ListSize { list: source }, Seq::empty())
    &&& match d[0].reply.spec_size_or(MgpError::UnableToCopyList) {
        Err(e) => d.len() == 1 && r == Err::<Handle, MgpError>(e),
        Ok(size) => {
            &&& d.len() >= 2
            &&& d[1].asks(Entry::ListMakeEmpty { capacity: size }, Seq::empty())
            &&& match d[1].reply.spec_handle_or(MgpError::UnableToCreateEmptyList) {
                Err(e) => d.len() == 2 && r == Err::<Handle, MgpError>(e),
                Ok(copy) => copy_fill_run(source, copy, 0, size, d.skip(2), r),
            }
        },
    }
}

/// The first `n` of the exchanges `d` are those of reading the value at
/// `index` of `list`, with the outcome `first`.
pub open spec fn values_split(
    list: Handle,
    index: u64,
    d: Seq<Exchange>,
    n: int,
    first: Result<ValueView, MgpError>,
) -> bool {
    0 <= n <= d.len() && value_at_run(list, index, d.take(n), first)
}

/// The exchanges `d` are those of reading the values of `list` from `index`
/// up to `size`, in order and up to the first failure, and `r` is what they
/// come to when `read` holds the values before `index`.
pub open spec fn values_run(
    list: Handle,
    index: u64,
    size: u64,
    read: Seq<ValueView>,
    d: Seq<Exchange>,
    r: Result<Seq<ValueView>, MgpError>,
) -> bool
    decreases size - index,
{
    if index >= size {
        d.len() == 0 && r == Ok::<Seq<ValueView>, MgpError>(read)
    } else {
        exists|n: int, first: Result<ValueView, MgpError>|
            #![trigger values_split(list, index, d, n, first)]
            values_split(list, index, d, n, first) && match first {
                Err(e) => n == d.len() && r == Err::<Seq<ValueView>, MgpError>(e),
                Ok(value) => values_run(
                    list,
                    (index + 1) as u64,
                    size,
                    read.push(value),
                    d.skip(n),
                    r,
                ),
            }
    }
}

/// The exchanges `d` are those of reading every value of `list`, and `r` is
/// what they come to: the size is asked for, and then the values in order.
pub open spec fn to_vec_run(list: Handle, d: Seq<Exchange>, r: Result<Seq<ValueView>, MgpError>) -> bool {
    &&& d.len() >= 1
    &&& d[0].asks(Entry::ListSize { list }, Seq::empty())
    &&& match d[0].reply.spec_size_or(MgpError::UnableToGetListSize) {
        Err(e) => d.len() == 1 && r == Err::<Seq<ValueView>, MgpError>(e),
        Ok(size) => values_run(list, 0, size, Seq::empty(), d.skip(1), r),
    }
}

/// Values taken by their views.
pub open spec fn views_of(values: Seq<Value>) -> Seq<ValueView> {
    values.map_values(|value: Value| value@)
}

/// A result that carries values, with the values taken by their views.
pub open spec fn values_result(r: Result<Vec<Value>, MgpError>) -> Result<Seq<ValueView>, MgpError> {
    match r {
        Ok(values) => Ok(views_of(values@)),
        Err(e) => Err(e),
    }
}

/// What is still to come of a reading that has reached `index`.
#[verifier::opaque]
spec fn values_pending(
    list: Handle,
    index: u64,
    size: u64,
    read: Seq<ValueView>,
    d: Seq<Exchange>,
    r: Result<Seq<ValueView>, MgpError>,
) -> bool {
    values_run(list, index, size, read, d, r)
}

/// A value that cannot be read ends the reading with its failure.
proof fn lemma_values_stop(
    list: Handle,
    index: u64,
    size: u64,
    read: Seq<ValueView>,
    step: Seq<Exchange>,
    e: MgpError,
)
    requires
        index < size,
        value_at_run(list, index, step, Err::<ValueView, MgpError>(e)),
    ensures
        values_run(list, index, size, read, step, Err::<Seq<ValueView>, MgpError>(e)),
{
    assert(step.take(step.len() as int) =~= step);
    assert(values_split(list, index, step, step.len() as int, Err::<ValueView, MgpError>(e)));
}

/// A value that is read is followed by the values after it.
proof fn lemma_values_step(
    list: Handle,
    index: u64,
    size: u64,
    read: Seq<ValueView>,
    step: Seq<Exchange>,
    value: ValueView,
    tail: Seq<Exchange>,
    end: Result<Seq<ValueView>, MgpError>,
)
    requires
        index < size,
        value_at_run(list, index, step, Ok::<ValueView, MgpError>(value)),
        values_run(list, (index + 1) as u64, size, read.push(value), tail, end),
    ensures
        values_run(list, index, size, read, step + tail, end),
{
    let whole = step + tail;
    assert(whole.take(step.len() as int) =~= step);
    assert(whole.skip(step.len() as int) =~= tail);
    assert(values_split(list, index, whole, step.len() as int, Ok::<ValueView, MgpError>(value)));
}

/// What is still to come of a copy that has reached `index`.
#[verifier::opaque]
spec fn copy_pending(
    source: Handle,
    copy: Handle,
    index: u64,
    size: u64,
    d: Seq<Exchange>,
    r: Result<Handle, MgpError>,
) -> bool {
    copy_fill_run(source, copy, index, size, d, r)
}

/// A result that carries an owned list, with the list taken by its handle.
pub open spec fn list_result(r: Result<List, MgpError>) -> Result<Handle, MgpError> {
    match r {
        Ok(list) => Ok(list.spec_as_ref().handle),
        Err(e) => Err(e),
    }
}

impl ListRef {
    /// A view of the list behind `handle`.
    pub fn new(handle: Handle) -> (list: ListRef)
        ensures
            list.handle == handle,
    {
        ListRef { handle }
    }

    /// The number of values in the list.
    pub fn size<H: Host>(&self, mg: &mut Memgraph<H>) -> (r: Result<u64, MgpError>)
        ensures
            final(mg).one_call(*old(mg), Entry::ListSize { list: self.handle }, Seq::empty()),
            r == final(mg).answer().reply.spec_size_or(MgpError::UnableToGetListSize),
            final(mg).balanced(*old(mg), None),
    {
        mg.call(Entry::ListSize { list: self.handle }).size_or(MgpError::UnableToGetListSize)
    }

    /// The number of values the list has room for.
    pub fn capacity<H: Host>(&self, mg: &mut Memgraph<H>) -> (r: Result<u64, MgpError>)
        ensures
            final(mg).one_call(*old(mg), Entry::ListCapacity { list: self.handle }, Seq::empty()),
            r == final(mg).answer().reply.spec_size_or(MgpError::UnableToGetListCapacity),
            final(mg).balanced(*old(mg), None),
    {
        mg.call(Entry::ListCapacity { list: self.handle }).size_or(
            MgpError::UnableToGetListCapacity,
        )
    }

    /// The value at `index`. The host decides whether the index is in range.
    pub fn value_at<H: Host>(&self, index: u64, mg: &mut Memgraph<H>) -> (r: Result<
        Value,
        MgpError,
    >)
        ensures
            final(mg).continues(*old(mg)),
            value_at_run(self.handle, index, final(mg).since(*old(mg)), value_result(r)),
            final(mg).balanced(*old(mg), None),
    {
        let ghost s0 = *mg;
        let reply = mg.call(Entry::ListAt { list: self.handle, index });
        let ghost s1 = *mg;
        match reply.handle_or(MgpError::UnableToAccessListValueByIndex) {
            Err(e) => Err(e),
            Ok(value) => {
                let r = Value::decode(value, mg);
                proof {
                    lemma_continues_chain(s0, s1, *mg);
                    assert(mg.since(s0).skip(1) =~= mg.since(s1));
                }
                r
            },
        }
    }

    /// Makes an owned copy of the list, value by value. On failure nothing
    /// is left behind: a copy that was begun is released.
    #[verifier::loop_isolation(false)]
    pub fn copy<H: Host>(&self, mg: &mut Memgraph<H>) -> (r: Result<List, MgpError>)
        ensures
            final(mg).continues(*old(mg)),
            copy_run(self.handle, final(mg).since(*old(mg)), list_result(r)),
            match r {
                Ok(list) => final(mg).balanced(*old(mg), Some(list.token())),
                Err(_) => final(mg).balanced(*old(mg), None),
            },
    {
        let ghost s0 = *mg;
        let source = self.handle;
        let asked = mg.call(Entry::ListSize { list: source });
        let ghost s1 = *mg;
        let size = match asked.size_or(MgpError::UnableToCopyList) {
            Ok(size) => size,
            Err(e) => {
                return Err(e);
            },
        };
        let copy = match List::make_empty(size, mg) {
            Ok(copy) => copy,
            Err(e) => {
                proof {
                    lemma_continues_chain(s0, s1, *mg);
                    assert(mg.since(s1) =~= seq![mg.answer()]);
                    assert(mg.since(s0) =~= seq![s1.answer(), mg.answer()]);
                }
                return Err(e);
            },
        };
        let ghost s2 = *mg;
        let ghost target = copy.handle;
        proof {
            lemma_continues_chain(s0, s1, s2);
            assert(s2.since(s1) =~= seq![s2.answer()]);
            assert(s2.since(s0) =~= seq![s1.answer(), s2.answer()]);
            assert(s2.since(s2) =~= Seq::<Exchange>::empty());
            assert forall|tail: Seq<Exchange>, end: Result<Handle, MgpError>| #[trigger]
                copy_pending(source, target, 0, size, tail, end) implies copy_fill_run(
                source,
                target,
                0,
                size,
                s2.since(s2) + tail,
                end,
            ) by {
                reveal(copy_pending);
                assert(s2.since(s2) + tail =~= tail);
            }
        }
        let mut index: u64 = 0;
        while index < size
            invariant
                index <= size,
                copy.handle == target,
                copy.token() == (Token { kind: Kind::List, handle: target }),
                mg.continues(s2),
                mg.balanced(s2, None),
                forall|tail: Seq<Exchange>, end: Result<Handle, MgpError>| #[trigger]
                    copy_pending(source, target, index, size, tail, end) ==> copy_fill_run(
                        source,
                        target,
                        0,
                        size,
                        mg.since(s2) + tail,
                        end,
                    ),
            decreases size - index,
        {
            let ghost a = *mg;
            let read = mg.call(Entry::ListAt { list: source, index });
            let ghost b = *mg;
            match read.handle_or(MgpError::UnableToCopyList) {
                Err(e) => {
                    copy.release(mg);
                    proof {
                        let tail = seq![b.answer(), mg.answer()];
                        lemma_continues_chain(a, b, *mg);
                        lemma_continues_chain(s2, a, *mg);
                        assert(mg.since(a) =~= tail);
                        assert(copy_pending(source, target, index, size, tail, Err(e))) by {
                            reveal(copy_pending);
                        }
                        lemma_continues_chain(s0, s2, *mg);
                        assert(mg.since(s0).skip(2) =~= mg.since(s2));
                    }
                    return Err(e);
                },
                Ok(value) => {
                    let appended = mg.call(Entry::ListAppend { list: copy.handle, value });
                    let ghost c = *mg;
                    match appended.done_or(MgpError::UnableToCopyList) {
                        Err(e) => {
                            copy.release(mg);
                            proof {
                                let tail = seq![b.answer(), c.answer(), mg.answer()];
                                lemma_continues_chain(a, b, c);
                                lemma_continues_chain(a, c, *mg);
                                lemma_continues_chain(s2, a, *mg);
                                assert(mg.since(a) =~= tail);
                                assert(copy_pending(source, target, index, size, tail, Err(e))) by {
                                    reveal(copy_pending);
                                }
                                lemma_continues_chain(s0, s2, *mg);
                                assert(mg.since(s0).skip(2) =~= mg.since(s2));
                            }
                            return Err(e);
                        },
                        Ok(_) => {
                            proof {
                                let step = seq![b.answer(), c.answer()];
                                lemma_continues_chain(a, b, c);
                                lemma_continues_chain(s2, a, c);
                                assert(c.since(a) =~= step);
                                assert forall|tail: Seq<Exchange>, end: Result<Handle, MgpError>|
                                    #[trigger] copy_pending(
                                        source,
                                        target,
                                        (index + 1) as u64,
                                        size,
                                        tail,
                                        end,
                                    ) implies copy_fill_run(
                                    source,
                                    target,
                                    0,
                                    size,
                                    c.since(s2) + tail,
                                    end,
                                ) by {
                                    reveal(copy_pending);
                                    assert((step + tail).skip(2) =~= tail);
                                    assert(copy_pending(source, target, index, size, step + tail, end));
                                    assert(c.since(s2) + tail =~= a.since(s2) + (step + tail));
                                }
                            }
                        },
                    }
                },
            }
            index = index + 1;
        }
        proof {
            assert(copy_pending(
                source,
                target,
                index,
                size,
                Seq::<Exchange>::empty(),
                Ok::<Handle, MgpError>(target),
            )) by {
                reveal(copy_pending);
            }
            assert(mg.since(s2) + Seq::<Exchange>::empty() =~= mg.since(s2));
            lemma_continues_chain(s0, s2, *mg);
            assert(mg.since(s0).skip(2) =~= mg.since(s2));
        }
        Ok(copy)
    }

    /// Reads every value of the list, in order. The first value that cannot
    /// be read ends the reading.
    #[verifier::loop_isolation(false)]
    pub fn to_vec<H: Host>(&self, mg: &mut Memgraph<H>) -> (r: Result<Vec<Value>, MgpError>)
        ensures
            final(mg).continues(*old(mg)),
            final(mg).balanced(*old(mg), None),
            to_vec_run(self.handle, final(mg).since(*old(mg)), values_result(r)),
    {
        let ghost s0 = *mg;
        let list = self.handle;
        let size = match self.size(mg) {
            Ok(size) => size,
            Err(e) => {
                return Err(e);
            },
        };
        let ghost s1 = *mg;
        let mut values: Vec<Value> = Vec::new();
        let mut index: u64 = 0;
        proof {
            assert(s1.since(s1) =~= Seq::<Exchange>::empty());
            assert(s1.trace() + Seq::<Exchange>::empty() =~= s1.trace());
            assert(views_of(values@) =~= Seq::<ValueView>::empty());
            assert forall|tail: Seq<Exchange>, end: Result<Seq<ValueView>, MgpError>| #[trigger]
                values_pending(list, 0, size, Seq::empty(), tail, end) implies values_run(
                list,
                0,
                size,
                Seq::empty(),
                s1.since(s1) + tail,
                end,
            ) by {
                reveal(values_pending);
                assert(s1.since(s1) + tail =~= tail);
            }
        }
        while index < size
            invariant
                index <= size,
                mg.continues(s1),
                mg.balanced(s1, None),
                forall|tail: Seq<Exchange>, end: Result<Seq<ValueView>, MgpError>| #[trigger]
                    values_pending(list, index, size, views_of(values@), tail, end)
                        ==> values_run(list, 0, size, Seq::empty(), mg.since(s1) + tail, end),
            decreases size - index,
        {
            let ghost a = *mg;
            let ghost read = views_of(values@);
            let pulled = self.value_at(index, mg);
            proof {
                lemma_continues_chain(s1, a, *mg);
            }
            let ghost step = mg.since(a);
            match pulled {
                Err(e) => {
                    proof {
                        assert(values_pending(
                            list,
                            index,
                            size,
                            read,
                            step,
                            Err::<Seq<ValueView>, MgpError>(e),
                        )) by {
                            reveal(values_pending);
                            lemma_values_stop(list, index, size, read, step, e);
                        }
                        assert(mg.since(s1) =~= a.since(s1) + step);
                        lemma_continues_chain(s0, s1, *mg);
                        assert(mg.since(s0).skip(1) =~= mg.since(s1));
                    }
                    return Err(e);
                },
                Ok(value) => {
                    let ghost view = value@;
                    values.push(value);
                    proof {
                        assert(views_of(values@) =~= read.push(view));
                        assert forall|tail: Seq<Exchange>, end: Result<Seq<ValueView>, MgpError>|
                            #[trigger] values_pending(
                                list,
                                (index + 1) as u64,
                                size,
                                views_of(values@),
                                tail,
                                end,
                            ) implies values_run(
                            list,
                            0,
                            size,
                            Seq::empty(),
                            mg.since(s1) + tail,
                            end,
                        ) by {
                            assert(values_pending(list, index, size, read, step + tail, end)) by {
                                reveal(values_pending);
                                lemma_values_step(list, index, size, read, step, view, tail, end);
                            }
                            assert(mg.since(s1) + tail =~= a.since(s1) + (step + tail));
                        }
                    }
                },
            }
            index = index + 1;
        }
        proof {
            assert(values_pending(
                list,
                index,
                size,
                views_of(values@),
                Seq::<Exchange>::empty(),
                Ok::<Seq<ValueView>, MgpError>(views_of(values@)),
            )) by {
                reveal(values_pending);
            }
            assert(mg.since(s1) + Seq::<Exchange>::empty() =~= mg.since(s1));
            lemma_continues_chain(s0, s1, *mg);
            assert(mg.since(s0).skip(1) =~= mg.since(s1));
        }
        Ok(values)
    }

    /// Starts a pass over the list. The size is asked for here, so this
    /// fails as [`ListRef::size`] does.
    pub fn iter<H: Host>(&self, mg: &mut Memgraph<H>) -> (r: Result<ListIter, MgpError>)
        ensures
            final(mg).one_call(*old(mg), Entry::ListSize { list: self.handle }, Seq::empty()),
            final(mg).balanced(*old(mg), None),
            match final(mg).answer().reply.spec_size_or(MgpError::UnableToGetListSize) {
                Ok(size) => r matches Ok(iter) && iter.spec_list() == *self && iter.spec_size()
                    == size && iter.spec_position() == 0,
                Err(e) => r == Err::<ListIter, MgpError>(e),
            },
    {
        match self.size(mg) {
            Ok(size) => Ok(ListIter { list: *self, size, position: 0 }),
            Err(e) => Err(e),
        }
    }
}

impl ListIter {
    pub closed spec fn spec_list(&self) -> ListRef {
        self.list
    }

    /// The size that the host reported when the pass began.
    pub closed spec fn spec_size(&self) -> u64 {
        self.size
    }

    /// The index of the value that the next pull reads.
    pub closed spec fn spec_position(&self) -> u64 {
        self.position
    }

    /// How many values are still to come.
    pub open spec fn spec_remaining(&self) -> int {
        if self.spec_position() < self.spec_size() {
            self.spec_size() - self.spec_position()
        } else {
            0
        }
    }

    /// How many values are still to come.
    pub fn remaining(&self) -> (n: u64)
        ensures
            n == self.spec_remaining(),
    {
        if self.position < self.size {
            self.size - self.position
        } else {
            0
        }
    }

    /// Pulls the next value. At the end of the list this returns `None`
    /// without a call to the host. A value that cannot be read ends the pass:
    /// the failure is returned once, and every later pull returns `None`.
    pub fn next<H: Host>(&mut self, mg: &mut Memgraph<H>) -> (r: Option<Result<Value, MgpError>>)
        ensures
            final(mg).continues(*old(mg)),
            final(mg).balanced(*old(mg), None),
            final(self).spec_list() == old(self).spec_list(),
            final(self).spec_size() == old(self).spec_size(),
            old(self).spec_remaining() == 0 ==> r is None && final(mg).silent(*old(mg))
                && *final(self) == *old(self),
            old(self).spec_remaining() > 0 ==> {
                &&& r matches Some(pulled)
                &&& value_at_run(
                    old(self).spec_list().handle,
                    old(self).spec_position(),
                    final(mg).since(*old(mg)),
                    value_result(pulled),
                )
                &&& pulled is Ok ==> final(self).spec_position() == old(self).spec_position() + 1
                &&& pulled is Err ==> final(self).spec_position() == old(self).spec_size()
            },
    {
        if self.position >= self.size {
            assert(mg.since(*mg) =~= Seq::<Exchange>::empty());
            return None;
        }
        let pulled = self.list.value_at(self.position, mg);
        match &pulled {
            Ok(_) => {
                self.position = self.position + 1;
            },
            Err(_) => {
                self.position = self.size;
            },
        }
        Some(pulled)
    }
}

impl List {
    /// The object that this list stands for in the account of owned objects.
    pub open spec fn token(&self) -> Token {
        Token { kind: Kind::List, handle: self.spec_as_ref().handle }
    }

    pub closed spec fn spec_as_ref(&self) -> ListRef {
        ListRef { handle: self.handle }
    }

    /// A borrowed view of this list, through which it is read.
    #[verifier::when_used_as_spec(spec_as_ref)]
    pub fn as_ref(&self) -> (list: ListRef)
        ensures
            list == self.spec_as_ref(),
            self.token() == (Token { kind: Kind::List, handle: list.handle }),
    {
        ListRef { handle: self.handle }
    }

    /// Asks the host for a new, empty list with room for `capacity` values.
    pub fn make_empty<H: Host>(capacity: u64, mg: &mut Memgraph<H>) -> (r: Result<List, MgpError>)
        ensures
            final(mg).one_call(*old(mg), Entry::ListMakeEmpty { capacity }, Seq::empty()),
            match final(mg).answer().reply.spec_handle_or(MgpError::UnableToCreateEmptyList) {
                Ok(handle) => r matches Ok(list) && list.spec_as_ref().handle == handle
                    && final(mg).balanced(*old(mg), Some(list.token())),
                Err(e) => r == Err::<List, MgpError>(e) && final(mg).balanced(*old(mg), None),
            },
    {
        let reply = mg.call(Entry::ListMakeEmpty { capacity });
        match reply.handle_or(MgpError::UnableToCreateEmptyList) {
            Ok(handle) => Ok(List { handle }),
            Err(e) => Err(e),
        }
    }

    /// Appends `value` to the list, which must have room for it. The list
    /// gets a copy: what `value` borrows is left as it was.
    pub fn append<H: Host>(&self, value: &Value, mg: &mut Memgraph<H>) -> (r: Result<(), MgpError>)
        ensures
            final(mg).continues(*old(mg)),
            give_run(
                Target::ListAppend { list: self.spec_as_ref().handle },
                Seq::empty(),
                value@,
                final(mg).since(*old(mg)),
                r,
            ),
            final(mg).balanced(*old(mg), None),
    {
        let none: Vec<u8> = Vec::new();
        value.give(Target::ListAppend { list: self.handle }, none.as_slice(), mg)
    }

    /// Appends `value` to the list, which grows if it has no room left. The
    /// list gets a copy: what `value` borrows is left as it was.
    pub fn append_extend<H: Host>(&self, value: &Value, mg: &mut Memgraph<H>) -> (r: Result<
        (),
        MgpError,
    >)
        ensures
            final(mg).continues(*old(mg)),
            give_run(
                Target::ListAppendExtend { list: self.spec_as_ref().handle },
                Seq::empty(),
                value@,
                final(mg).since(*old(mg)),
                r,
            ),
            final(mg).balanced(*old(mg), None),
    {
        let none: Vec<u8> = Vec::new();
        value.give(Target::ListAppendExtend { list: self.handle }, none.as_slice(), mg)
    }

    /// Hands the list back to the host. The list is consumed, so it cannot
    /// be released a second time.
    pub fn release<H: Host>(self, mg: &mut Memgraph<H>)
        ensures
            final(mg).one_call(
                *old(mg),
                Entry::Destroy { kind: Kind::List, object: self.spec_as_ref().handle },
                Seq::empty(),
            ),
            final(mg).gave_up(*old(mg), self.token()),
    {
        mg.destroy(Kind::List, self.handle);
    }

    /// Gives up the wrapper and leaves its handle, with the duty to release
    /// it or to pass it on, to the caller.
    pub(crate) fn into_handle(self) -> (handle: Handle)
        ensures
            handle == self.spec_as_ref().handle,
            self.token() == (Token { kind: Kind::List, handle }),
    {
        self.handle
    }
}

} // verus!
