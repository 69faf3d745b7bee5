//! The protocol by which the host's iterators are walked, shared by every
//! lazy sequence but the list.

use vstd::prelude::*;
use crate::memgraph::{lemma_continues_chain, Memgraph};
use crate::mgp::{Entry, Exchange, Handle, Host, Kind, Token};
use crate::result::MgpError;
use crate::value::{decode_run, Value, ValueView};

verus! {

/// An iterator of the host that this layer owns, and the item it stands at.
/// The first item is fetched when the cursor is opened, so that an empty
/// sequence is known to be empty before the first pull.
#[derive(Debug, PartialEq, Eq)]
pub struct Cursor {
    iterator: Handle,
    kind: Kind,
    current: Handle,
    fresh: bool,
}

/// A result that carries a cursor, with the cursor taken by its state.
pub open spec fn cursor_result(r: Result<Cursor, MgpError>) -> Result<(Handle, Handle), MgpError> {
    match r {
        Ok(cursor) => Ok((cursor.spec_iterator(), cursor.spec_current())),
        Err(e) => Err(e),
    }
}

/// The exchanges `d` are those of opening a cursor with the call `entry`,
/// and `r`, the iterator and its first item, is what they come to. If the
/// first item cannot be fetched the iterator is released again.
pub open spec fn open_run(
    entry: Entry,
    kind: Kind,
    error: MgpError,
    d: Seq<Exchange>,
    r: Result<(Handle, Handle), MgpError>,
) -> bool {
    &&& d.len() >= 1
    &&& d[0].asks(entry, Seq::empty())
    &&& match d[0].reply.spec_handle_or(error) {
        Err(e) => d.len() == 1 && r == Err::<(Handle, Handle), MgpError>(e),
        Ok(iterator) => {
            &&& d.len() >= 2
            &&& d[1].asks(Entry::IteratorGet { kind, iterator }, Seq::empty())
            &&& match d[1].reply.spec_handle_or(error) {
                Ok(first) => d.len() == 2 && r == Ok::<(Handle, Handle), MgpError>(
                    (iterator, first),
                ),
                Err(e) => {
                    &&& d.len() == 3
                    &&& d[2].asks(Entry::Destroy { kind, object: iterator }, Seq::empty())
                    &&& r == Err::<(Handle, Handle), MgpError>(e)
                },
            }
        },
    }
}

/// A name and a value read from the host, with both taken by their views.
pub open spec fn pair_result(r: Result<(Vec<u8>, Value), MgpError>) -> Result<
    (Seq<u8>, ValueView),
    MgpError,
> {
    match r {
        Ok(pair) => Ok((pair.0@, pair.1@)),
        Err(e) => Err(e),
    }
}

/// The value half of the outcome of reading a pair.
pub open spec fn pair_value(r: Result<(Seq<u8>, ValueView), MgpError>) -> Result<
    ValueView,
    MgpError,
> {
    match r {
        Ok(pair) => Ok(pair.1),
        Err(e) => Err(e),
    }
}

/// The exchanges `d` are those of reading the pair behind `pair`, which an
/// iterator of `kind` stood at, and `r` is what they come to: the name is
/// read, then the value is fetched and read.
pub open spec fn pair_run(
    kind: Kind,
    pair: Handle,
    error: MgpError,
    d: Seq<Exchange>,
    r: Result<(Seq<u8>, ValueView), MgpError>,
) -> bool {
    &&& d.len() >= 1
    &&& d[0].asks(Entry::PairName { kind, pair }, Seq::empty())
    &&& match d[0].reply.spec_text_or(error) {
        Err(e) => d.len() == 1 && r == Err::<(Seq<u8>, ValueView), MgpError>(e),
        Ok(name) => {
            &&& d.len() >= 2
            &&& d[1].asks(Entry::PairValue { kind, pair }, Seq::empty())
            &&& match d[1].reply.spec_handle_or(error) {
                Err(e) => d.len() == 2 && r == Err::<(Seq<u8>, ValueView), MgpError>(e),
                Ok(value) => {
                    &&& decode_run(value, d.skip(2), pair_value(r))
                    &&& r matches Ok(pair) ==> pair.0 == name
                },
            }
        },
    }
}

/// The outcome of a pull that reads a pair, with the pair taken by its views.
pub open spec fn pulled_pair(r: Option<Result<(Vec<u8>, Value), MgpError>>) -> Option<
    Result<(Seq<u8>, ValueView), MgpError>,
> {
    match r {
        Some(read) => Some(pair_result(read)),
        None => None,
    }
}

/// The exchanges `d` are those of pulling the next pair from `cursor`, and
/// `r` is what they come to: the cursor moves if it has to, and the pair it
/// then stands at is read. At the end there is nothing to read.
pub open spec fn next_pair_run(
    cursor: Cursor,
    error: MgpError,
    d: Seq<Exchange>,
    r: Option<Result<(Seq<u8>, ValueView), MgpError>>,
) -> bool {
    &&& cursor.pull_calls() <= d.len()
    &&& cursor.pull_asks(d)
    &&& match cursor.pulled(d) {
        Err(e) => d.len() == cursor.pull_calls() && r == Some(
            Err::<(Seq<u8>, ValueView), MgpError>(e),
        ),
        Ok(pair) => if pair.spec_is_null() {
            d.len() == cursor.pull_calls() && r is None
        } else {
            &&& r matches Some(read)
            &&& pair_run(cursor.spec_kind(), pair, error, d.skip(cursor.pull_calls() as int), read)
        },
    }
}

/// The exchanges `d` are those of pulling the next object from `cursor`, and
/// `r` is what they come to: the cursor moves if it has to, and the host is
/// asked for a copy of the object it then stands at, which the caller owns.
pub open spec fn next_copy_run(
    cursor: Cursor,
    kind: Kind,
    error: MgpError,
    d: Seq<Exchange>,
    r: Option<Result<Handle, MgpError>>,
) -> bool {
    &&& cursor.pull_calls() <= d.len()
    &&& cursor.pull_asks(d)
    &&& match cursor.pulled(d) {
        Err(e) => d.len() == cursor.pull_calls() && r == Some(Err::<Handle, MgpError>(e)),
        Ok(object) => if object.spec_is_null() {
            d.len() == cursor.pull_calls() && r is None
        } else {
            &&& d.len() == cursor.pull_calls() + 1
            &&& d[cursor.pull_calls() as int].asks(Entry::Copy { kind, object }, Seq::empty())
            &&& r == Some(d[cursor.pull_calls() as int].reply.spec_handle_or(error))
        },
    }
}

/// The account of owned objects after a pull that may have yielded an owned
/// object of `kind`.
pub open spec fn kept_of(kind: Kind, r: Option<Result<Handle, MgpError>>) -> Option<Token> {
    match r {
        Some(Ok(handle)) => Some(Token { kind, handle }),
        _ => None,
    }
}

/// Reads the pair behind `pair`. The value is a view into the pair: it is
/// valid for as long as the iterator stands at it.
pub(crate) fn read_pair<H: Host>(
    kind: Kind,
    pair: Handle,
    error: MgpError,
    mg: &mut Memgraph<H>,
) -> (r: Result<(Vec<u8>, Value), MgpError>)
    ensures
        final(mg).continues(*old(mg)),
        final(mg).balanced(*old(mg), None),
        pair_run(kind, pair, error, final(mg).since(*old(mg)), pair_result(r)),
{
    let ghost s0 = *mg;
    let named = mg.call(Entry::PairName { kind, pair });
    let ghost s1 = *mg;
    let name = match named.text_or(error) {
        Ok(name) => name,
        Err(e) => {
            return Err(e);
        },
    };
    let fetched = mg.call(Entry::PairValue { kind, pair });
    let ghost s2 = *mg;
    proof {
        lemma_continues_chain(s0, s1, s2);
        assert(s2.since(s0) =~= seq![s1.answer(), s2.answer()]);
    }
    let value = match fetched.handle_or(error) {
        Ok(value) => value,
        Err(e) => {
            return Err(e);
        },
    };
    let read = Value::decode(value, mg);
    proof {
        lemma_continues_chain(s0, s2, *mg);
        assert(mg.since(s0).skip(2) =~= mg.since(s2));
    }
    match read {
        Ok(value) => Ok((name, value)),
        Err(e) => Err(e),
    }
}

impl Cursor {
    /// The iterator of the host that this cursor owns.
    pub closed spec fn spec_iterator(&self) -> Handle {
        self.iterator
    }

    pub closed spec fn spec_kind(&self) -> Kind {
        self.kind
    }

    /// The item at which the iterator stands; null at the end.
    pub closed spec fn spec_current(&self) -> Handle {
        self.current
    }

    /// Whether the item at which the iterator stands has yet to be pulled.
    pub closed spec fn spec_fresh(&self) -> bool {
        self.fresh
    }

    /// The object that this cursor stands for in the account of owned objects.
    pub open spec fn token(&self) -> Token {
        Token { kind: self.spec_kind(), handle: self.spec_iterator() }
    }

    /// Whether the end of the sequence has been reached.
    pub open spec fn spec_finished(&self) -> bool {
        self.spec_current().spec_is_null()
    }

    /// How many calls the next pull makes: none while the first item is
    /// waiting or when the end has been reached, else one.
    pub open spec fn pull_calls(&self) -> nat {
        if self.spec_finished() || self.spec_fresh() {
            0
        } else {
            1
        }
    }

    /// The item that the next pull yields, given the exchanges `d` that the
    /// pull makes: null at the end.
    pub open spec fn pulled(&self, d: Seq<Exchange>) -> Result<Handle, MgpError> {
        if self.spec_finished() || self.spec_fresh() {
            Ok(self.spec_current())
        } else {
            d[0].reply.spec_handle_or(MgpError::UnableToAdvanceIterator)
        }
    }

    /// The exchanges `d` begin with those of a pull on this cursor.
    pub open spec fn pull_asks(&self, d: Seq<Exchange>) -> bool {
        self.pull_calls() == 1 ==> d.len() >= 1 && d[0].asks(
            Entry::IteratorNext { kind: self.spec_kind(), iterator: self.spec_iterator() },
            Seq::empty(),
        )
    }

    /// Whether the end of the sequence has been reached.
    #[verifier::when_used_as_spec(spec_finished)]
    pub fn finished(&self) -> (b: bool)
        ensures
            b == self.spec_finished(),
    {
        self.current.is_null()
    }

    /// Opens a cursor: `entry` asks the host for an iterator of `kind`, and
    /// the first item is fetched at once.
    pub(crate) fn open<H: Host>(entry: Entry, kind: Kind, error: MgpError, mg: &mut Memgraph<H>) -> (r:
        Result<Cursor, MgpError>)
        requires
            entry.grants() == Some(kind),
            !(entry is ValueMakeFrom),
            !(entry is Destroy),
        ensures
            final(mg).continues(*old(mg)),
            open_run(entry, kind, error, final(mg).since(*old(mg)), cursor_result(r)),
            match r {
                Ok(cursor) => {
                    &&& cursor.spec_kind() == kind
                    &&& cursor.spec_fresh()
                    &&& final(mg).balanced(*old(mg), Some(cursor.token()))
                },
                Err(_) => final(mg).balanced(*old(mg), None),
            },
    {
        let ghost s0 = *mg;
        let made = mg.call(entry);
        let ghost s1 = *mg;
        let iterator = match made.handle_or(error) {
            Ok(iterator) => iterator,
            Err(e) => {
                return Err(e);
            },
        };
        let got = mg.call(Entry::IteratorGet { kind, iterator });
        let ghost s2 = *mg;
        proof {
            lemma_continues_chain(s0, s1, s2);
            assert(s2.since(s0) =~= seq![s1.answer(), s2.answer()]);
        }
        match got.handle_or(error) {
            Ok(current) => Ok(Cursor { iterator, kind, current, fresh: true }),
            Err(e) => {
                mg.destroy(kind, iterator);
                proof {
                    lemma_continues_chain(s0, s2, *mg);
                    assert(mg.since(s0) =~= seq![s1.answer(), s2.answer(), mg.answer()]);
                }
                Err(e)
            },
        }
    }

    /// Moves to the item that is next to be read and returns it; null at the
    /// end. At the end, and for the first item, nothing is asked of the
    /// host. If the host fails to move on, the sequence ends there.
    pub(crate) fn pull<H: Host>(&mut self, mg: &mut Memgraph<H>) -> (r: Result<Handle, MgpError>)
        ensures
            final(mg).continues(*old(mg)),
            final(mg).balanced(*old(mg), None),
            final(mg).since(*old(mg)).len() == old(self).pull_calls(),
            old(self).pull_asks(final(mg).since(*old(mg))),
            r == old(self).pulled(final(mg).since(*old(mg))),
            final(self).spec_iterator() == old(self).spec_iterator(),
            final(self).spec_kind() == old(self).spec_kind(),
            !final(self).spec_fresh(),
            final(self).spec_current() == match r {
                Ok(item) => item,
                Err(_) => Handle::spec_null(),
            },
            old(self).pull_calls() == 0 ==> final(mg).silent(*old(mg)),
    {
        if self.current.is_null() || self.fresh {
            self.fresh = false;
            assert(mg.since(*mg) =~= Seq::<Exchange>::empty());
            assert(mg.trace() + Seq::<Exchange>::empty() =~= mg.trace());
            return Ok(self.current);
        }
        let reply = mg.call(Entry::IteratorNext { kind: self.kind, iterator: self.iterator });
        match reply.handle_or(MgpError::UnableToAdvanceIterator) {
            Ok(item) => {
                self.current = item;
                Ok(item)
            },
            Err(e) => {
                self.current = Handle::null();
                Err(e)
            },
        }
    }

    /// Pulls the next pair. At the end this returns `None` without a call to
    /// the host. A pair that cannot be read ends the sequence: the failure is
    /// returned once, and every later pull returns `None`. The value is valid
    /// until the next pull.
    pub(crate) fn next_pair<H: Host>(&mut self, error: MgpError, mg: &mut Memgraph<H>) -> (r: Option<
        Result<(Vec<u8>, Value), MgpError>,
    >)
        ensures
            final(mg).continues(*old(mg)),
            final(mg).balanced(*old(mg), None),
            next_pair_run(*old(self), error, final(mg).since(*old(mg)), pulled_pair(r)),
            final(self).spec_iterator() == old(self).spec_iterator(),
            final(self).spec_kind() == old(self).spec_kind(),
            !final(self).spec_fresh(),
            !(r matches Some(Ok(_))) ==> final(self).spec_finished(),
            old(self).spec_finished() ==> r is None && final(mg).silent(*old(mg)),
    {
        let ghost s0 = *mg;
        let pair = match self.pull(mg) {
            Ok(pair) => pair,
            Err(e) => {
                return Some(Err(e));
            },
        };
        if pair.is_null() {
            return None;
        }
        let ghost s1 = *mg;
        let read = read_pair(self.kind, pair, error, mg);
        proof {
            lemma_continues_chain(s0, s1, *mg);
            assert(mg.since(s0).skip(s1.since(s0).len() as int) =~= mg.since(s1));
            assert(old(self).pull_calls() == 1 ==> mg.since(s0)[0] == s1.since(s0)[0]);
        }
        if read.is_err() {
            self.finish();
        }
        Some(read)
    }

    /// Pulls the next object, as a copy of `kind` that the caller owns. At
    /// the end this returns `None` without a call to the host. An object that
    /// cannot be copied ends the sequence: the failure is returned once, and
    /// every later pull returns `None`.
    pub(crate) fn next_copy<H: Host>(&mut self, kind: Kind, error: MgpError, mg: &mut Memgraph<H>) -> (r:
        Option<Result<Handle, MgpError>>)
        ensures
            final(mg).continues(*old(mg)),
            final(mg).balanced(*old(mg), kept_of(kind, r)),
            next_copy_run(*old(self), kind, error, final(mg).since(*old(mg)), r),
            final(self).spec_iterator() == old(self).spec_iterator(),
            final(self).spec_kind() == old(self).spec_kind(),
            !final(self).spec_fresh(),
            !(r matches Some(Ok(_))) ==> final(self).spec_finished(),
            old(self).spec_finished() ==> r is None && final(mg).silent(*old(mg)),
    {
        let ghost s0 = *mg;
        let object = match self.pull(mg) {
            Ok(object) => object,
            Err(e) => {
                return Some(Err(e));
            },
        };
        if object.is_null() {
            return None;
        }
        let ghost s1 = *mg;
        let copied = mg.copy_object(kind, object, error);
        proof {
            lemma_continues_chain(s0, s1, *mg);
            assert(mg.since(s0) =~= s1.since(s0) + seq![mg.answer()]);
            assert(old(self).pull_calls() == 1 ==> mg.since(s0)[0] == s1.since(s0)[0]);
        }
        if copied.is_err() {
            self.finish();
        }
        Some(copied)
    }

    /// Ends the sequence where it stands: every later pull finds the end.
    pub(crate) fn finish(&mut self)
        ensures
            final(self).spec_iterator() == old(self).spec_iterator(),
            final(self).spec_kind() == old(self).spec_kind(),
            final(self).spec_finished(),
            !final(self).spec_fresh(),
    {
        self.current = Handle::null();
        self.fresh = false;
    }

    /// Hands the iterator back to the host. The cursor is consumed, so it
    /// cannot be released a second time.
    pub fn release<H: Host>(self, mg: &mut Memgraph<H>)
        ensures
            final(mg).one_call(
                *old(mg),
                Entry::Destroy { kind: self.spec_kind(), object: self.spec_iterator() },
                Seq::empty(),
            ),
            final(mg).gave_up(*old(mg), self.token()),
    {
        mg.destroy(self.kind, self.iterator);
    }
}

} // verus!
