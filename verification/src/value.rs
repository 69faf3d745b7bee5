//! The value model: every case a property value can take, and how a value of
//! the host is read into it.

use vstd::prelude::*;
use crate::edge::EdgeRef;
use crate::list::ListRef;
use crate::map::MapRef;
use crate::memgraph::{lemma_continues_chain, Memgraph};
use crate::list::copy_run;
use crate::mgp::{Entry, Exchange, Handle, Host, Kind, Reply, Token, ValueTag};
use crate::text::{c_string, is_c_string};
use crate::path::PathRef;
use crate::result::MgpError;
use crate::temporal::{DateRef, DurationRef, LocalDateTimeRef, LocalTimeRef};
use crate::vertex::VertexRef;

verus! {

/// A property value. Scalars and strings are held by value; the other cases
/// hold a borrowed view of an object of the host, which this library never
/// releases.
#[derive(Clone, Debug, PartialEq, Eq)]
pub enum Value {
    Null,
    Bool(bool),
    Int(i64),
    /// A double, as its bit pattern.
    Double(u64),
    /// A string, as the bytes the host holds.
    String(Vec<u8>),
    List(ListRef),
    Mapping(MapRef),
    Vertex(VertexRef),
    Edge(EdgeRef),
    Path(PathRef),
    Date(DateRef),
    LocalTime(LocalTimeRef),
    LocalDateTime(LocalDateTimeRef),
    Duration(DurationRef),
}

/// A value as contracts see it: the same cases, with the string as a sequence.
pub enum ValueView {
    Null,
    Bool(bool),
    Int(i64),
    Double(u64),
    String(Seq<u8>),
    List(ListRef),
    Mapping(MapRef),
    Vertex(VertexRef),
    Edge(EdgeRef),
    Path(PathRef),
    Date(DateRef),
    LocalTime(LocalTimeRef),
    LocalDateTime(LocalDateTimeRef),
    Duration(DurationRef),
}

impl View for Value {
    type V = ValueView;

    open spec fn view(&self) -> ValueView {
        match self {
            Value::Null => ValueView::Null,
            Value::Bool(b) => ValueView::Bool(*b),
            Value::Int(i) => ValueView::Int(*i),
            Value::Double(bits) => ValueView::Double(*bits),
            Value::String(text) => ValueView::String(text@),
            Value::List(list) => ValueView::List(*list),
            Value::Mapping(map) => ValueView::Mapping(*map),
            Value::Vertex(vertex) => ValueView::Vertex(*vertex),
            Value::Edge(edge) => ValueView::Edge(*edge),
            Value::Path(path) => ValueView::Path(*path),
            Value::Date(date) => ValueView::Date(*date),
            Value::LocalTime(time) => ValueView::LocalTime(*time),
            Value::LocalDateTime(date_time) => ValueView::LocalDateTime(*date_time),
            Value::Duration(duration) => ValueView::Duration(*duration),
        }
    }
}

impl ValueView {
    /// The host's identifier for the case of this value.
    pub open spec fn tag(self) -> ValueTag {
        match self {
            ValueView::Null => ValueTag::Null,
            ValueView::Bool(_) => ValueTag::Bool,
            ValueView::Int(_) => ValueTag::Int,
            ValueView::Double(_) => ValueTag::Double,
            ValueView::String(_) => ValueTag::String,
            ValueView::List(_) => ValueTag::List,
            ValueView::Mapping(_) => ValueTag::Mapping,
            ValueView::Vertex(_) => ValueTag::Vertex,
            ValueView::Edge(_) => ValueTag::Edge,
            ValueView::Path(_) => ValueTag::Path,
            ValueView::Date(_) => ValueTag::Date,
            ValueView::LocalTime(_) => ValueTag::LocalTime,
            ValueView::LocalDateTime(_) => ValueTag::LocalDateTime,
            ValueView::Duration(_) => ValueTag::Duration,
        }
    }
}

/// A result that carries a value, with the value taken by its view.
pub open spec fn value_result(r: Result<Value, MgpError>) -> Result<ValueView, MgpError> {
    match r {
        Ok(value) => Ok(value@),
        Err(e) => Err(e),
    }
}

/// The value that the payload `reply` of a value of case `tag` comes to.
pub open spec fn decoded(tag: ValueTag, reply: Reply) -> Result<ValueView, MgpError> {
    let error = MgpError::UnableToReadValue;
    match tag {
        ValueTag::Null => Ok(ValueView::Null),
        ValueTag::Bool => match reply.spec_bool_or(error) {
            Ok(b) => Ok(ValueView::Bool(b)),
            Err(e) => Err(e),
        },
        ValueTag::Int => match reply.spec_int_or(error) {
            Ok(i) => Ok(ValueView::Int(i)),
            Err(e) => Err(e),
        },
        ValueTag::Double => match reply.spec_double_or(error) {
            Ok(bits) => Ok(ValueView::Double(bits)),
            Err(e) => Err(e),
        },
        ValueTag::String => match reply.spec_text_or(error) {
            Ok(text) => Ok(ValueView::String(text)),
            Err(e) => Err(e),
        },
        _ => match reply.spec_handle_or(error) {
            Ok(handle) => Ok(
                match tag {
                    ValueTag::List => ValueView::List(ListRef { handle }),
                    ValueTag::Mapping => ValueView::Mapping(MapRef { handle }),
                    ValueTag::Vertex => ValueView::Vertex(VertexRef { handle }),
                    ValueTag::Edge => ValueView::Edge(EdgeRef { handle }),
                    ValueTag::Path => ValueView::Path(PathRef { handle }),
                    ValueTag::Date => ValueView::Date(DateRef { handle }),
                    ValueTag::LocalTime => ValueView::LocalTime(LocalTimeRef { handle }),
                    ValueTag::LocalDateTime => ValueView::LocalDateTime(
                        LocalDateTimeRef { handle },
                    ),
                    _ => ValueView::Duration(DurationRef { handle }),
                },
            ),
            Err(e) => Err(e),
        },
    }
}

/// The exchanges `d` are those of reading the value behind `value`, and `r`
/// is what they come to: one query for the case, then, unless the value is
/// null or the query failed, one for the payload.
pub open spec fn decode_run(value: Handle, d: Seq<Exchange>, r: Result<ValueView, MgpError>) -> bool {
    &&& d.len() >= 1
    &&& d[0].asks(Entry::ValueGetType { value }, Seq::empty())
    &&& match d[0].reply.spec_tag_or(MgpError::UnableToGetValueType) {
        Err(e) => d.len() == 1 && r == Err::<ValueView, MgpError>(e),
        Ok(ValueTag::Null) => d.len() == 1 && r == Ok::<ValueView, MgpError>(ValueView::Null),
        Ok(tag) => {
            &&& d.len() == 2
            &&& d[1].asks(Entry::ValueGet { tag, value }, Seq::empty())
            &&& r == decoded(tag, d[1].reply)
        },
    }
}

/// A value that this layer owns at the host. It is handed back by
/// [`MgpValue::release`], once.
#[derive(Debug, PartialEq, Eq)]
pub struct MgpValue {
    handle: Handle,
}

/// A result that carries an owned value, with the value taken by its handle.
pub open spec fn made_result(r: Result<MgpValue, MgpError>) -> Result<Handle, MgpError> {
    match r {
        Ok(value) => Ok(value.spec_handle()),
        Err(e) => Err(e),
    }
}

/// The exchanges `d` are those of wrapping the owned `object` in a value of
/// case `tag`, and `r` is what they come to. On success the value owns the
/// object; on failure the object is released.
pub open spec fn wrap_run(
    tag: ValueTag,
    kind: Kind,
    object: Handle,
    error: MgpError,
    d: Seq<Exchange>,
    r: Result<Handle, MgpError>,
) -> bool {
    &&& d.len() >= 1
    &&& d[0].asks(Entry::ValueMakeFrom { tag, object }, Seq::empty())
    &&& match d[0].reply.spec_handle_or(error) {
        Ok(value) => d.len() == 1 && r == Ok::<Handle, MgpError>(value),
        Err(e) => {
            &&& d.len() == 2
            &&& d[1].asks(Entry::Destroy { kind, object }, Seq::empty())
            &&& r == Err::<Handle, MgpError>(e)
        },
    }
}

/// The exchanges `d` are those of having the host copy the borrowed `object`
/// and wrapping the copy in a value, and `r` is what they come to.
pub open spec fn copy_wrap_run(
    tag: ValueTag,
    kind: Kind,
    object: Handle,
    copy_error: MgpError,
    error: MgpError,
    d: Seq<Exchange>,
    r: Result<Handle, MgpError>,
) -> bool {
    &&& d.len() >= 1
    &&& d[0].asks(Entry::Copy { kind, object }, Seq::empty())
    &&& match d[0].reply.spec_handle_or(copy_error) {
        Err(e) => d.len() == 1 && r == Err::<Handle, MgpError>(e),
        Ok(copy) => wrap_run(tag, kind, copy, error, d.skip(1), r),
    }
}

/// The first `n` of the exchanges `d` are those of copying `list` value by
/// value, with the outcome `copied`; the rest are those of wrapping the copy,
/// if there is one, in a value; and `r` is what they come to.
pub open spec fn copy_list_wrap_split(
    list: Handle,
    d: Seq<Exchange>,
    r: Result<Handle, MgpError>,
    n: int,
    copied: Result<Handle, MgpError>,
) -> bool {
    &&& 0 <= n <= d.len()
    &&& copy_run(list, d.take(n), copied)
    &&& match copied {
        Err(e) => n == d.len() && r == Err::<Handle, MgpError>(e),
        Ok(copy) => wrap_run(
            ValueTag::List,
            Kind::List,
            copy,
            MgpError::UnableToAllocateListValue,
            d.skip(n),
            r,
        ),
    }
}

/// The exchanges `d` are those of copying `list` value by value and wrapping
/// the copy in a value, and `r` is what they come to.
pub open spec fn copy_list_wrap_run(list: Handle, d: Seq<Exchange>, r: Result<Handle, MgpError>) -> bool {
    exists|n: int, copied: Result<Handle, MgpError>| copy_list_wrap_split(list, d, r, n, copied)
}

/// The exchanges `d` are those of one call that makes a value, and `r` is
/// what they come to.
pub open spec fn make_run(
    entry: Entry,
    text: Seq<u8>,
    error: MgpError,
    d: Seq<Exchange>,
    r: Result<Handle, MgpError>,
) -> bool {
    &&& d.len() == 1
    &&& d[0].asks(entry, text)
    &&& r == d[0].reply.spec_handle_or(error)
}

/// The exchanges `d` are those of making a value of the host out of `value`,
/// and `r` is what they come to. A scalar takes one call. A string is
/// checked first, and one that the host cannot hold is refused without a
/// call. An object is never moved into the new value: a copy is made first,
/// by the host, or for a list value by value, and the copy is wrapped.
pub open spec fn to_mgp_value_run(value: ValueView, d: Seq<Exchange>, r: Result<Handle, MgpError>) -> bool {
    let none = Seq::<u8>::empty();
    match value {
        ValueView::Null => make_run(
            Entry::ValueMakeNull,
            none,
            MgpError::UnableToAllocateNullValue,
            d,
            r,
        ),
        ValueView::Bool(b) => make_run(
            Entry::ValueMakeBool { value: b },
            none,
            MgpError::UnableToAllocateBoolValue,
            d,
            r,
        ),
        ValueView::Int(i) => make_run(
            Entry::ValueMakeInt { value: i },
            none,
            MgpError::UnableToAllocateIntegerValue,
            d,
            r,
        ),
        ValueView::Double(bits) => make_run(
            Entry::ValueMakeDouble { bits },
            none,
            MgpError::UnableToAllocateDoubleValue,
            d,
            r,
        ),
        ValueView::String(text) => if is_c_string(text) {
            make_run(Entry::ValueMakeString, text, MgpError::UnableToAllocateStringValue, d, r)
        } else {
            d.len() == 0 && r == Err::<Handle, MgpError>(MgpError::UnableToCreateCString)
        },
        ValueView::List(list) => copy_list_wrap_run(list.handle, d, r),
        ValueView::Mapping(map) => copy_wrap_run(
            ValueTag::Mapping,
            Kind::Mapping,
            map.handle,
            MgpError::UnableToCopyMap,
            MgpError::UnableToAllocateMapValue,
            d,
            r,
        ),
        ValueView::Vertex(vertex) => copy_wrap_run(
            ValueTag::Vertex,
            Kind::Vertex,
            vertex.handle,
            MgpError::UnableToCopyVertex,
            MgpError::UnableToAllocateVertexValue,
            d,
            r,
        ),
        ValueView::Edge(edge) => copy_wrap_run(
            ValueTag::Edge,
            Kind::Edge,
            edge.handle,
            MgpError::UnableToCopyEdge,
            MgpError::UnableToAllocateEdgeValue,
            d,
            r,
        ),
        ValueView::Path(path) => copy_wrap_run(
            ValueTag::Path,
            Kind::Path,
            path.handle,
            MgpError::UnableToCopyPath,
            MgpError::UnableToAllocatePathValue,
            d,
            r,
        ),
        ValueView::Date(date) => copy_wrap_run(
            ValueTag::Date,
            Kind::Date,
            date.handle,
            MgpError::UnableToCopyDate,
            MgpError::UnableToAllocateDateValue,
            d,
            r,
        ),
        ValueView::LocalTime(time) => copy_wrap_run(
            ValueTag::LocalTime,
            Kind::LocalTime,
            time.handle,
            MgpError::UnableToCopyLocalTime,
            MgpError::UnableToAllocateLocalTimeValue,
            d,
            r,
        ),
        ValueView::LocalDateTime(date_time) => copy_wrap_run(
            ValueTag::LocalDateTime,
            Kind::LocalDateTime,
            date_time.handle,
            MgpError::UnableToCopyLocalDateTime,
            MgpError::UnableToAllocateLocalDateTimeValue,
            d,
            r,
        ),
        ValueView::Duration(duration) => copy_wrap_run(
            ValueTag::Duration,
            Kind::Duration,
            duration.handle,
            MgpError::UnableToCopyDuration,
            MgpError::UnableToAllocateDurationValue,
            d,
            r,
        ),
    }
}

/// A place that takes a value: the host copies what it is given, so the
/// value made for it is released as soon as the call is over.
#[derive(Clone, Copy, Debug, PartialEq, Eq, Structural)]
pub enum Target {
    /// The end of a list, if the list has room.
    ListAppend { list: Handle },
    /// The end of a list, which grows if it has to.
    ListAppendExtend { list: Handle },
    /// A key of a map.
    MapInsert { map: Handle },
    /// A column of an output row.
    RecordInsert { record: Handle },
}

impl Target {
    /// The call that puts the value behind `value` into this place.
    pub open spec fn spec_entry(self, value: Handle) -> Entry {
        match self {
            Target::ListAppend { list } => Entry::ListAppend { list, value },
            Target::ListAppendExtend { list } => Entry::ListAppendExtend { list, value },
            Target::MapInsert { map } => Entry::MapInsert { map, value },
            Target::RecordInsert { record } => Entry::ResultRecordInsert { record, value },
        }
    }

    /// The error that stands for a failure of that call.
    pub open spec fn spec_error(self) -> MgpError {
        match self {
            Target::ListAppend { .. } => MgpError::UnableToAppendListValue,
            Target::ListAppendExtend { .. } => MgpError::UnableToAppendExtendListValue,
            Target::MapInsert { .. } => MgpError::UnableToInsertMapValue,
            Target::RecordInsert { .. } => MgpError::PreparingResultError,
        }
    }

    #[verifier::when_used_as_spec(spec_entry)]
    pub fn entry(self, value: Handle) -> (entry: Entry)
        ensures
            entry == self.spec_entry(value),
    {
        match self {
            Target::ListAppend { list } => Entry::ListAppend { list, value },
            Target::ListAppendExtend { list } => Entry::ListAppendExtend { list, value },
            Target::MapInsert { map } => Entry::MapInsert { map, value },
            Target::RecordInsert { record } => Entry::ResultRecordInsert { record, value },
        }
    }

    #[verifier::when_used_as_spec(spec_error)]
    pub fn error(self) -> (error: MgpError)
        ensures
            error == self.spec_error(),
    {
        match self {
            Target::ListAppend { .. } => MgpError::UnableToAppendListValue,
            Target::ListAppendExtend { .. } => MgpError::UnableToAppendExtendListValue,
            Target::MapInsert { .. } => MgpError::UnableToInsertMapValue,
            Target::RecordInsert { .. } => MgpError::PreparingResultError,
        }
    }
}

/// The first `n` of the exchanges `d` are those of making a value of the host
/// out of `value`, with the outcome `made`. If a value was made, two more
/// follow: the call that puts it into `target` under the name `text`, and its
/// release. `r` is what the whole comes to.
pub open spec fn give_split(
    target: Target,
    text: Seq<u8>,
    value: ValueView,
    d: Seq<Exchange>,
    r: Result<(), MgpError>,
    n: int,
    made: Result<Handle, MgpError>,
) -> bool {
    &&& 0 <= n <= d.len()
    &&& to_mgp_value_run(value, d.take(n), made)
    &&& match made {
        Err(e) => n == d.len() && r == Err::<(), MgpError>(e),
        Ok(temporary) => {
            &&& d.len() == n + 2
            &&& d[n].asks(target.spec_entry(temporary), text)
            &&& d[n + 1].asks(
                Entry::Destroy { kind: Kind::Value, object: temporary },
                Seq::empty(),
            )
            &&& r == d[n].reply.spec_done_or(target.spec_error())
        },
    }
}

/// The exchanges `d` are those of putting `value` into `target` under the
/// name `text`, and `r` is what they come to. A name that the host cannot
/// hold is refused before anything is asked of the host.
pub open spec fn give_run(
    target: Target,
    text: Seq<u8>,
    value: ValueView,
    d: Seq<Exchange>,
    r: Result<(), MgpError>,
) -> bool {
    if is_c_string(text) {
        exists|n: int, made: Result<Handle, MgpError>| give_split(target, text, value, d, r, n, made)
    } else {
        d.len() == 0 && r == Err::<(), MgpError>(MgpError::UnableToCreateCString)
    }
}

impl MgpValue {
    /// The object that this value stands for in the account of owned objects.
    pub open spec fn token(&self) -> Token {
        Token { kind: Kind::Value, handle: self.spec_handle() }
    }

    pub closed spec fn spec_handle(&self) -> Handle {
        self.handle
    }

    /// The handle of the value, to pass to the host. The value stays owned.
    #[verifier::when_used_as_spec(spec_handle)]
    pub fn handle(&self) -> (handle: Handle)
        ensures
            handle == self.spec_handle(),
            self.token() == (Token { kind: Kind::Value, handle }),
    {
        self.handle
    }

    /// Takes charge of a value that the host handed out under `handle`.
    pub(crate) fn adopt(handle: Handle) -> (value: MgpValue)
        ensures
            value.spec_handle() == handle,
            value.token() == (Token { kind: Kind::Value, handle }),
    {
        MgpValue { handle }
    }

    /// Hands the value back to the host. The value is consumed, so it cannot
    /// be released a second time.
    pub fn release<H: Host>(self, mg: &mut Memgraph<H>)
        ensures
            final(mg).one_call(
                *old(mg),
                Entry::Destroy { kind: Kind::Value, object: self.spec_handle() },
                Seq::empty(),
            ),
            final(mg).gave_up(*old(mg), self.token()),
    {
        mg.destroy(Kind::Value, self.handle);
    }

    /// Makes a value with one call.
    fn make<H: Host>(entry: Entry, text: &[u8], error: MgpError, mg: &mut Memgraph<H>) -> (r: Result<
        MgpValue,
        MgpError,
    >)
        requires
            entry.grants() == Some(Kind::Value),
            !(entry is ValueMakeFrom),
            !(entry is Destroy),
        ensures
            final(mg).continues(*old(mg)),
            make_run(entry, text@, error, final(mg).since(*old(mg)), made_result(r)),
            match r {
                Ok(value) => final(mg).balanced(*old(mg), Some(value.token())),
                Err(_) => final(mg).balanced(*old(mg), None),
            },
    {
        match mg.invoke(entry, text).handle_or(error) {
            Ok(handle) => Ok(MgpValue { handle }),
            Err(e) => Err(e),
        }
    }

    /// Wraps the owned `object` in a value. Whatever happens the caller no
    /// longer owns the object: the new value does, or it was released.
    fn wrap<H: Host>(
        tag: ValueTag,
        kind: Kind,
        object: Handle,
        error: MgpError,
        mg: &mut Memgraph<H>,
    ) -> (r: Result<MgpValue, MgpError>)
        requires
            tag.spec_object_kind() == Some(kind),
        ensures
            final(mg).continues(*old(mg)),
            wrap_run(tag, kind, object, error, final(mg).since(*old(mg)), made_result(r)),
            match r {
                Ok(value) => final(mg).settled(
                    *old(mg),
                    Some(Token { kind, handle: object }),
                    Some(value.token()),
                ),
                Err(_) => final(mg).gave_up(*old(mg), Token { kind, handle: object }),
            },
    {
        let ghost s0 = *mg;
        let reply = mg.call(Entry::ValueMakeFrom { tag, object });
        let ghost s1 = *mg;
        match reply.handle_or(error) {
            Ok(handle) => Ok(MgpValue { handle }),
            Err(e) => {
                mg.destroy(kind, object);
                proof {
                    lemma_continues_chain(s0, s1, *mg);
                    assert(mg.since(s0) =~= seq![s1.answer(), mg.answer()]);
                }
                Err(e)
            },
        }
    }

    /// Copies the borrowed `list` value by value and wraps the copy in a
    /// value.
    fn copy_list_wrap<H: Host>(list: ListRef, mg: &mut Memgraph<H>) -> (r: Result<
        MgpValue,
        MgpError,
    >)
        ensures
            final(mg).continues(*old(mg)),
            to_mgp_value_run(
                ValueView::List(list),
                final(mg).since(*old(mg)),
                made_result(r),
            ),
            match r {
                Ok(value) => final(mg).balanced(*old(mg), Some(value.token())),
                Err(_) => final(mg).balanced(*old(mg), None),
            },
    {
        let ghost s0 = *mg;
        match list.copy(mg) {
            Err(e) => {
                proof {
                    let d = mg.since(s0);
                    assert(d.take(d.len() as int) =~= d);
                    assert(copy_list_wrap_split(
                        list.handle,
                        d,
                        Err::<Handle, MgpError>(e),
                        d.len() as int,
                        Err::<Handle, MgpError>(e),
                    ));
                }
                Err(e)
            },
            Ok(copy) => {
                let ghost s1 = *mg;
                let object = copy.into_handle();
                let r = MgpValue::wrap(
                    ValueTag::List,
                    Kind::List,
                    object,
                    MgpError::UnableToAllocateListValue,
                    mg,
                );
                proof {
                    lemma_continues_chain(s0, s1, *mg);
                    let d = mg.since(s0);
                    let n = s1.since(s0).len() as int;
                    assert(d.take(n) =~= s1.since(s0));
                    assert(d.skip(n) =~= mg.since(s1));
                    assert(copy_list_wrap_split(
                        list.handle,
                        d,
                        made_result(r),
                        n,
                        Ok::<Handle, MgpError>(object),
                    ));
                }
                r
            },
        }
    }

    /// Has the host copy the borrowed `object` and wraps the copy in a value.
    fn copy_wrap<H: Host>(
        tag: ValueTag,
        kind: Kind,
        object: Handle,
        copy_error: MgpError,
        error: MgpError,
        mg: &mut Memgraph<H>,
    ) -> (r: Result<MgpValue, MgpError>)
        requires
            tag.spec_object_kind() == Some(kind),
        ensures
            final(mg).continues(*old(mg)),
            copy_wrap_run(
                tag,
                kind,
                object,
                copy_error,
                error,
                final(mg).since(*old(mg)),
                made_result(r),
            ),
            match r {
                Ok(value) => final(mg).balanced(*old(mg), Some(value.token())),
                Err(_) => final(mg).balanced(*old(mg), None),
            },
    {
        let ghost s0 = *mg;
        match mg.copy_object(kind, object, copy_error) {
            Err(e) => Err(e),
            Ok(copy) => {
                let ghost s1 = *mg;
                let r = MgpValue::wrap(tag, kind, copy, error, mg);
                proof {
                    lemma_continues_chain(s0, s1, *mg);
                    assert(mg.since(s0).skip(1) =~= mg.since(s1));
                }
                r
            },
        }
    }
}

impl Value {
    /// Makes a value of the host out of this one. The caller owns the
    /// result. Objects are copied, never moved: what this value borrows is
    /// left as it was.
    pub fn to_mgp_value<H: Host>(&self, mg: &mut Memgraph<H>) -> (r: Result<MgpValue, MgpError>)
        ensures
            final(mg).continues(*old(mg)),
            to_mgp_value_run(self@, final(mg).since(*old(mg)), made_result(r)),
            match r {
                Ok(value) => final(mg).balanced(*old(mg), Some(value.token())),
                Err(_) => final(mg).balanced(*old(mg), None),
            },
    {
        match self {
            Value::List(list) => MgpValue::copy_list_wrap(*list, mg),
            Value::Mapping(map) => MgpValue::copy_wrap(
                ValueTag::Mapping,
                Kind::Mapping,
                map.handle,
                MgpError::UnableToCopyMap,
                MgpError::UnableToAllocateMapValue,
                mg,
            ),
            Value::Vertex(vertex) => MgpValue::copy_wrap(
                ValueTag::Vertex,
                Kind::Vertex,
                vertex.handle,
                MgpError::UnableToCopyVertex,
                MgpError::UnableToAllocateVertexValue,
                mg,
            ),
            Value::Edge(edge) => MgpValue::copy_wrap(
                ValueTag::Edge,
                Kind::Edge,
                edge.handle,
                MgpError::UnableToCopyEdge,
                MgpError::UnableToAllocateEdgeValue,
                mg,
            ),
            Value::Path(path) => MgpValue::copy_wrap(
                ValueTag::Path,
                Kind::Path,
                path.handle,
                MgpError::UnableToCopyPath,
                MgpError::UnableToAllocatePathValue,
                mg,
            ),
            Value::Date(date) => MgpValue::copy_wrap(
                ValueTag::Date,
                Kind::Date,
                date.handle,
                MgpError::UnableToCopyDate,
                MgpError::UnableToAllocateDateValue,
                mg,
            ),
            Value::LocalTime(time) => MgpValue::copy_wrap(
                ValueTag::LocalTime,
                Kind::LocalTime,
                time.handle,
                MgpError::UnableToCopyLocalTime,
                MgpError::UnableToAllocateLocalTimeValue,
                mg,
            ),
            Value::LocalDateTime(date_time) => MgpValue::copy_wrap(
                ValueTag::LocalDateTime,
                Kind::LocalDateTime,
                date_time.handle,
                MgpError::UnableToCopyLocalDateTime,
                MgpError::UnableToAllocateLocalDateTimeValue,
                mg,
            ),
            Value::Duration(duration) => MgpValue::copy_wrap(
                ValueTag::Duration,
                Kind::Duration,
                duration.handle,
                MgpError::UnableToCopyDuration,
                MgpError::UnableToAllocateDurationValue,
                mg,
            ),
            _ => self.scalar_to_mgp_value(mg),
        }
    }

    /// Puts this value into `target` under the name `text`: a value of the
    /// host is made, handed to the call, and released, whether the call
    /// succeeded or not.
    pub(crate) fn give<H: Host>(&self, target: Target, text: &[u8], mg: &mut Memgraph<H>) -> (r:
        Result<(), MgpError>)
        ensures
            final(mg).continues(*old(mg)),
            give_run(target, text@, self@, final(mg).since(*old(mg)), r),
            final(mg).balanced(*old(mg), None),
    {
        let ghost s0 = *mg;
        let name = match c_string(text) {
            Ok(name) => name,
            Err(e) => {
                assert(mg.since(s0) =~= Seq::<Exchange>::empty());
                return Err(e);
            },
        };
        match self.to_mgp_value(mg) {
            Err(e) => {
                proof {
                    let d = mg.since(s0);
                    assert(d.take(d.len() as int) =~= d);
                    assert(give_split(
                        target,
                        text@,
                        self@,
                        d,
                        Err::<(), MgpError>(e),
                        d.len() as int,
                        Err::<Handle, MgpError>(e),
                    ));
                }
                Err(e)
            },
            Ok(temporary) => {
                let ghost s1 = *mg;
                let reply = mg.invoke(target.entry(temporary.handle()), name.as_slice());
                let ghost s2 = *mg;
                let r = reply.done_or(target.error());
                let ghost made = temporary.spec_handle();
                temporary.release(mg);
                proof {
                    lemma_continues_chain(s1, s2, *mg);
                    lemma_continues_chain(s0, s1, *mg);
                    let d = mg.since(s0);
                    let n = s1.since(s0).len() as int;
                    assert(mg.since(s1) =~= seq![s2.answer(), mg.answer()]);
                    assert(d.take(n) =~= s1.since(s0));
                    assert(give_split(target, text@, self@, d, r, n, Ok::<Handle, MgpError>(made)));
                }
                r
            },
        }
    }

    /// The part of [`Value::to_mgp_value`] for the cases that hold no object.
    fn scalar_to_mgp_value<H: Host>(&self, mg: &mut Memgraph<H>) -> (r: Result<MgpValue, MgpError>)
        requires
            self@.tag().spec_object_kind() is None,
        ensures
            final(mg).continues(*old(mg)),
            to_mgp_value_run(self@, final(mg).since(*old(mg)), made_result(r)),
            match r {
                Ok(value) => final(mg).balanced(*old(mg), Some(value.token())),
                Err(_) => final(mg).balanced(*old(mg), None),
            },
    {
        let none: Vec<u8> = Vec::new();
        match self {
            Value::Bool(b) => MgpValue::make(
                Entry::ValueMakeBool { value: *b },
                none.as_slice(),
                MgpError::UnableToAllocateBoolValue,
                mg,
            ),
            Value::Int(i) => MgpValue::make(
                Entry::ValueMakeInt { value: *i },
                none.as_slice(),
                MgpError::UnableToAllocateIntegerValue,
                mg,
            ),
            Value::Double(bits) => MgpValue::make(
                Entry::ValueMakeDouble { bits: *bits },
                none.as_slice(),
                MgpError::UnableToAllocateDoubleValue,
                mg,
            ),
            Value::String(text) => match c_string(text.as_slice()) {
                Err(e) => {
                    assert(mg.since(*mg) =~= Seq::<Exchange>::empty());
                    Err(e)
                },
                Ok(checked) => MgpValue::make(
                    Entry::ValueMakeString,
                    checked.as_slice(),
                    MgpError::UnableToAllocateStringValue,
                    mg,
                ),
            },
            _ => MgpValue::make(
                Entry::ValueMakeNull,
                none.as_slice(),
                MgpError::UnableToAllocateNullValue,
                mg,
            ),
        }
    }

    /// Reads the value behind the borrowed handle `value`. The case is asked
    /// for first and selects how the payload is read. Nothing is acquired:
    /// objects inside the value are returned as borrowed views.
    pub fn decode<H: Host>(value: Handle, mg: &mut Memgraph<H>) -> (r: Result<Value, MgpError>)
        ensures
            final(mg).continues(*old(mg)),
            decode_run(value, final(mg).since(*old(mg)), value_result(r)),
            final(mg).balanced(*old(mg), None),
    {
        let ghost s0 = *mg;
        let asked = mg.call(Entry::ValueGetType { value });
        let ghost s1 = *mg;
        let tag = match asked.tag_or(MgpError::UnableToGetValueType) {
            Ok(tag) => tag,
            Err(e) => {
                return Err(e);
            },
        };
        if let ValueTag::Null = tag {
            return Ok(Value::Null);
        }
        let reply = mg.call(Entry::ValueGet { tag, value });
        proof {
            lemma_continues_chain(s0, s1, *mg);
            assert(mg.since(s0) =~= seq![s1.answer(), mg.answer()]);
        }
        let error = MgpError::UnableToReadValue;
        match tag {
            ValueTag::Null => Ok(Value::Null),
            ValueTag::Bool => match reply.bool_or(error) {
                Ok(b) => Ok(Value::Bool(b)),
                Err(e) => Err(e),
            },
            ValueTag::Int => match reply.int_or(error) {
                Ok(i) => Ok(Value::Int(i)),
                Err(e) => Err(e),
            },
            ValueTag::Double => match reply.double_or(error) {
                Ok(bits) => Ok(Value::Double(bits)),
                Err(e) => Err(e),
            },
            ValueTag::String => match reply.text_or(error) {
                Ok(text) => Ok(Value::String(text)),
                Err(e) => Err(e),
            },
            _ => match reply.handle_or(error) {
                Ok(handle) => Ok(
                    match tag {
                        ValueTag::List => Value::List(ListRef { handle }),
                        ValueTag::Mapping => Value::Mapping(MapRef { handle }),
                        ValueTag::Vertex => Value::Vertex(VertexRef { handle }),
                        ValueTag::Edge => Value::Edge(EdgeRef { handle }),
                        ValueTag::Path => Value::Path(PathRef { handle }),
                        ValueTag::Date => Value::Date(DateRef { handle }),
                        ValueTag::LocalTime => Value::LocalTime(LocalTimeRef { handle }),
                        ValueTag::LocalDateTime => Value::LocalDateTime(
                            LocalDateTimeRef { handle },
                        ),
                        _ => Value::Duration(DurationRef { handle }),
                    },
                ),
                Err(e) => Err(e),
            },
        }
    }
}

impl Value {
    /// The host's identifier for the case of this value.
    pub fn tag(&self) -> (tag: ValueTag)
        ensures
            tag == self@.tag(),
    {
        match self {
            Value::Null => ValueTag::Null,
            Value::Bool(_) => ValueTag::Bool,
            Value::Int(_) => ValueTag::Int,
            Value::Double(_) => ValueTag::Double,
            Value::String(_) => ValueTag::String,
            Value::List(_) => ValueTag::List,
            Value::Mapping(_) => ValueTag::Mapping,
            Value::Vertex(_) => ValueTag::Vertex,
            Value::Edge(_) => ValueTag::Edge,
            Value::Path(_) => ValueTag::Path,
            Value::Date(_) => ValueTag::Date,
            Value::LocalTime(_) => ValueTag::LocalTime,
            Value::LocalDateTime(_) => ValueTag::LocalDateTime,
            Value::Duration(_) => ValueTag::Duration,
        }
    }

    /// Whether this is the null value.
    pub fn is_null(&self) -> (b: bool)
        ensures
            b == (self@ is Null),
    {
        matches!(self, Value::Null)
    }

    /// Reads this value as a truth value. No case is converted into another:
    /// any other case is a mismatch.
    pub fn as_bool(&self) -> (r: Result<bool, MgpError>)
        ensures
            r == match self@ {
                ValueView::Bool(payload) => Ok::<bool, MgpError>(payload),
                _ => Err::<bool, MgpError>(MgpError::ValueTypeMismatch),
            },
    {
        match self {
            Value::Bool(payload) => Ok(*payload),
            _ => Err(MgpError::ValueTypeMismatch),
        }
    }

    /// Reads this value as a integer. No case is converted into another:
    /// any other case is a mismatch.
    pub fn as_int(&self) -> (r: Result<i64, MgpError>)
        ensures
            r == match self@ {
                ValueView::Int(payload) => Ok::<i64, MgpError>(payload),
                _ => Err::<i64, MgpError>(MgpError::ValueTypeMismatch),
            },
    {
        match self {
            Value::Int(payload) => Ok(*payload),
            _ => Err(MgpError::ValueTypeMismatch),
        }
    }

    /// Reads this value as a double, by its bit pattern. No case is converted into another:
    /// any other case is a mismatch.
    pub fn as_double(&self) -> (r: Result<u64, MgpError>)
        ensures
            r == match self@ {
                ValueView::Double(payload) => Ok::<u64, MgpError>(payload),
                _ => Err::<u64, MgpError>(MgpError::ValueTypeMismatch),
            },
    {
        match self {
            Value::Double(payload) => Ok(*payload),
            _ => Err(MgpError::ValueTypeMismatch),
        }
    }

    /// Reads this value as a list. No case is converted into another:
    /// any other case is a mismatch.
    pub fn as_list(&self) -> (r: Result<ListRef, MgpError>)
        ensures
            r == match self@ {
                ValueView::List(payload) => Ok::<ListRef, MgpError>(payload),
                _ => Err::<ListRef, MgpError>(MgpError::ValueTypeMismatch),
            },
    {
        match self {
            Value::List(payload) => Ok(*payload),
            _ => Err(MgpError::ValueTypeMismatch),
        }
    }

    /// Reads this value as a map. No case is converted into another:
    /// any other case is a mismatch.
    pub fn as_map(&self) -> (r: Result<MapRef, MgpError>)
        ensures
            r == match self@ {
                ValueView::Mapping(payload) => Ok::<MapRef, MgpError>(payload),
                _ => Err::<MapRef, MgpError>(MgpError::ValueTypeMismatch),
            },
    {
        match self {
            Value::Mapping(payload) => Ok(*payload),
            _ => Err(MgpError::ValueTypeMismatch),
        }
    }

    /// Reads this value as a vertex. No case is converted into another:
    /// any other case is a mismatch.
    pub fn as_vertex(&self) -> (r: Result<VertexRef, MgpError>)
        ensures
            r == match self@ {
                ValueView::Vertex(payload) => Ok::<VertexRef, MgpError>(payload),
                _ => Err::<VertexRef, MgpError>(MgpError::ValueTypeMismatch),
            },
    {
        match self {
            Value::Vertex(payload) => Ok(*payload),
            _ => Err(MgpError::ValueTypeMismatch),
        }
    }

    /// Reads this value as a edge. No case is converted into another:
    /// any other case is a mismatch.
    pub fn as_edge(&self) -> (r: Result<EdgeRef, MgpError>)
        ensures
            r == match self@ {
                ValueView::Edge(payload) => Ok::<EdgeRef, MgpError>(payload),
                _ => Err::<EdgeRef, MgpError>(MgpError::ValueTypeMismatch),
            },
    {
        match self {
            Value::Edge(payload) => Ok(*payload),
            _ => Err(MgpError::ValueTypeMismatch),
        }
    }

    /// Reads this value as a path. No case is converted into another:
    /// any other case is a mismatch.
    pub fn as_path(&self) -> (r: Result<PathRef, MgpError>)
        ensures
            r == match self@ {
                ValueView::Path(payload) => Ok::<PathRef, MgpError>(payload),
                _ => Err::<PathRef, MgpError>(MgpError::ValueTypeMismatch),
            },
    {
        match self {
            Value::Path(payload) => Ok(*payload),
            _ => Err(MgpError::ValueTypeMismatch),
        }
    }

    /// Reads this value as a date. No case is converted into another:
    /// any other case is a mismatch.
    pub fn as_date(&self) -> (r: Result<DateRef, MgpError>)
        ensures
            r == match self@ {
                ValueView::Date(payload) => Ok::<DateRef, MgpError>(payload),
                _ => Err::<DateRef, MgpError>(MgpError::ValueTypeMismatch),
            },
    {
        match self {
            Value::Date(payload) => Ok(*payload),
            _ => Err(MgpError::ValueTypeMismatch),
        }
    }

    /// Reads this value as a time of day. No case is converted into another:
    /// any other case is a mismatch.
    pub fn as_local_time(&self) -> (r: Result<LocalTimeRef, MgpError>)
        ensures
            r == match self@ {
                ValueView::LocalTime(payload) => Ok::<LocalTimeRef, MgpError>(payload),
                _ => Err::<LocalTimeRef, MgpError>(MgpError::ValueTypeMismatch),
            },
    {
        match self {
            Value::LocalTime(payload) => Ok(*payload),
            _ => Err(MgpError::ValueTypeMismatch),
        }
    }

    /// Reads this value as a date with time of day. No case is converted into another:
    /// any other case is a mismatch.
    pub fn as_local_date_time(&self) -> (r: Result<LocalDateTimeRef, MgpError>)
        ensures
            r == match self@ {
                ValueView::LocalDateTime(payload) => Ok::<LocalDateTimeRef, MgpError>(payload),
                _ => Err::<LocalDateTimeRef, MgpError>(MgpError::ValueTypeMismatch),
            },
    {
        match self {
            Value::LocalDateTime(payload) => Ok(*payload),
            _ => Err(MgpError::ValueTypeMismatch),
        }
    }

    /// Reads this value as a duration. No case is converted into another:
    /// any other case is a mismatch.
    pub fn as_duration(&self) -> (r: Result<DurationRef, MgpError>)
        ensures
            r == match self@ {
                ValueView::Duration(payload) => Ok::<DurationRef, MgpError>(payload),
                _ => Err::<DurationRef, MgpError>(MgpError::ValueTypeMismatch),
            },
    {
        match self {
            Value::Duration(payload) => Ok(*payload),
            _ => Err(MgpError::ValueTypeMismatch),
        }
    }

    /// Reads this value as a string. No case is converted into another: any
    /// other case is a mismatch.
    pub fn as_string(&self) -> (r: Result<&Vec<u8>, MgpError>)
        ensures
            match self@ {
                ValueView::String(text) => r matches Ok(bytes) && bytes@ == text,
                _ => r matches Err(e) && e == MgpError::ValueTypeMismatch,
            },
    {
        match self {
            Value::String(text) => Ok(text),
            _ => Err(MgpError::ValueTypeMismatch),
        }
    }
}

} // verus!
