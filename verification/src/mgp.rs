//! Vocabulary of the host interface: handles, entry points, replies, and the
//! record of an exchange with the host.

use vstd::prelude::*;
use crate::status::Status;

verus! {

/// An address handed out by the host. The library never looks behind it.
#[derive(Clone, Copy, Debug, PartialEq, Eq, Hash, Structural)]
pub struct Handle {
    pub addr: u64,
}

impl Handle {
    pub open spec fn spec_null() -> Handle {
        Handle { addr: 0 }
    }

    /// The address that stands for "no object".
    #[verifier::when_used_as_spec(spec_null)]
    pub fn null() -> (h: Handle)
        ensures
            h == Handle::spec_null(),
    {
        Handle { addr: 0 }
    }

    pub open spec fn spec_is_null(&self) -> bool {
        self.addr == 0
    }

    #[verifier::when_used_as_spec(spec_is_null)]
    pub fn is_null(&self) -> (b: bool)
        ensures
            b == (self.addr == 0),
    {
        self.addr == 0
    }
}

/// The kinds of object that the host allocates on request and that must be
/// handed back to it.
#[derive(Clone, Copy, Debug, PartialEq, Eq, Structural)]
pub enum Kind {
    Value,
    List,
    Mapping,
    MapItemsIterator,
    Vertex,
    Edge,
    Path,
    VerticesIterator,
    EdgesIterator,
    PropertiesIterator,
    Date,
    LocalTime,
    LocalDateTime,
    Duration,
}

/// An owned object: the host allocated `handle` as a `kind` for this layer.
#[derive(Clone, Copy, Debug, PartialEq, Eq, Structural)]
pub struct Token {
    pub kind: Kind,
    pub handle: Handle,
}

/// The host's identifier for the case of a value.
#[derive(Clone, Copy, Debug, PartialEq, Eq, Structural)]
pub enum ValueTag {
    Null,
    Bool,
    Int,
    Double,
    String,
    List,
    Mapping,
    Vertex,
    Edge,
    Path,
    Date,
    LocalTime,
    LocalDateTime,
    Duration,
}

impl ValueTag {
    /// The kind of object behind a value of this case, for the cases that
    /// carry a handle.
    pub open spec fn spec_object_kind(self) -> Option<Kind> {
        match self {
            ValueTag::List => Some(Kind::List),
            ValueTag::Mapping => Some(Kind::Mapping),
            ValueTag::Vertex => Some(Kind::Vertex),
            ValueTag::Edge => Some(Kind::Edge),
            ValueTag::Path => Some(Kind::Path),
            ValueTag::Date => Some(Kind::Date),
            ValueTag::LocalTime => Some(Kind::LocalTime),
            ValueTag::LocalDateTime => Some(Kind::LocalDateTime),
            ValueTag::Duration => Some(Kind::Duration),
            _ => None,
        }
    }

    #[verifier::when_used_as_spec(spec_object_kind)]
    pub fn object_kind(self) -> (k: Option<Kind>)
        ensures
            k == self.spec_object_kind(),
    {
        match self {
            ValueTag::List => Some(Kind::List),
            ValueTag::Mapping => Some(Kind::Mapping),
            ValueTag::Vertex => Some(Kind::Vertex),
            ValueTag::Edge => Some(Kind::Edge),
            ValueTag::Path => Some(Kind::Path),
            ValueTag::Date => Some(Kind::Date),
            ValueTag::LocalTime => Some(Kind::LocalTime),
            ValueTag::LocalDateTime => Some(Kind::LocalDateTime),
            ValueTag::Duration => Some(Kind::Duration),
            _ => None,
        }
    }
}

/// A component of a foreign date.
#[derive(Clone, Copy, Debug, PartialEq, Eq, Structural)]
pub enum DateField {
    Year,
    Month,
    Day,
}

/// A component of a foreign time of day.
#[derive(Clone, Copy, Debug, PartialEq, Eq, Structural)]
pub enum TimeField {
    Hour,
    Minute,
    Second,
    Millisecond,
    Microsecond,
}

/// The types a procedure can declare for its parameters and result columns.
#[derive(Clone, Copy, Debug, PartialEq, Eq, Structural)]
pub enum TypeName {
    Any,
    Bool,
    Number,
    Int,
    Double,
    String,
    Mapping,
    Vertex,
    Edge,
    Path,
    Date,
    LocalTime,
    LocalDateTime,
    Duration,
}

/// Year, month and day as the host takes them.
#[derive(Clone, Copy, Debug, PartialEq, Eq, Structural)]
pub struct DateParameters {
    pub year: i32,
    pub month: i32,
    pub day: i32,
}

/// A time of day as the host takes it. The sub-second part is split into
/// whole milliseconds and the microseconds left over.
#[derive(Clone, Copy, Debug, PartialEq, Eq, Structural)]
pub struct LocalTimeParameters {
    pub hour: i32,
    pub minute: i32,
    pub second: i32,
    pub millisecond: i32,
    pub microsecond: i32,
}

/// An entry point of the host together with its scalar arguments. The one
/// textual argument that some entry points take (a name, a key, a string)
/// travels beside it.
#[allow(inconsistent_fields)]
#[derive(Clone, Copy, Debug, PartialEq, Eq, Structural)]
pub enum Entry {
    /// Hand an owned object back to the host.
    Destroy { kind: Kind, object: Handle },
    /// Have the host make a copy of an object; the copy is owned.
    Copy { kind: Kind, object: Handle },
    /// The item at which an iterator of `kind` stands; null at the end.
    IteratorGet { kind: Kind, iterator: Handle },
    /// Move an iterator of `kind` on and return the item it then stands at;
    /// null at the end.
    IteratorNext { kind: Kind, iterator: Handle },
    /// The name half of the pair that an iterator of `kind` stood at: the
    /// key of a map item, the name of a property.
    PairName { kind: Kind, pair: Handle },
    /// The value half of such a pair.
    PairValue { kind: Kind, pair: Handle },
    ValueGetType { value: Handle },
    /// Read the payload of a value as the given case.
    ValueGet { tag: ValueTag, value: Handle },
    ValueMakeNull,
    ValueMakeBool { value: bool },
    ValueMakeInt { value: i64 },
    /// The double travels as its bit pattern.
    ValueMakeDouble { bits: u64 },
    /// The string is the textual argument.
    ValueMakeString,
    /// Wrap an object in a value; on success the value owns the object.
    ValueMakeFrom { tag: ValueTag, object: Handle },
    ListMakeEmpty { capacity: u64 },
    ListSize { list: Handle },
    ListCapacity { list: Handle },
    ListAt { list: Handle, index: u64 },
    ListAppend { list: Handle, value: Handle },
    ListAppendExtend { list: Handle, value: Handle },
    MapMakeEmpty,
    MapSize { map: Handle },
    /// The key is the textual argument.
    MapAt { map: Handle },
    /// The key is the textual argument.
    MapInsert { map: Handle, value: Handle },
    MapIterItems { map: Handle },
    VertexGetId { vertex: Handle },
    VertexLabelsCount { vertex: Handle },
    VertexLabelAt { vertex: Handle, index: u64 },
    /// The label is the textual argument.
    VertexHasLabel { vertex: Handle },
    /// The property name is the textual argument.
    VertexGetProperty { vertex: Handle },
    VertexIterProperties { vertex: Handle },
    VertexIterInEdges { vertex: Handle },
    VertexIterOutEdges { vertex: Handle },
    EdgeGetId { edge: Handle },
    EdgeGetType { edge: Handle },
    EdgeGetFrom { edge: Handle },
    EdgeGetTo { edge: Handle },
    /// The property name is the textual argument.
    EdgeGetProperty { edge: Handle },
    EdgeIterProperties { edge: Handle },
    GraphGetVertexById { graph: Handle, id: i64 },
    GraphIterVertices { graph: Handle },
    DateFromParameters { parameters: DateParameters },
    DateGet { field: DateField, date: Handle },
    LocalTimeFromParameters { parameters: LocalTimeParameters },
    LocalTimeGet { field: TimeField, time: Handle },
    LocalDateTimeFromParameters { date: DateParameters, time: LocalTimeParameters },
    LocalDateTimeGetDate { field: DateField, date_time: Handle },
    LocalDateTimeGetTime { field: TimeField, date_time: Handle },
    DurationFromMicroseconds { microseconds: i64 },
    DurationGetMicroseconds { duration: Handle },
    ResultNewRecord { result: Handle },
    /// The column name is the textual argument.
    ResultRecordInsert { record: Handle, value: Handle },
    /// The procedure name is the textual argument.
    ModuleAddReadProcedure { module: Handle },
    TypeOf { name: TypeName },
    TypeList { element: Handle },
    TypeNullable { inner: Handle },
    /// The parameter name is the textual argument.
    ProcedureAddArgument { procedure: Handle, declared: Handle },
    /// The parameter name is the textual argument.
    ProcedureAddOptionalArgument { procedure: Handle, declared: Handle, default: Handle },
    /// The column name is the textual argument.
    ProcedureAddResult { procedure: Handle, declared: Handle },
}

impl Entry {
    /// Whether this entry point leaves the account of owned objects as it
    /// is: it hands out no owned object and takes none.
    pub open spec fn moves_nothing(self) -> bool {
        self.grants() is None && !(self is Destroy) && !(self is ValueMakeFrom)
    }

    /// The kind of owned object that this entry point hands out when it
    /// succeeds, if it hands out one.
    pub open spec fn grants(self) -> Option<Kind> {
        match self {
            Entry::ValueMakeNull
            | Entry::ValueMakeBool { .. }
            | Entry::ValueMakeInt { .. }
            | Entry::ValueMakeDouble { .. }
            | Entry::ValueMakeString
            | Entry::ValueMakeFrom { .. }
            | Entry::VertexGetProperty { .. }
            | Entry::EdgeGetProperty { .. } => Some(Kind::Value),
            Entry::ListMakeEmpty { .. } => Some(Kind::List),
            Entry::MapMakeEmpty => Some(Kind::Mapping),
            Entry::MapIterItems { .. } => Some(Kind::MapItemsIterator),
            Entry::Copy { kind, .. } => Some(kind),
            Entry::GraphGetVertexById { .. } => Some(Kind::Vertex),
            Entry::VertexIterProperties { .. } | Entry::EdgeIterProperties { .. } => Some(
                Kind::PropertiesIterator,
            ),
            Entry::VertexIterInEdges { .. } | Entry::VertexIterOutEdges { .. } => Some(
                Kind::EdgesIterator,
            ),
            Entry::GraphIterVertices { .. } => Some(Kind::VerticesIterator),
            Entry::DateFromParameters { .. } => Some(Kind::Date),
            Entry::LocalTimeFromParameters { .. } => Some(Kind::LocalTime),
            Entry::LocalDateTimeFromParameters { .. } => Some(Kind::LocalDateTime),
            Entry::DurationFromMicroseconds { .. } => Some(Kind::Duration),
            _ => None,
        }
    }
}

/// The scalar that a call wrote through its output parameter.
#[derive(Clone, Copy, Debug, PartialEq, Eq, Structural)]
pub enum Payload {
    Nothing,
    Handle(Handle),
    Bool(bool),
    Int(i64),
    Size(u64),
    /// A double, as its bit pattern.
    Double(u64),
    Tag(ValueTag),
}

/// What the host answered: a status, and the outputs, which mean something
/// only when the status is `NoError`.
#[derive(Clone, Debug, PartialEq, Eq)]
pub struct Reply {
    pub status: Status,
    pub value: Payload,
    pub text: Vec<u8>,
}

/// One completed call: what was asked and what came back.
pub struct Exchange {
    pub entry: Entry,
    pub sent: Seq<u8>,
    pub reply: Reply,
}

impl Exchange {
    /// The exchange that a call and its reply make.
    pub open spec fn of(entry: Entry, sent: Seq<u8>, reply: Reply) -> Exchange {
        Exchange { entry, sent, reply }
    }

    /// The call was of `entry` with the textual argument `sent`.
    pub open spec fn asks(self, entry: Entry, sent: Seq<u8>) -> bool {
        self.entry == entry && self.sent == sent
    }

    pub open spec fn succeeded(self) -> bool {
        self.reply.status == Status::NoError
    }

    /// The owned object that this exchange put into the layer's hands.
    pub open spec fn acquired(self) -> Option<Token> {
        match (self.entry.grants(), self.reply.value) {
            (Some(kind), Payload::Handle(handle)) if self.succeeded() => Some(
                Token { kind, handle },
            ),
            _ => None,
        }
    }

    /// The owned object that this exchange took out of the layer's hands:
    /// one released, or one that a new value took over.
    pub open spec fn disposed(self) -> Option<Token> {
        match self.entry {
            Entry::Destroy { kind, object } => Some(Token { kind, handle: object }),
            Entry::ValueMakeFrom { tag, object } => match tag.spec_object_kind() {
                Some(kind) if self.succeeded() && self.reply.value is Handle => Some(
                    Token { kind, handle: object },
                ),
                _ => None,
            },
            _ => None,
        }
    }

    /// By how much this exchange changes the number of times `token` is held.
    pub open spec fn credit(self, token: Token) -> int {
        (if self.acquired() == Some(token) {
            1int
        } else {
            0int
        }) - (if self.disposed() == Some(token) {
            1int
        } else {
            0int
        })
    }
}

/// How many times `token` is held after the exchanges of `trace`: once for
/// each time the host handed it out, less once for each time it was given up.
pub open spec fn held(trace: Seq<Exchange>, token: Token) -> int
    decreases trace.len(),
{
    if trace.len() == 0 {
        0
    } else {
        held(trace.drop_last(), token) + trace.last().credit(token)
    }
}

/// How many times `token` was released in `trace`.
pub open spec fn releases(trace: Seq<Exchange>, token: Token) -> nat
    decreases trace.len(),
{
    if trace.len() == 0 {
        0
    } else {
        releases(trace.drop_last(), token) + (if trace.last().entry == (Entry::Destroy {
            kind: token.kind,
            object: token.handle,
        }) {
            1nat
        } else {
            0nat
        })
    }
}

/// One more exchange changes the account of `token` by what that exchange
/// alone does to it.
pub proof fn lemma_held_push(trace: Seq<Exchange>, x: Exchange, token: Token)
    ensures
        held(trace.push(x), token) == held(trace, token) + x.credit(token),
        releases(trace.push(x), token) == releases(trace, token) + (if x.entry == (Entry::Destroy {
            kind: token.kind,
            object: token.handle,
        }) {
            1nat
        } else {
            0nat
        }),
{
    assert(trace.push(x).drop_last() =~= trace);
}

/// The seam: the one place through which the host is reached. An
/// implementation performs the call that `entry` names and reports what the
/// host answered; nothing is assumed of the answer.
pub trait Host {
    fn invoke(&mut self, entry: Entry, text: &[u8]) -> Reply;
}

} // verus!
