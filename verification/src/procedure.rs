//! Registration of procedures: a module declares each procedure by name, then
//! its required parameters, its optional parameters and its result columns,
//! in that order.

use vstd::prelude::*;
use crate::memgraph::{lemma_continues_chain, Memgraph};
use crate::mgp::{Entry, Exchange, Handle, Host, Kind, TypeName};
use crate::result::MgpError;
use crate::text::{c_string, is_c_string};
use crate::value::{to_mgp_value_run, Value, ValueView};

verus! {

/// A type that holds another.
#[derive(Clone, Copy, Debug, PartialEq, Eq, Structural)]
pub enum Wrapper {
    List,
    Nullable,
}

/// The type of a parameter or of a result column: a base type inside zero or
/// more wrappers, the outermost first. A list of integers is the base `Int`
/// inside the one wrapper `List`.
#[derive(Clone, Debug, PartialEq, Eq)]
pub struct Type {
    pub wrappers: Vec<Wrapper>,
    pub base: TypeName,
}

/// A required parameter or a result column.
#[derive(Clone, Debug, PartialEq, Eq)]
pub struct NamedType {
    pub name: Vec<u8>,
    pub declared: Type,
}

/// An optional parameter, with the value it takes when it is left out.
#[derive(Clone, Debug, PartialEq, Eq)]
pub struct OptionalNamedType {
    pub name: Vec<u8>,
    pub declared: Type,
    pub default: Value,
}

/// What a named type is declared as.
#[derive(Clone, Copy, Debug, PartialEq, Eq, Structural)]
pub enum Role {
    /// A required parameter of the procedure.
    Argument,
    /// A column of the rows that the procedure gives.
    Column,
}

/// A declared type as contracts see it.
pub struct TypeView {
    pub wrappers: Seq<Wrapper>,
    pub base: TypeName,
}

/// A named type as contracts see it.
pub struct NamedTypeView {
    pub name: Seq<u8>,
    pub declared: TypeView,
}

/// An optional parameter as contracts see it.
pub struct OptionalNamedTypeView {
    pub name: Seq<u8>,
    pub declared: TypeView,
    pub default: ValueView,
}

impl View for Type {
    type V = TypeView;

    open spec fn view(&self) -> TypeView {
        TypeView { wrappers: self.wrappers@, base: self.base }
    }
}

impl View for NamedType {
    type V = NamedTypeView;

    open spec fn view(&self) -> NamedTypeView {
        NamedTypeView { name: self.name@, declared: self.declared@ }
    }
}

impl View for OptionalNamedType {
    type V = OptionalNamedTypeView;

    open spec fn view(&self) -> OptionalNamedTypeView {
        OptionalNamedTypeView {
            name: self.name@,
            declared: self.declared@,
            default: self.default@,
        }
    }
}

impl Wrapper {
    /// The call that asks the host for this wrapper around the type `inner`.
    pub open spec fn spec_entry(self, inner: Handle) -> Entry {
        match self {
            Wrapper::List => Entry::TypeList { element: inner },
            Wrapper::Nullable => Entry::TypeNullable { inner },
        }
    }

    #[verifier::when_used_as_spec(spec_entry)]
    pub fn entry(self, inner: Handle) -> (entry: Entry)
        ensures
            entry == self.spec_entry(inner),
    {
        match self {
            Wrapper::List => Entry::TypeList { element: inner },
            Wrapper::Nullable => Entry::TypeNullable { inner },
        }
    }
}

impl Role {
    /// The call that declares the type `declared` in this role.
    pub open spec fn spec_entry(self, procedure: Handle, declared: Handle) -> Entry {
        match self {
            Role::Argument => Entry::ProcedureAddArgument { procedure, declared },
            Role::Column => Entry::ProcedureAddResult { procedure, declared },
        }
    }

    /// The error that stands for a failure of that call.
    pub open spec fn spec_error(self) -> MgpError {
        match self {
            Role::Argument => MgpError::UnableToAddRequiredArguments,
            Role::Column => MgpError::UnableToAddReturnType,
        }
    }

    #[verifier::when_used_as_spec(spec_entry)]
    pub fn entry(self, procedure: Handle, declared: Handle) -> (entry: Entry)
        ensures
            entry == self.spec_entry(procedure, declared),
    {
        match self {
            Role::Argument => Entry::ProcedureAddArgument { procedure, declared },
            Role::Column => Entry::ProcedureAddResult { procedure, declared },
        }
    }

    #[verifier::when_used_as_spec(spec_error)]
    pub fn error(self) -> (error: MgpError)
        ensures
            error == self.spec_error(),
    {
        match self {
            Role::Argument => MgpError::UnableToAddRequiredArguments,
            Role::Column => MgpError::UnableToAddReturnType,
        }
    }
}

/// The exchanges `d` are those of putting the innermost `count` of
/// `wrappers` around the type `inner`, innermost first, and `r` is what they
/// come to.
pub open spec fn wrappers_run(
    wrappers: Seq<Wrapper>,
    count: int,
    inner: Handle,
    d: Seq<Exchange>,
    r: Result<Handle, MgpError>,
) -> bool
    decreases count,
{
    if count <= 0 {
        d.len() == 0 && r == Ok::<Handle, MgpError>(inner)
    } else {
        &&& d.len() >= 1
        &&& d[0].asks(wrappers[count - 1].spec_entry(inner), Seq::empty())
        &&& match d[0].reply.spec_handle_or(MgpError::AddProcedureParameterTypeError) {
            Err(e) => d.len() == 1 && r == Err::<Handle, MgpError>(e),
            Ok(outer) => wrappers_run(wrappers, count - 1, outer, d.skip(1), r),
        }
    }
}

/// The exchanges `d` are those of asking the host for the type `declared`,
/// and `r` is what they come to: the base type is asked for first, and then
/// each wrapper around what there is so far.
pub open spec fn resolve_run(declared: TypeView, d: Seq<Exchange>, r: Result<Handle, MgpError>) -> bool {
    &&& d.len() >= 1
    &&& d[0].asks(Entry::TypeOf { name: declared.base }, Seq::empty())
    &&& match d[0].reply.spec_handle_or(MgpError::AddProcedureParameterTypeError) {
        Err(e) => d.len() == 1 && r == Err::<Handle, MgpError>(e),
        Ok(base) => wrappers_run(
            declared.wrappers,
            declared.wrappers.len() as int,
            base,
            d.skip(1),
            r,
        ),
    }
}

/// What is still to come of the wrapping that has `count` wrappers to go.
#[verifier::opaque]
spec fn wrappers_pending(
    wrappers: Seq<Wrapper>,
    count: int,
    inner: Handle,
    d: Seq<Exchange>,
    r: Result<Handle, MgpError>,
) -> bool {
    wrappers_run(wrappers, count, inner, d, r)
}

/// A wrapper that the host refuses ends the asking with its failure.
proof fn lemma_wrappers_stop(
    wrappers: Seq<Wrapper>,
    count: int,
    inner: Handle,
    x: Exchange,
    e: MgpError,
)
    requires
        0 < count <= wrappers.len(),
        x.asks(wrappers[count - 1].spec_entry(inner), Seq::empty()),
        x.reply.spec_handle_or(MgpError::AddProcedureParameterTypeError) == Err::<
            Handle,
            MgpError,
        >(e),
    ensures
        wrappers_run(wrappers, count, inner, seq![x], Err::<Handle, MgpError>(e)),
{
}

/// A wrapper that the host grants is followed by the wrappers around it.
proof fn lemma_wrappers_step(
    wrappers: Seq<Wrapper>,
    count: int,
    inner: Handle,
    x: Exchange,
    outer: Handle,
    tail: Seq<Exchange>,
    end: Result<Handle, MgpError>,
)
    requires
        0 < count <= wrappers.len(),
        x.asks(wrappers[count - 1].spec_entry(inner), Seq::empty()),
        x.reply.spec_handle_or(MgpError::AddProcedureParameterTypeError) == Ok::<
            Handle,
            MgpError,
        >(outer),
        wrappers_run(wrappers, count - 1, outer, tail, end),
    ensures
        wrappers_run(wrappers, count, inner, seq![x] + tail, end),
{
    assert((seq![x] + tail).skip(1) =~= tail);
}

/// Asks the host for the type `declared`. Types belong to the host and are
/// not released.
#[verifier::loop_isolation(false)]
pub fn resolve<H: Host>(declared: &Type, mg: &mut Memgraph<H>) -> (r: Result<Handle, MgpError>)
    ensures
        final(mg).continues(*old(mg)),
        final(mg).balanced(*old(mg), None),
        resolve_run(declared@, final(mg).since(*old(mg)), r),
{
    let ghost s0 = *mg;
    let error = MgpError::AddProcedureParameterTypeError;
    let asked = mg.call(Entry::TypeOf { name: declared.base });
    let ghost s1 = *mg;
    let base = match asked.handle_or(error) {
        Ok(base) => base,
        Err(e) => {
            return Err(e);
        },
    };
    let ghost wrappers = declared.wrappers@;
    let ghost total = wrappers.len() as int;
    let mut inner = base;
    let mut count: usize = declared.wrappers.len();
    proof {
        assert(s1.since(s1) =~= Seq::<Exchange>::empty());
        assert(s1.trace() + Seq::<Exchange>::empty() =~= s1.trace());
        assert forall|tail: Seq<Exchange>, end: Result<Handle, MgpError>| #[trigger]
            wrappers_pending(wrappers, total, base, tail, end) implies wrappers_run(
            wrappers,
            total,
            base,
            s1.since(s1) + tail,
            end,
        ) by {
            reveal(wrappers_pending);
            assert(s1.since(s1) + tail =~= tail);
        }
    }
    while count > 0
        invariant
            count <= total,
            mg.continues(s1),
            mg.balanced(s1, None),
            forall|tail: Seq<Exchange>, end: Result<Handle, MgpError>| #[trigger]
                wrappers_pending(wrappers, count as int, inner, tail, end) ==> wrappers_run(
                    wrappers,
                    total,
                    base,
                    mg.since(s1) + tail,
                    end,
                ),
        decreases count,
    {
        let ghost a = *mg;
        let ghost before = inner;
        let reply = mg.call(declared.wrappers[count - 1].entry(inner));
        proof {
            lemma_continues_chain(s1, a, *mg);
        }
        let ghost x = mg.answer();
        match reply.handle_or(error) {
            Err(e) => {
                proof {
                    assert(wrappers_pending(wrappers, count as int, before, seq![x], Err(e))) by {
                        reveal(wrappers_pending);
                        lemma_wrappers_stop(wrappers, count as int, before, x, e);
                    }
                    assert(mg.since(s1) =~= a.since(s1) + seq![x]);
                    lemma_continues_chain(s0, s1, *mg);
                    assert(mg.since(s0).skip(1) =~= mg.since(s1));
                }
                return Err(e);
            },
            Ok(outer) => {
                proof {
                    assert forall|tail: Seq<Exchange>, end: Result<Handle, MgpError>| #[trigger]
                        wrappers_pending(wrappers, count - 1, outer, tail, end) implies wrappers_run(
                        wrappers,
                        total,
                        base,
                        mg.since(s1) + tail,
                        end,
                    ) by {
                        assert(wrappers_pending(
                            wrappers,
                            count as int,
                            before,
                            seq![x] + tail,
                            end,
                        )) by {
                            reveal(wrappers_pending);
                            lemma_wrappers_step(
                                wrappers,
                                count as int,
                                before,
                                x,
                                outer,
                                tail,
                                end,
                            );
                        }
                        assert(mg.since(s1) + tail =~= a.since(s1) + (seq![x] + tail));
                    }
                }
                inner = outer;
            },
        }
        count = count - 1;
    }
    proof {
        assert(wrappers_pending(
            wrappers,
            0,
            inner,
            Seq::<Exchange>::empty(),
            Ok::<Handle, MgpError>(inner),
        )) by {
            reveal(wrappers_pending);
        }
        assert(mg.since(s1) + Seq::<Exchange>::empty() =~= mg.since(s1));
        lemma_continues_chain(s0, s1, *mg);
        assert(mg.since(s0).skip(1) =~= mg.since(s1));
    }
    Ok(inner)
}

/// The first `n` of the exchanges `d` are those of asking the host for the
/// type of `item`, with the outcome `resolved`; if there is a type, one more
/// follows, which declares it under the name of `item` in `role`; and `r` is
/// what the whole comes to.
pub open spec fn named_split(
    procedure: Handle,
    role: Role,
    item: NamedTypeView,
    d: Seq<Exchange>,
    r: Result<(), MgpError>,
    n: int,
    resolved: Result<Handle, MgpError>,
) -> bool {
    &&& 0 <= n <= d.len()
    &&& resolve_run(item.declared, d.take(n), resolved)
    &&& match resolved {
        Err(e) => n == d.len() && r == Err::<(), MgpError>(e),
        Ok(declared) => {
            &&& d.len() == n + 1
            &&& d[n].asks(role.spec_entry(procedure, declared), item.name)
            &&& r == d[n].reply.spec_done_or(role.spec_error())
        },
    }
}

/// The exchanges `d` are those of declaring `item` in `role`, and `r` is what
/// they come to. A name that the host cannot hold is refused without a call.
pub open spec fn named_run(
    procedure: Handle,
    role: Role,
    item: NamedTypeView,
    d: Seq<Exchange>,
    r: Result<(), MgpError>,
) -> bool {
    if is_c_string(item.name) {
        exists|n: int, resolved: Result<Handle, MgpError>|
            named_split(procedure, role, item, d, r, n, resolved)
    } else {
        d.len() == 0 && r == Err::<(), MgpError>(MgpError::UnableToCreateCString)
    }
}

/// The first `n` of the exchanges `d` are those of asking the host for the
/// type of `item`, with the outcome `resolved`; those up to `m` are those of
/// making a value of the host out of the default, with the outcome `made`;
/// then come the call that declares the parameter and the release of the
/// value made for it; and `r` is what the whole comes to.
pub open spec fn optional_split(
    procedure: Handle,
    item: OptionalNamedTypeView,
    d: Seq<Exchange>,
    r: Result<(), MgpError>,
    n: int,
    resolved: Result<Handle, MgpError>,
    m: int,
    made: Result<Handle, MgpError>,
) -> bool {
    &&& 0 <= n <= d.len()
    &&& resolve_run(item.declared, d.take(n), resolved)
    &&& match resolved {
        Err(e) => n == d.len() && r == Err::<(), MgpError>(e),
        Ok(declared) => {
            &&& n <= m <= d.len()
            &&& to_mgp_value_run(item.default, d.subrange(n, m), made)
            &&& match made {
                Err(e) => m == d.len() && r == Err::<(), MgpError>(e),
                Ok(default) => {
                    &&& d.len() == m + 2
                    &&& d[m].asks(
                        Entry::ProcedureAddOptionalArgument { procedure, declared, default },
                        item.name,
                    )
                    &&& d[m + 1].asks(
                        Entry::Destroy { kind: Kind::Value, object: default },
                        Seq::empty(),
                    )
                    &&& r == d[m].reply.spec_done_or(MgpError::UnableToAddOptionalArguments)
                },
            }
        },
    }
}

/// The exchanges `d` are those of declaring the optional parameter `item`,
/// and `r` is what they come to. A name that the host cannot hold is refused
/// without a call.
pub open spec fn optional_run(
    procedure: Handle,
    item: OptionalNamedTypeView,
    d: Seq<Exchange>,
    r: Result<(), MgpError>,
) -> bool {
    if is_c_string(item.name) {
        exists|n: int, resolved: Result<Handle, MgpError>, m: int, made: Result<Handle, MgpError>|
            optional_split(procedure, item, d, r, n, resolved, m, made)
    } else {
        d.len() == 0 && r == Err::<(), MgpError>(MgpError::UnableToCreateCString)
    }
}

/// The first `n` of the exchanges `d` are those of declaring `item`, with the
/// outcome `first`.
pub open spec fn named_all_split(
    procedure: Handle,
    role: Role,
    item: NamedTypeView,
    d: Seq<Exchange>,
    n: int,
    first: Result<(), MgpError>,
) -> bool {
    0 <= n <= d.len() && named_run(procedure, role, item, d.take(n), first)
}

/// The exchanges `d` are those of declaring the named types of `items` from `from` on, in
/// order and up to the first failure, and `r` is what they come to.
pub open spec fn named_all_run(
    procedure: Handle,
    role: Role,
    items: Seq<NamedTypeView>,
    from: int,
    d: Seq<Exchange>,
    r: Result<(), MgpError>,
) -> bool
    decreases items.len() - from,
{
    if from < 0 || from >= items.len() {
        d.len() == 0 && r == Ok::<(), MgpError>(())
    } else {
        exists|n: int, first: Result<(), MgpError>|
            #![trigger named_all_split(procedure, role, items[from], d, n, first)]
            named_all_split(procedure, role, items[from], d, n, first) && match first {
                Err(e) => n == d.len() && r == Err::<(), MgpError>(e),
                Ok(_) => named_all_run(procedure, role, items, from + 1, d.skip(n), r),
            }
    }
}

/// The first `n` of the exchanges `d` are those of declaring `item`, with the
/// outcome `first`.
pub open spec fn optional_all_split(
    procedure: Handle,
    item: OptionalNamedTypeView,
    d: Seq<Exchange>,
    n: int,
    first: Result<(), MgpError>,
) -> bool {
    0 <= n <= d.len() && optional_run(procedure, item, d.take(n), first)
}

/// The exchanges `d` are those of declaring the optional parameters of `items` from `from` on, in
/// order and up to the first failure, and `r` is what they come to.
pub open spec fn optional_all_run(
    procedure: Handle,
    items: Seq<OptionalNamedTypeView>,
    from: int,
    d: Seq<Exchange>,
    r: Result<(), MgpError>,
) -> bool
    decreases items.len() - from,
{
    if from < 0 || from >= items.len() {
        d.len() == 0 && r == Ok::<(), MgpError>(())
    } else {
        exists|n: int, first: Result<(), MgpError>|
            #![trigger optional_all_split(procedure, items[from], d, n, first)]
            optional_all_split(procedure, items[from], d, n, first) && match first {
                Err(e) => n == d.len() && r == Err::<(), MgpError>(e),
                Ok(_) => optional_all_run(procedure, items, from + 1, d.skip(n), r),
            }
    }
}

/// Declares `item` in `role`.
fn declare_named<H: Host>(procedure: Handle, role: Role, item: &NamedType, mg: &mut Memgraph<H>) -> (r:
    Result<(), MgpError>)
    ensures
        final(mg).continues(*old(mg)),
        final(mg).balanced(*old(mg), None),
        named_run(procedure, role, item@, final(mg).since(*old(mg)), r),
{
    let ghost s0 = *mg;
    let name = match c_string(item.name.as_slice()) {
        Ok(name) => name,
        Err(e) => {
            assert(mg.since(s0) =~= Seq::<Exchange>::empty());
            assert(mg.trace() + Seq::<Exchange>::empty() =~= mg.trace());
            return Err(e);
        },
    };
    match resolve(&item.declared, mg) {
        Err(e) => {
            proof {
                let d = mg.since(s0);
                assert(d.take(d.len() as int) =~= d);
                assert(named_split(
                    procedure,
                    role,
                    item@,
                    d,
                    Err::<(), MgpError>(e),
                    d.len() as int,
                    Err::<Handle, MgpError>(e),
                ));
            }
            Err(e)
        },
        Ok(declared) => {
            let ghost s1 = *mg;
            let r = mg.invoke(role.entry(procedure, declared), name.as_slice()).done_or(
                role.error(),
            );
            proof {
                lemma_continues_chain(s0, s1, *mg);
                let d = mg.since(s0);
                let n = s1.since(s0).len() as int;
                assert(d.take(n) =~= s1.since(s0));
                assert(named_split(
                    procedure,
                    role,
                    item@,
                    d,
                    r,
                    n,
                    Ok::<Handle, MgpError>(declared),
                ));
            }
            r
        },
    }
}

/// Declares the optional parameter `item`.
fn declare_optional<H: Host>(procedure: Handle, item: &OptionalNamedType, mg: &mut Memgraph<H>) -> (r:
    Result<(), MgpError>)
    ensures
        final(mg).continues(*old(mg)),
        final(mg).balanced(*old(mg), None),
        optional_run(procedure, item@, final(mg).since(*old(mg)), r),
{
    let ghost s0 = *mg;
    let name = match c_string(item.name.as_slice()) {
        Ok(name) => name,
        Err(e) => {
            assert(mg.since(s0) =~= Seq::<Exchange>::empty());
            assert(mg.trace() + Seq::<Exchange>::empty() =~= mg.trace());
            return Err(e);
        },
    };
    let declared = match resolve(&item.declared, mg) {
        Ok(declared) => declared,
        Err(e) => {
            proof {
                let d = mg.since(s0);
                assert(d.take(d.len() as int) =~= d);
                assert(optional_split(
                    procedure,
                    item@,
                    d,
                    Err::<(), MgpError>(e),
                    d.len() as int,
                    Err::<Handle, MgpError>(e),
                    d.len() as int,
                    Err::<Handle, MgpError>(e),
                ));
            }
            return Err(e);
        },
    };
    let ghost s1 = *mg;
    let default = match item.default.to_mgp_value(mg) {
        Ok(default) => default,
        Err(e) => {
            proof {
                lemma_continues_chain(s0, s1, *mg);
                let d = mg.since(s0);
                let n = s1.since(s0).len() as int;
                assert(d.take(n) =~= s1.since(s0));
                assert(d.subrange(n, d.len() as int) =~= mg.since(s1));
                assert(optional_split(
                    procedure,
                    item@,
                    d,
                    Err::<(), MgpError>(e),
                    n,
                    Ok::<Handle, MgpError>(declared),
                    d.len() as int,
                    Err::<Handle, MgpError>(e),
                ));
            }
            return Err(e);
        },
    };
    let ghost s2 = *mg;
    let entry = Entry::ProcedureAddOptionalArgument {
        procedure,
        declared,
        default: default.handle(),
    };
    let r = mg.invoke(entry, name.as_slice()).done_or(MgpError::UnableToAddOptionalArguments);
    let ghost s3 = *mg;
    let ghost made = default.spec_handle();
    default.release(mg);
    proof {
        lemma_continues_chain(s0, s1, s2);
        lemma_continues_chain(s2, s3, *mg);
        lemma_continues_chain(s0, s2, *mg);
        let d = mg.since(s0);
        let n = s1.since(s0).len() as int;
        let m = s2.since(s0).len() as int;
        assert(mg.since(s2) =~= seq![s3.answer(), mg.answer()]);
        assert(d.take(n) =~= s1.since(s0));
        assert(d.subrange(n, m) =~= s2.since(s1));
        assert(optional_split(
            procedure,
            item@,
            d,
            r,
            n,
            Ok::<Handle, MgpError>(declared),
            m,
            Ok::<Handle, MgpError>(made),
        ));
    }
    r
}

/// Past the last item nothing is exchanged and the declarations went well.
proof fn lemma_named_done(
    procedure: Handle,
    role: Role,
    items: Seq<NamedTypeView>,
    from: int,
)
    requires
        from >= items.len(),
    ensures
        named_all_run(procedure, role, items, from, Seq::<Exchange>::empty(), Ok::<(), MgpError>(())),
{
}

/// A declaration that fails ends the declarations with its failure.
proof fn lemma_named_stop(
    procedure: Handle,
    role: Role,
    items: Seq<NamedTypeView>,
    from: int,
    step: Seq<Exchange>,
    e: MgpError,
)
    requires
        0 <= from < items.len(),
        named_run(procedure, role, items[from], step, Err::<(), MgpError>(e)),
    ensures
        named_all_run(procedure, role, items, from, step, Err::<(), MgpError>(e)),
{
    assert(step.take(step.len() as int) =~= step);
    assert(named_all_split(
        procedure,
        role,
        items[from],
        step,
        step.len() as int,
        Err::<(), MgpError>(e),
    ));
}

/// A declaration that goes well is followed by the declarations after it.
proof fn lemma_named_step(
    procedure: Handle,
    role: Role,
    items: Seq<NamedTypeView>,
    from: int,
    step: Seq<Exchange>,
    tail: Seq<Exchange>,
    end: Result<(), MgpError>,
)
    requires
        0 <= from < items.len(),
        named_run(procedure, role, items[from], step, Ok::<(), MgpError>(())),
        named_all_run(procedure, role, items, from + 1, tail, end),
    ensures
        named_all_run(procedure, role, items, from, step + tail, end),
{
    let whole = step + tail;
    assert(whole.take(step.len() as int) =~= step);
    assert(whole.skip(step.len() as int) =~= tail);
    assert(named_all_split(
        procedure,
        role,
        items[from],
        whole,
        step.len() as int,
        Ok::<(), MgpError>(()),
    ));
}

/// Past the last item nothing is exchanged and the declarations went well.
proof fn lemma_optional_done(
    procedure: Handle,
    items: Seq<OptionalNamedTypeView>,
    from: int,
)
    requires
        from >= items.len(),
    ensures
        optional_all_run(procedure, items, from, Seq::<Exchange>::empty(), Ok::<(), MgpError>(())),
{
}

/// A declaration that fails ends the declarations with its failure.
proof fn lemma_optional_stop(
    procedure: Handle,
    items: Seq<OptionalNamedTypeView>,
    from: int,
    step: Seq<Exchange>,
    e: MgpError,
)
    requires
        0 <= from < items.len(),
        optional_run(procedure, items[from], step, Err::<(), MgpError>(e)),
    ensures
        optional_all_run(procedure, items, from, step, Err::<(), MgpError>(e)),
{
    assert(step.take(step.len() as int) =~= step);
    assert(optional_all_split(
        procedure,
        items[from],
        step,
        step.len() as int,
        Err::<(), MgpError>(e),
    ));
}

/// A declaration that goes well is followed by the declarations after it.
proof fn lemma_optional_step(
    procedure: Handle,
    items: Seq<OptionalNamedTypeView>,
    from: int,
    step: Seq<Exchange>,
    tail: Seq<Exchange>,
    end: Result<(), MgpError>,
)
    requires
        0 <= from < items.len(),
        optional_run(procedure, items[from], step, Ok::<(), MgpError>(())),
        optional_all_run(procedure, items, from + 1, tail, end),
    ensures
        optional_all_run(procedure, items, from, step + tail, end),
{
    let whole = step + tail;
    assert(whole.take(step.len() as int) =~= step);
    assert(whole.skip(step.len() as int) =~= tail);
    assert(optional_all_split(
        procedure,
        items[from],
        whole,
        step.len() as int,
        Ok::<(), MgpError>(()),
    ));
}

/// Named types taken by their views.
pub open spec fn named_views(items: Seq<NamedType>) -> Seq<NamedTypeView> {
    items.map_values(|item: NamedType| item@)
}

/// Optional parameters taken by their views.
pub open spec fn optional_views(items: Seq<OptionalNamedType>) -> Seq<OptionalNamedTypeView> {
    items.map_values(|item: OptionalNamedType| item@)
}

/// What is still to come of the declarations that have reached `from`.
#[verifier::opaque]
spec fn named_all_pending(
    procedure: Handle,
    role: Role,
    items: Seq<NamedTypeView>,
    from: int,
    d: Seq<Exchange>,
    r: Result<(), MgpError>,
) -> bool {
    named_all_run(procedure, role, items, from, d, r)
}

/// Declares the named types of `items` in `role`, in order and up to the first
/// failure.
#[verifier::loop_isolation(false)]
fn declare_all_named<H: Host>(
    procedure: Handle,
    role: Role,
    items: &[NamedType],
    mg: &mut Memgraph<H>,
) -> (r: Result<(), MgpError>)
    ensures
        final(mg).continues(*old(mg)),
        final(mg).balanced(*old(mg), None),
        named_all_run(procedure, role, named_views(items@), 0, final(mg).since(*old(mg)), r),
{
    let ghost s0 = *mg;
    let mut i: usize = 0;
    assert(named_views(items@).len() == items@.len());
    proof {
        assert(s0.since(s0) =~= Seq::<Exchange>::empty());
        assert(s0.trace() + Seq::<Exchange>::empty() =~= s0.trace());
        assert forall|tail: Seq<Exchange>, end: Result<(), MgpError>| #[trigger]
            named_all_pending(procedure, role, named_views(items@), 0, tail, end) implies named_all_run(
            procedure, role,
            named_views(items@),
            0,
            s0.since(s0) + tail,
            end,
        ) by {
            reveal(named_all_pending);
            assert(s0.since(s0) + tail =~= tail);
        }
    }
    while i < items.len()
        invariant
            i <= items.len(),
            mg.continues(s0),
            mg.balanced(s0, None),
            forall|tail: Seq<Exchange>, end: Result<(), MgpError>| #[trigger]
                named_all_pending(procedure, role, named_views(items@), i as int, tail, end) ==> named_all_run(
                    procedure, role,
                    named_views(items@),
                    0,
                    mg.since(s0) + tail,
                    end,
                ),
        decreases items.len() - i,
    {
        let ghost a = *mg;
        assert(named_views(items@)[i as int] == items@[i as int]@);
        let declared = declare_named(procedure, role, &items[i], mg);
        proof {
            lemma_continues_chain(s0, a, *mg);
        }
        let ghost step = mg.since(a);
        match declared {
            Err(e) => {
                proof {
                    assert(named_all_pending(
                        procedure, role,
                        named_views(items@),
                        i as int,
                        step,
                        Err::<(), MgpError>(e),
                    )) by {
                        reveal(named_all_pending);
                        lemma_named_stop(procedure, role, named_views(items@), i as int, step, e);
                    }
                    assert(mg.since(s0) =~= a.since(s0) + step);
                }
                return Err(e);
            },
            Ok(_) => {
                proof {
                    assert forall|tail: Seq<Exchange>, end: Result<(), MgpError>| #[trigger]
                        named_all_pending(
                            procedure, role,
                            named_views(items@),
                            i + 1,
                            tail,
                            end,
                        ) implies named_all_run(
                        procedure, role,
                        named_views(items@),
                        0,
                        mg.since(s0) + tail,
                        end,
                    ) by {
                        assert(named_all_pending(procedure, role, named_views(items@), i as int, step + tail, end)) by {
                            reveal(named_all_pending);
                            lemma_named_step(
                                procedure, role,
                                named_views(items@),
                                i as int,
                                step,
                                tail,
                                end,
                            );
                        }
                        assert(mg.since(s0) + tail =~= a.since(s0) + (step + tail));
                    }
                }
            },
        }
        i = i + 1;
    }
    proof {
        assert(named_all_pending(
            procedure, role,
            named_views(items@),
            i as int,
            Seq::<Exchange>::empty(),
            Ok::<(), MgpError>(()),
        )) by {
            reveal(named_all_pending);
            lemma_named_done(procedure, role, named_views(items@), i as int);
        }
        assert(mg.since(s0) + Seq::<Exchange>::empty() =~= mg.since(s0));
    }
    Ok(())
}

/// What is still to come of the declarations that have reached `from`.
#[verifier::opaque]
spec fn optional_all_pending(
    procedure: Handle,
    items: Seq<OptionalNamedTypeView>,
    from: int,
    d: Seq<Exchange>,
    r: Result<(), MgpError>,
) -> bool {
    optional_all_run(procedure, items, from, d, r)
}

/// Declares the optional parameters of `items`, in order and up to the first
/// failure.
#[verifier::loop_isolation(false)]
fn declare_all_optional<H: Host>(
    procedure: Handle,
    items: &[OptionalNamedType],
    mg: &mut Memgraph<H>,
) -> (r: Result<(), MgpError>)
    ensures
        final(mg).continues(*old(mg)),
        final(mg).balanced(*old(mg), None),
        optional_all_run(procedure, optional_views(items@), 0, final(mg).since(*old(mg)), r),
{
    let ghost s0 = *mg;
    let mut i: usize = 0;
    assert(optional_views(items@).len() == items@.len());
    proof {
        assert(s0.since(s0) =~= Seq::<Exchange>::empty());
        assert(s0.trace() + Seq::<Exchange>::empty() =~= s0.trace());
        assert forall|tail: Seq<Exchange>, end: Result<(), MgpError>| #[trigger]
            optional_all_pending(procedure, optional_views(items@), 0, tail, end) implies optional_all_run(
            procedure,
            optional_views(items@),
            0,
            s0.since(s0) + tail,
            end,
        ) by {
            reveal(optional_all_pending);
            assert(s0.since(s0) + tail =~= tail);
        }
    }
    while i < items.len()
        invariant
            i <= items.len(),
            mg.continues(s0),
            mg.balanced(s0, None),
            forall|tail: Seq<Exchange>, end: Result<(), MgpError>| #[trigger]
                optional_all_pending(procedure, optional_views(items@), i as int, tail, end) ==> optional_all_run(
                    procedure,
                    optional_views(items@),
                    0,
                    mg.since(s0) + tail,
                    end,
                ),
        decreases items.len() - i,
    {
        let ghost a = *mg;
        assert(optional_views(items@)[i as int] == items@[i as int]@);
        let declared = declare_optional(procedure, &items[i], mg);
        proof {
            lemma_continues_chain(s0, a, *mg);
        }
        let ghost step = mg.since(a);
        match declared {
            Err(e) => {
                proof {
                    assert(optional_all_pending(
                        procedure,
                        optional_views(items@),
                        i as int,
                        step,
                        Err::<(), MgpError>(e),
                    )) by {
                        reveal(optional_all_pending);
                        lemma_optional_stop(procedure, optional_views(items@), i as int, step, e);
                    }
                    assert(mg.since(s0) =~= a.since(s0) + step);
                }
                return Err(e);
            },
            Ok(_) => {
                proof {
                    assert forall|tail: Seq<Exchange>, end: Result<(), MgpError>| #[trigger]
                        optional_all_pending(
                            procedure,
                            optional_views(items@),
                            i + 1,
                            tail,
                            end,
                        ) implies optional_all_run(
                        procedure,
                        optional_views(items@),
                        0,
                        mg.since(s0) + tail,
                        end,
                    ) by {
                        assert(optional_all_pending(procedure, optional_views(items@), i as int, step + tail, end)) by {
                            reveal(optional_all_pending);
                            lemma_optional_step(
                                procedure,
                                optional_views(items@),
                                i as int,
                                step,
                                tail,
                                end,
                            );
                        }
                        assert(mg.since(s0) + tail =~= a.since(s0) + (step + tail));
                    }
                }
            },
        }
        i = i + 1;
    }
    proof {
        assert(optional_all_pending(
            procedure,
            optional_views(items@),
            i as int,
            Seq::<Exchange>::empty(),
            Ok::<(), MgpError>(()),
        )) by {
            reveal(optional_all_pending);
            lemma_optional_done(procedure, optional_views(items@), i as int);
        }
        assert(mg.since(s0) + Seq::<Exchange>::empty() =~= mg.since(s0));
    }
    Ok(())
}

/// The first `a` of the exchanges `d` are those of declaring the required
/// parameters, with the outcome `first`; those up to `b` are those of
/// declaring the optional parameters, with the outcome `second`; the rest
/// are those of declaring the result columns; and `r` is what the whole comes
/// to. Each part is begun only if the one before it went well.
pub open spec fn signature_split(
    procedure: Handle,
    required: Seq<NamedTypeView>,
    optional: Seq<OptionalNamedTypeView>,
    results: Seq<NamedTypeView>,
    d: Seq<Exchange>,
    r: Result<(), MgpError>,
    a: int,
    first: Result<(), MgpError>,
    b: int,
    second: Result<(), MgpError>,
) -> bool {
    &&& 0 <= a <= d.len()
    &&& named_all_run(procedure, Role::Argument, required, 0, d.take(a), first)
    &&& match first {
        Err(e) => a == d.len() && r == Err::<(), MgpError>(e),
        Ok(_) => {
            &&& a <= b <= d.len()
            &&& optional_all_run(procedure, optional, 0, d.subrange(a, b), second)
            &&& match second {
                Err(e) => b == d.len() && r == Err::<(), MgpError>(e),
                Ok(_) => named_all_run(procedure, Role::Column, results, 0, d.skip(b), r),
            }
        },
    }
}

/// The exchanges `d` are those of registering the procedure `name` with the
/// given signature, and `r` is what they come to: the procedure is added to
/// the module, and then its required parameters, its optional parameters and
/// its result columns are declared, in that order and up to the first
/// failure. A name that the host cannot hold is refused without a call.
pub open spec fn register_run(
    module: Handle,
    name: Seq<u8>,
    required: Seq<NamedTypeView>,
    optional: Seq<OptionalNamedTypeView>,
    results: Seq<NamedTypeView>,
    d: Seq<Exchange>,
    r: Result<(), MgpError>,
) -> bool {
    if is_c_string(name) {
        &&& d.len() >= 1
        &&& d[0].asks(Entry::ModuleAddReadProcedure { module }, name)
        &&& match d[0].reply.spec_handle_or(MgpError::UnableToRegisterReadProcedure) {
            Err(e) => d.len() == 1 && r == Err::<(), MgpError>(e),
            Ok(procedure) => exists|
                a: int,
                first: Result<(), MgpError>,
                b: int,
                second: Result<(), MgpError>,
            |
                signature_split(
                    procedure,
                    required,
                    optional,
                    results,
                    d.skip(1),
                    r,
                    a,
                    first,
                    b,
                    second,
                ),
        }
    } else {
        d.len() == 0 && r == Err::<(), MgpError>(MgpError::UnableToCreateCString)
    }
}

impl<H: Host> Memgraph<H> {
    /// Registers the read procedure `name` with the module: its required
    /// parameters, its optional parameters and its result columns are
    /// declared in that order. The first failure ends the registration.
    pub fn add_read_procedure(
        &mut self,
        name: &[u8],
        required: &[NamedType],
        optional: &[OptionalNamedType],
        results: &[NamedType],
    ) -> (r: Result<(), MgpError>)
        ensures
            final(self).continues(*old(self)),
            final(self).balanced(*old(self), None),
            register_run(
                old(self).spec_context().module,
                name@,
                named_views(required@),
                optional_views(optional@),
                named_views(results@),
                final(self).since(*old(self)),
                r,
            ),
    {
        let ghost s0 = *self;
        let name = match c_string(name) {
            Ok(name) => name,
            Err(e) => {
                assert(self.since(s0) =~= Seq::<Exchange>::empty());
                assert(self.trace() + Seq::<Exchange>::empty() =~= self.trace());
                return Err(e);
            },
        };
        let module = self.context().module;
        let added = self.invoke(Entry::ModuleAddReadProcedure { module }, name.as_slice());
        let ghost s1 = *self;
        let procedure = match added.handle_or(MgpError::UnableToRegisterReadProcedure) {
            Ok(procedure) => procedure,
            Err(e) => {
                return Err(e);
            },
        };
        let first = declare_all_named(procedure, Role::Argument, required, self);
        let ghost s2 = *self;
        proof {
            lemma_continues_chain(s0, s1, s2);
            assert(s2.since(s0).skip(1) =~= s2.since(s1));
        }
        if let Err(e) = first {
            proof {
                let d = s2.since(s1);
                assert(d.take(d.len() as int) =~= d);
                assert(signature_split(
                    procedure,
                    named_views(required@),
                    optional_views(optional@),
                    named_views(results@),
                    d,
                    Err::<(), MgpError>(e),
                    d.len() as int,
                    first,
                    d.len() as int,
                    first,
                ));
            }
            return Err(e);
        }
        let second = declare_all_optional(procedure, optional, self);
        let ghost s3 = *self;
        proof {
            lemma_continues_chain(s1, s2, s3);
            lemma_continues_chain(s0, s1, s3);
            assert(s3.since(s0).skip(1) =~= s3.since(s1));
        }
        if let Err(e) = second {
            proof {
                let d = s3.since(s1);
                let a = s2.since(s1).len() as int;
                assert(d.take(a) =~= s2.since(s1));
                assert(d.subrange(a, d.len() as int) =~= s3.since(s2));
                assert(signature_split(
                    procedure,
                    named_views(required@),
                    optional_views(optional@),
                    named_views(results@),
                    d,
                    Err::<(), MgpError>(e),
                    a,
                    first,
                    d.len() as int,
                    second,
                ));
            }
            return Err(e);
        }
        let r = declare_all_named(procedure, Role::Column, results, self);
        proof {
            lemma_continues_chain(s1, s3, *self);
            lemma_continues_chain(s0, s1, *self);
            let d = self.since(s1);
            let a = s2.since(s1).len() as int;
            let b = s3.since(s1).len() as int;
            assert(self.since(s0).skip(1) =~= d);
            assert(d.take(a) =~= s2.since(s1));
            assert(d.subrange(a, b) =~= s3.since(s2));
            assert(d.skip(b) =~= self.since(s3));
            assert(signature_split(
                procedure,
                named_views(required@),
                optional_views(optional@),
                named_views(results@),
                d,
                r,
                a,
                first,
                b,
                second,
            ));
        }
        r
    }
}

} // verus!
