//! The procedure `particle_filtering` as the host sees it: how it is
//! declared, how its argument is read, and how its rows are written. The
//! scoring itself is left to the caller.

use vstd::prelude::*;
use vstd::string::StringSliceAdditionalSpecFns;
use crate::list::{to_vec_run, value_at_run, values_result, views_of};
use crate::memgraph::{lemma_continues_chain, Memgraph};
use crate::mgp::{Entry, Exchange, Handle, Host, TypeName};
use crate::procedure::{
    named_views, optional_views, register_run, NamedType, NamedTypeView, OptionalNamedType,
    OptionalNamedTypeView, Type, TypeView, Wrapper,
};
use crate::result::MgpError;
use crate::text::is_c_string;
use crate::value::{give_run, Target, Value, ValueView};

verus! {

/// The name under which the procedure is registered.
pub open spec fn procedure_name() -> Seq<u8> {
    "particle_filtering".spec_bytes()
}

/// The name of the one parameter: the nodes to start from.
pub open spec fn node_list_name() -> Seq<u8> {
    "node_list".spec_bytes()
}

/// The name of the result column that holds the node.
pub open spec fn node_id_name() -> Seq<u8> {
    "node_id".spec_bytes()
}

/// The name of the result column that holds the score.
pub open spec fn score_name() -> Seq<u8> {
    "score".spec_bytes()
}

/// The required parameters: `node_list`, a list of integers.
pub open spec fn required_parameters() -> Seq<NamedTypeView> {
    seq![
        NamedTypeView {
            name: node_list_name(),
            declared: TypeView { wrappers: seq![Wrapper::List], base: TypeName::Int },
        },
    ]
}

/// The result columns: `node_id`, an integer, and `score`, a double.
pub open spec fn result_columns() -> Seq<NamedTypeView> {
    seq![
        NamedTypeView {
            name: node_id_name(),
            declared: TypeView { wrappers: Seq::empty(), base: TypeName::Int },
        },
        NamedTypeView {
            name: score_name(),
            declared: TypeView { wrappers: Seq::empty(), base: TypeName::Double },
        },
    ]
}

/// The names that the procedure uses can all be handed to the host.
pub proof fn lemma_names_are_c_strings()
    ensures
        is_c_string(procedure_name()),
        is_c_string(node_list_name()),
        is_c_string(node_id_name()),
        is_c_string(score_name()),
{
    broadcast use vstd::string::is_ascii_spec_bytes;

    reveal_strlit("particle_filtering");
    reveal_strlit("node_list");
    reveal_strlit("node_id");
    reveal_strlit("score");
    assert(vstd::string::is_ascii("particle_filtering"));
    assert(vstd::string::is_ascii("node_list"));
    assert(vstd::string::is_ascii("node_id"));
    assert(vstd::string::is_ascii("score"));
}

/// Registers the procedure with the module: one required parameter,
/// `node_list`, a list of integers; no optional parameters; and the result
/// columns `node_id`, an integer, and `score`, a double.
pub fn register<H: Host>(mg: &mut Memgraph<H>) -> (r: Result<(), MgpError>)
    ensures
        final(mg).continues(*old(mg)),
        final(mg).balanced(*old(mg), None),
        register_run(
            old(mg).spec_context().module,
            procedure_name(),
            required_parameters(),
            Seq::empty(),
            result_columns(),
            final(mg).since(*old(mg)),
            r,
        ),
{
    let required = vec![
        NamedType {
            name: "node_list".as_bytes_vec(),
            declared: Type { wrappers: vec![Wrapper::List], base: TypeName::Int },
        },
    ];
    let optional: Vec<OptionalNamedType> = Vec::new();
    let results = vec![
        NamedType {
            name: "node_id".as_bytes_vec(),
            declared: Type { wrappers: Vec::new(), base: TypeName::Int },
        },
        NamedType {
            name: "score".as_bytes_vec(),
            declared: Type { wrappers: Vec::new(), base: TypeName::Double },
        },
    ];
    proof {
        assert(required@[0]@.declared.wrappers =~= seq![Wrapper::List]);
        assert(named_views(required@) =~= required_parameters());
        assert(optional_views(optional@) =~= Seq::<OptionalNamedTypeView>::empty());
        assert(named_views(results@) =~= result_columns());
    }
    mg.add_read_procedure(
        "particle_filtering".as_bytes(),
        required.as_slice(),
        optional.as_slice(),
        results.as_slice(),
    )
}

/// The integers that `values` hold, if each of them is an integer.
pub open spec fn ints_of(values: Result<Seq<ValueView>, MgpError>) -> Result<Seq<i64>, MgpError> {
    match values {
        Err(e) => Err(e),
        Ok(values) => if forall|i: int| 0 <= i < values.len() ==> (#[trigger] values[i]) is Int {
            Ok(Seq::new(values.len(), |i: int| values[i]->Int_0))
        } else {
            Err(MgpError::ValueTypeMismatch)
        },
    }
}

/// A result that carries integers, with the integers taken by their view.
pub open spec fn ints_result(r: Result<Vec<i64>, MgpError>) -> Result<Seq<i64>, MgpError> {
    match r {
        Ok(ints) => Ok(ints@),
        Err(e) => Err(e),
    }
}

/// The first `n` of the exchanges `d` are those of reading the first of the
/// arguments `args`, with the outcome `first`; if that is a list, the rest
/// are those of reading its values, with the outcome `values`; and `r` is
/// what the whole comes to. An argument that is no list, and a value of the
/// list that is no integer, is a mismatch.
pub open spec fn node_list_split(
    args: Handle,
    d: Seq<Exchange>,
    r: Result<Seq<i64>, MgpError>,
    n: int,
    first: Result<ValueView, MgpError>,
    values: Result<Seq<ValueView>, MgpError>,
) -> bool {
    &&& 0 <= n <= d.len()
    &&& value_at_run(args, 0, d.take(n), first)
    &&& match first {
        Err(e) => n == d.len() && r == Err::<Seq<i64>, MgpError>(e),
        Ok(ValueView::List(list)) => to_vec_run(list.handle, d.skip(n), values) && r == ints_of(
            values,
        ),
        Ok(_) => n == d.len() && r == Err::<Seq<i64>, MgpError>(MgpError::ValueTypeMismatch),
    }
}

/// The exchanges `d` are those of reading the argument `node_list` out of
/// the arguments `args`, and `r` is what they come to.
pub open spec fn node_list_run(args: Handle, d: Seq<Exchange>, r: Result<Seq<i64>, MgpError>) -> bool {
    exists|n: int, first: Result<ValueView, MgpError>, values: Result<Seq<ValueView>, MgpError>|
        node_list_split(args, d, r, n, first, values)
}

/// The integers that `values` hold, if each of them is an integer.
fn ints(values: &Vec<Value>) -> (r: Result<Vec<i64>, MgpError>)
    ensures
        ints_result(r) == ints_of(Ok(views_of(values@))),
{
    let mut nodes: Vec<i64> = Vec::new();
    let mut i: usize = 0;
    while i < values.len()
        invariant
            i <= values.len(),
            nodes@.len() == i,
            forall|k: int| 0 <= k < i ==> (#[trigger] views_of(values@)[k]) == ValueView::Int(nodes@[k]),
        decreases values.len() - i,
    {
        assert(views_of(values@)[i as int] == values@[i as int]@);
        match values[i].as_int() {
            Ok(node) => {
                nodes.push(node);
            },
            Err(e) => {
                assert(!(views_of(values@)[i as int] is Int));
                return Err(e);
            },
        }
        i = i + 1;
    }
    proof {
        let views = views_of(values@);
        assert(nodes@ =~= Seq::new(views.len(), |k: int| views[k]->Int_0));
    }
    Ok(nodes)
}

/// Reads the argument `node_list` of the invocation: the first argument,
/// which has to be a list, and in it integers only. Any other case is
/// reported as a mismatch.
pub fn node_list<H: Host>(mg: &mut Memgraph<H>) -> (r: Result<Vec<i64>, MgpError>)
    ensures
        final(mg).continues(*old(mg)),
        final(mg).balanced(*old(mg), None),
        node_list_run(old(mg).spec_context().args, final(mg).since(*old(mg)), ints_result(r)),
{
    let ghost s0 = *mg;
    let args = mg.args();
    let first = args.value_at(0, mg);
    let ghost s1 = *mg;
    let ghost d1 = s1.since(s0);
    let list = match first {
        Err(e) => {
            proof {
                assert(d1.take(d1.len() as int) =~= d1);
                assert(node_list_split(
                    args.handle,
                    d1,
                    Err::<Seq<i64>, MgpError>(e),
                    d1.len() as int,
                    Err::<ValueView, MgpError>(e),
                    Err::<Seq<ValueView>, MgpError>(e),
                ));
            }
            return Err(e);
        },
        Ok(value) => match value.as_list() {
            Ok(list) => list,
            Err(e) => {
                proof {
                    assert(d1.take(d1.len() as int) =~= d1);
                    assert(node_list_split(
                        args.handle,
                        d1,
                        Err::<Seq<i64>, MgpError>(e),
                        d1.len() as int,
                        Ok::<ValueView, MgpError>(value@),
                        Err::<Seq<ValueView>, MgpError>(e),
                    ));
                }
                return Err(e);
            },
        },
    };
    let values = list.to_vec(mg);
    let r = match &values {
        Ok(values) => ints(values),
        Err(e) => Err(*e),
    };
    proof {
        lemma_continues_chain(s0, s1, *mg);
        let d = mg.since(s0);
        let n = d1.len() as int;
        assert(d.take(n) =~= d1);
        assert(d.skip(n) =~= mg.since(s1));
        assert(node_list_split(
            args.handle,
            d,
            ints_result(r),
            n,
            Ok::<ValueView, MgpError>(ValueView::List(list)),
            values_result(values),
        ));
    }
    r
}

/// The first exchange of `d` adds a row to the output `result`; those up to
/// `n` are those of writing the node into it, with the outcome `first`; the
/// rest are those of writing the score; and `r` is what the whole comes to.
pub open spec fn row_split(
    result: Handle,
    row: (i64, u64),
    d: Seq<Exchange>,
    r: Result<(), MgpError>,
    n: int,
    first: Result<(), MgpError>,
) -> bool {
    &&& d.len() >= 1
    &&& d[0].asks(Entry::ResultNewRecord { result }, Seq::empty())
    &&& match d[0].reply.spec_handle_or(MgpError::UnableToCreateResultRecord) {
        Err(e) => d.len() == 1 && r == Err::<(), MgpError>(e),
        Ok(record) => {
            &&& 1 <= n <= d.len()
            &&& give_run(
                Target::RecordInsert { record },
                node_id_name(),
                ValueView::Int(row.0),
                d.subrange(1, n),
                first,
            )
            &&& match first {
                Err(e) => n == d.len() && r == Err::<(), MgpError>(e),
                Ok(_) => give_run(
                    Target::RecordInsert { record },
                    score_name(),
                    ValueView::Double(row.1),
                    d.skip(n),
                    r,
                ),
            }
        },
    }
}

/// The exchanges `d` are those of writing the row `row`, a node and the bit
/// pattern of its score, to the output `result`, and `r` is what they come
/// to.
#[verifier::opaque]
pub open spec fn row_run(result: Handle, row: (i64, u64), d: Seq<Exchange>, r: Result<(), MgpError>) -> bool {
    exists|n: int, first: Result<(), MgpError>| row_split(result, row, d, r, n, first)
}

/// The first `n` of the exchanges `d` are those of writing `row`, with the
/// outcome `first`.
pub open spec fn rows_split(
    result: Handle,
    row: (i64, u64),
    d: Seq<Exchange>,
    n: int,
    first: Result<(), MgpError>,
) -> bool {
    0 <= n <= d.len() && row_run(result, row, d.take(n), first)
}

/// The exchanges `d` are those of writing the rows of `rows` from `from` on,
/// in order and up to the first failure, and `r` is what they come to.
pub open spec fn rows_run(
    result: Handle,
    rows: Seq<(i64, u64)>,
    from: int,
    d: Seq<Exchange>,
    r: Result<(), MgpError>,
) -> bool
    decreases rows.len() - from,
{
    if from < 0 || from >= rows.len() {
        d.len() == 0 && r == Ok::<(), MgpError>(())
    } else {
        exists|n: int, first: Result<(), MgpError>|
            #![trigger rows_split(result, rows[from], d, n, first)]
            rows_split(result, rows[from], d, n, first) && match first {
                Err(e) => n == d.len() && r == Err::<(), MgpError>(e),
                Ok(_) => rows_run(result, rows, from + 1, d.skip(n), r),
            }
    }
}

/// What is still to come of the writing that has reached `from`.
#[verifier::opaque]
spec fn rows_pending(
    result: Handle,
    rows: Seq<(i64, u64)>,
    from: int,
    d: Seq<Exchange>,
    r: Result<(), MgpError>,
) -> bool {
    rows_run(result, rows, from, d, r)
}

/// A row that cannot be written ends the writing with its failure.
proof fn lemma_rows_stop(
    result: Handle,
    rows: Seq<(i64, u64)>,
    from: int,
    step: Seq<Exchange>,
    e: MgpError,
)
    requires
        0 <= from < rows.len(),
        row_run(result, rows[from], step, Err::<(), MgpError>(e)),
    ensures
        rows_run(result, rows, from, step, Err::<(), MgpError>(e)),
{
    assert(step.take(step.len() as int) =~= step);
    assert(rows_split(result, rows[from], step, step.len() as int, Err::<(), MgpError>(e)));
}

/// A row that is written is followed by the rows after it.
proof fn lemma_rows_step(
    result: Handle,
    rows: Seq<(i64, u64)>,
    from: int,
    step: Seq<Exchange>,
    tail: Seq<Exchange>,
    end: Result<(), MgpError>,
)
    requires
        0 <= from < rows.len(),
        row_run(result, rows[from], step, Ok::<(), MgpError>(())),
        rows_run(result, rows, from + 1, tail, end),
    ensures
        rows_run(result, rows, from, step + tail, end),
{
    let whole = step + tail;
    assert(whole.take(step.len() as int) =~= step);
    assert(whole.skip(step.len() as int) =~= tail);
    assert(rows_split(result, rows[from], whole, step.len() as int, Ok::<(), MgpError>(())));
}

/// Writes one row: a record is added to the output, and the node and the
/// score are written into its columns.
fn write_row<H: Host>(row: (i64, u64), mg: &mut Memgraph<H>) -> (r: Result<(), MgpError>)
    ensures
        final(mg).continues(*old(mg)),
        final(mg).balanced(*old(mg), None),
        row_run(old(mg).spec_context().result, row, final(mg).since(*old(mg)), r),
{
    reveal(row_run);
    let ghost s0 = *mg;
    let ghost result = mg.spec_context().result;
    let record = match mg.result_record() {
        Ok(record) => record,
        Err(e) => {
            proof {
                assert(row_split(
                    result,
                    row,
                    mg.since(s0),
                    Err::<(), MgpError>(e),
                    1,
                    Err::<(), MgpError>(e),
                ));
            }
            return Err(e);
        },
    };
    let ghost s1 = *mg;
    let first = record.insert_int("node_id".as_bytes(), row.0, mg);
    let ghost s2 = *mg;
    proof {
        lemma_continues_chain(s0, s1, s2);
    }
    if let Err(e) = first {
        proof {
            let d = s2.since(s0);
            assert(d.subrange(1, d.len() as int) =~= s2.since(s1));
            assert(row_split(result, row, d, Err::<(), MgpError>(e), d.len() as int, first));
        }
        return Err(e);
    }
    let r = record.insert_double("score".as_bytes(), row.1, mg);
    proof {
        lemma_continues_chain(s1, s2, *mg);
        lemma_continues_chain(s0, s1, *mg);
        let d = mg.since(s0);
        let n = s2.since(s0).len() as int;
        assert(d.subrange(1, n) =~= s2.since(s1));
        assert(d.skip(n) =~= mg.since(s2));
        assert(row_split(result, row, d, r, n, first));
    }
    r
}

/// Writes the scored nodes to the output, one row each, in the order given:
/// the node into the column `node_id` and the score, as the bit pattern of a
/// double, into the column `score`. The first failure ends the writing.
#[verifier::loop_isolation(false)]
pub fn write_ppr_nodes_to_records<H: Host>(mg: &mut Memgraph<H>, ppr_nodes: &[(i64, u64)]) -> (r:
    Result<(), MgpError>)
    ensures
        final(mg).continues(*old(mg)),
        final(mg).balanced(*old(mg), None),
        rows_run(old(mg).spec_context().result, ppr_nodes@, 0, final(mg).since(*old(mg)), r),
{
    let ghost s0 = *mg;
    let ghost result = mg.spec_context().result;
    let ghost rows = ppr_nodes@;
    let mut i: usize = 0;
    proof {
        assert(s0.since(s0) =~= Seq::<Exchange>::empty());
        assert(s0.trace() + Seq::<Exchange>::empty() =~= s0.trace());
        assert forall|tail: Seq<Exchange>, end: Result<(), MgpError>| #[trigger]
            rows_pending(result, rows, 0, tail, end) implies rows_run(
            result,
            rows,
            0,
            s0.since(s0) + tail,
            end,
        ) by {
            reveal(rows_pending);
            assert(s0.since(s0) + tail =~= tail);
        }
    }
    while i < ppr_nodes.len()
        invariant
            i <= ppr_nodes.len(),
            mg.continues(s0),
            mg.balanced(s0, None),
            forall|tail: Seq<Exchange>, end: Result<(), MgpError>| #[trigger]
                rows_pending(result, rows, i as int, tail, end) ==> rows_run(
                    result,
                    rows,
                    0,
                    mg.since(s0) + tail,
                    end,
                ),
        decreases ppr_nodes.len() - i,
    {
        let ghost a = *mg;
        let written = write_row(ppr_nodes[i], mg);
        proof {
            lemma_continues_chain(s0, a, *mg);
        }
        let ghost step = mg.since(a);
        match written {
            Err(e) => {
                proof {
                    assert(rows_pending(result, rows, i as int, step, Err::<(), MgpError>(e))) by {
                        reveal(rows_pending);
                        lemma_rows_stop(result, rows, i as int, step, e);
                    }
                    assert(mg.since(s0) =~= a.since(s0) + step);
                }
                return Err(e);
            },
            Ok(done) => {
                proof {
                    assert(done == ());
                    assert(row_run(result, rows[i as int], step, Ok::<(), MgpError>(())));
                    assert forall|tail: Seq<Exchange>, end: Result<(), MgpError>| #[trigger]
                        rows_pending(result, rows, i + 1, tail, end) implies rows_run(
                        result,
                        rows,
                        0,
                        mg.since(s0) + tail,
                        end,
                    ) by {
                        assert(rows_pending(result, rows, i as int, step + tail, end)) by {
                            reveal(rows_pending);
                            lemma_rows_step(result, rows, i as int, step, tail, end);
                        }
                        assert(mg.since(s0) + tail =~= a.since(s0) + (step + tail));
                    }
                }
            },
        }
        i = i + 1;
    }
    proof {
        assert(rows_pending(
            result,
            rows,
            i as int,
            Seq::<Exchange>::empty(),
            Ok::<(), MgpError>(()),
        )) by {
            reveal(rows_pending);
        }
        assert(mg.since(s0) + Seq::<Exchange>::empty() =~= mg.since(s0));
    }
    Ok(())
}

} // verus!
