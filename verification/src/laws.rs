//! Laws that hold across the library, stated over the spec functions that
//! the contracts use.

use vstd::prelude::*;
use crate::cursor::Cursor;
use crate::memgraph::Memgraph;
use crate::mgp::{releases, Entry, Exchange, Handle, Host, Reply, Token};
use crate::result::MgpError;
use crate::status::Status;
use crate::temporal::{
    date_from_parts, date_of_parameters, date_parameters_of, is_date, is_representable_year,
    is_time, local_time_parameters_of, microsecond_of, microseconds_of, millisecond_of,
    span_of_microseconds, time_of_parameters, DateView, TimeView, NANOS_PER_SECOND,
};

verus! {

/// Whatever output a call has, a status other than success is translated
/// into exactly the error of the call site, and into nothing else.
pub proof fn lemma_failure_is_the_error_of_the_site(reply: Reply, error: MgpError)
    requires
        reply.status != Status::NoError,
    ensures
        reply.spec_done_or(error) == Err::<(), MgpError>(error),
        reply.spec_handle_or(error) is Err && reply.spec_handle_or(error)->Err_0 == error,
        reply.spec_size_or(error) is Err && reply.spec_size_or(error)->Err_0 == error,
        reply.spec_int_or(error) is Err && reply.spec_int_or(error)->Err_0 == error,
        reply.spec_i32_or(error) is Err && reply.spec_i32_or(error)->Err_0 == error,
        reply.spec_u32_or(error) is Err && reply.spec_u32_or(error)->Err_0 == error,
        reply.spec_bool_or(error) is Err && reply.spec_bool_or(error)->Err_0 == error,
        reply.spec_double_or(error) is Err && reply.spec_double_or(error)->Err_0 == error,
        reply.spec_tag_or(error) is Err && reply.spec_tag_or(error)->Err_0 == error,
        reply.spec_text_or(error) is Err && reply.spec_text_or(error)->Err_0 == error,
{
}

/// A release is one call to the release entry point: the object that was
/// released is counted once more among the releases, and no other object is.
pub proof fn lemma_release_is_counted_once<H: Host>(
    before: Memgraph<H>,
    after: Memgraph<H>,
    released: Token,
)
    requires
        after.one_call(
            before,
            Entry::Destroy { kind: released.kind, object: released.handle },
            Seq::empty(),
        ),
    ensures
        releases(after.trace(), released) == releases(before.trace(), released) + 1,
        forall|other: Token|
            other != released ==> #[trigger] releases(after.trace(), other) == releases(
                before.trace(),
                other,
            ),
        after.gave_up(before, released),
{
    let x = after.answer();
    assert(after.trace() =~= before.trace().push(x));
    assert forall|other: Token|
        other != released implies #[trigger] releases(after.trace(), other) == releases(
        before.trace(),
        other,
    ) by {
        crate::mgp::lemma_held_push(before.trace(), x, other);
    }
    crate::mgp::lemma_held_push(before.trace(), x, released);
    assert forall|token: Token| #[trigger]
        after.held(token) == before.held(token) - (if Some(released) == Some(token) {
            1int
        } else {
            0int
        }) by {
        crate::mgp::lemma_held_push(before.trace(), x, token);
    }
}

/// What the host never handed out and nobody released is not held: before
/// the first exchange the account of owned objects is empty.
pub proof fn lemma_nothing_is_held_at_the_start<H: Host>(start: Memgraph<H>, token: Token)
    requires
        start.trace() == Seq::<Exchange>::empty(),
    ensures
        start.held(token) == 0,
        releases(start.trace(), token) == 0,
{
}

/// An object that is acquired in one step and released in the next leaves
/// the account of owned objects as it was: nothing is held that was not held
/// before.
pub proof fn lemma_acquire_then_release_balances<H: Host>(
    before: Memgraph<H>,
    acquired: Memgraph<H>,
    released: Memgraph<H>,
    token: Token,
)
    requires
        acquired.balanced(before, Some(token)),
        released.gave_up(acquired, token),
    ensures
        released.balanced(before, None),
{
    assert forall|t: Token| #[trigger] released.held(t) == before.held(t) by {
        assert(acquired.held(t) == before.held(t) + (if Some(token) == Some(t) {
            1int
        } else {
            0int
        }));
    }
}

/// Steps that each leave the account of owned objects as it was do so
/// together.
pub proof fn lemma_balanced_steps_compose<H: Host>(
    first: Memgraph<H>,
    second: Memgraph<H>,
    third: Memgraph<H>,
    kept: Option<Token>,
)
    requires
        second.balanced(first, None),
        third.balanced(second, kept),
    ensures
        third.balanced(first, kept),
{
    assert forall|t: Token| #[trigger]
        third.held(t) == first.held(t) + (if kept == Some(t) {
            1int
        } else {
            0int
        }) by {
        assert(second.held(t) == first.held(t));
    }
}

/// A cursor that was opened on an empty sequence is at its end before the
/// first pull, so that the first pull asks nothing of the host.
pub proof fn lemma_empty_sequence_pulls_nothing(cursor: Cursor)
    requires
        cursor.spec_current().spec_is_null(),
    ensures
        cursor.spec_finished(),
        cursor.pull_calls() == 0,
        cursor.pulled(Seq::<Exchange>::empty()) == Ok::<Handle, MgpError>(cursor.spec_current()),
{
}

/// A date whose year the host can represent survives the way to the host's
/// form and back: year, month and day are what they were.
pub proof fn lemma_date_round_trip(date: DateView)
    requires
        is_date(date.year, date.month, date.day),
        is_representable_year(date.year),
    ensures
        date_of_parameters(date_parameters_of(date)) == Some(date),
        date_from_parts(
            Ok(
                seq![
                    date_parameters_of(date).year,
                    date_parameters_of(date).month,
                    date_parameters_of(date).day,
                ],
            ),
            MgpError::UnableToReadDate,
        ) == Ok::<DateView, MgpError>(date),
{
}

/// The parts that a leap second is folded into are those of the same instant
/// of the second before it: a sub-second part of a second or more gives the
/// milliseconds and microseconds of what it is beyond the second.
pub proof fn lemma_leap_second_folds(nanosecond: int)
    requires
        0 <= nanosecond < NANOS_PER_SECOND,
    ensures
        millisecond_of(nanosecond + NANOS_PER_SECOND) == millisecond_of(nanosecond),
        microsecond_of(nanosecond + NANOS_PER_SECOND) == microsecond_of(nanosecond),
        0 <= millisecond_of(nanosecond) < 1000,
        0 <= microsecond_of(nanosecond) < 1000,
{
}

/// The host's form of a time of day is that of the time without its leap
/// second, and reading it back gives that time to the microsecond.
pub proof fn lemma_time_round_trip(time: TimeView)
    requires
        is_time(time.hour, time.minute, time.second, time.nanosecond),
    ensures
        time_of_parameters(local_time_parameters_of(time)) == Some(
            TimeView {
                hour: time.hour,
                minute: time.minute,
                second: time.second,
                nanosecond: (time.nanosecond % (NANOS_PER_SECOND as int)) / 1000 * 1000,
            },
        ),
{
    let n = time.nanosecond % (NANOS_PER_SECOND as int);
    assert(n / 1_000_000 * 1_000_000 + n % 1_000_000 / 1000 * 1000 == n / 1000 * 1000);
}

/// A whole number of microseconds survives the way into a span and back.
pub proof fn lemma_microseconds_round_trip(microseconds: int)
    ensures
        microseconds_of(span_of_microseconds(microseconds)) == microseconds,
        0 <= span_of_microseconds(microseconds).nanoseconds < NANOS_PER_SECOND,
{
    let rest = microseconds % 1_000_000;
    assert(rest * 1000 / 1000 == rest);
}

} // verus!
