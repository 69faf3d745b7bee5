//! The writer of output rows: each row is a record of the host, filled column
//! by column.

use vstd::prelude::*;
use crate::memgraph::Memgraph;
use crate::mgp::{Handle, Host};
use crate::result::MgpError;
use crate::value::{give_run, Target, Value, ValueView};

verus! {

/// One output row. The host owns it, as a part of the sink it was added to,
/// so it is never released by this library.
#[derive(Clone, Copy, Debug, PartialEq, Eq, Structural)]
pub struct ResultRecord {
    pub handle: Handle,
}

impl ResultRecord {
    /// Writes `value` into the column `field` of the row. The row gets a
    /// copy: the value of the host that is made for the call is released when
    /// the call is over, whether it succeeded or not.
    pub fn insert<H: Host>(&self, field: &[u8], value: &Value, mg: &mut Memgraph<H>) -> (r: Result<
        (),
        MgpError,
    >)
        ensures
            final(mg).continues(*old(mg)),
            give_run(
                Target::RecordInsert { record: self.handle },
                field@,
                value@,
                final(mg).since(*old(mg)),
                r,
            ),
            final(mg).balanced(*old(mg), None),
    {
        value.give(Target::RecordInsert { record: self.handle }, field, mg)
    }

    /// Writes null into the column `field`.
    pub fn insert_null<H: Host>(&self, field: &[u8], mg: &mut Memgraph<H>) -> (r: Result<
        (),
        MgpError,
    >)
        ensures
            final(mg).continues(*old(mg)),
            give_run(
                Target::RecordInsert { record: self.handle },
                field@,
                ValueView::Null,
                final(mg).since(*old(mg)),
                r,
            ),
            final(mg).balanced(*old(mg), None),
    {
        self.insert(field, &Value::Null, mg)
    }

    /// Writes a truth value into the column `field`.
    pub fn insert_bool<H: Host>(&self, field: &[u8], value: bool, mg: &mut Memgraph<H>) -> (r:
        Result<(), MgpError>)
        ensures
            final(mg).continues(*old(mg)),
            give_run(
                Target::RecordInsert { record: self.handle },
                field@,
                ValueView::Bool(value),
                final(mg).since(*old(mg)),
                r,
            ),
            final(mg).balanced(*old(mg), None),
    {
        self.insert(field, &Value::Bool(value), mg)
    }

    /// Writes an integer into the column `field`.
    pub fn insert_int<H: Host>(&self, field: &[u8], value: i64, mg: &mut Memgraph<H>) -> (r: Result<
        (),
        MgpError,
    >)
        ensures
            final(mg).continues(*old(mg)),
            give_run(
                Target::RecordInsert { record: self.handle },
                field@,
                ValueView::Int(value),
                final(mg).since(*old(mg)),
                r,
            ),
            final(mg).balanced(*old(mg), None),
    {
        self.insert(field, &Value::Int(value), mg)
    }

    /// Writes a double, given by its bit pattern, into the column `field`.
    pub fn insert_double<H: Host>(&self, field: &[u8], bits: u64, mg: &mut Memgraph<H>) -> (r:
        Result<(), MgpError>)
        ensures
            final(mg).continues(*old(mg)),
            give_run(
                Target::RecordInsert { record: self.handle },
                field@,
                ValueView::Double(bits),
                final(mg).since(*old(mg)),
                r,
            ),
            final(mg).balanced(*old(mg), None),
    {
        self.insert(field, &Value::Double(bits), mg)
    }

    /// Writes a string into the column `field`.
    pub fn insert_string<H: Host>(&self, field: &[u8], text: Vec<u8>, mg: &mut Memgraph<H>) -> (r:
        Result<(), MgpError>)
        ensures
            final(mg).continues(*old(mg)),
            give_run(
                Target::RecordInsert { record: self.handle },
                field@,
                ValueView::String(text@),
                final(mg).since(*old(mg)),
                r,
            ),
            final(mg).balanced(*old(mg), None),
    {
        self.insert(field, &Value::String(text), mg)
    }
}

} // verus!
