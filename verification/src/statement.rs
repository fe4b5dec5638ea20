//! Prepared-statement handles and their exactly-once cleanup.
//!
//! A [`Statement`] is a cheaply cloneable handle to one server-side prepared
//! statement. The payload never changes after construction, so handles are
//! safe to share; the only synchronization-sensitive step is the release of
//! the last handle, which must submit the statement's Close and Sync frames
//! exactly once — and only while the connection is still there.
//!
//! The counting itself is delegated to the surrounding driver's
//! shared-ownership primitive; [`HandleCount`] models that primitive's
//! atomic decrement-and-test, and the lemmas below state the exactly-once
//! law over it.

use vstd::prelude::*;

use std::sync::Arc;

use crate::column::Column;
use crate::types::Type;
use crate::wire;
use vstd::utf8::encode_utf8;

verus! {

/// The shared payload of a prepared-statement handle: the server-assigned
/// name, the expected parameter types and the result columns, all fixed at
/// construction.
pub struct StatementInner {
    /// Server-assigned identifier of the prepared plan.
    pub name: String,
    /// Expected types of the statement's parameters.
    pub params: Vec<Type>,
    /// Result columns returned when the statement is queried.
    pub columns: Vec<Column>,
}

/// A prepared statement.
///
/// Prepared statements can only be used with the connection that created
/// them.
pub struct Statement(Arc<StatementInner>);

impl Statement {
    /// The server-assigned name of the statement.
    pub closed spec fn spec_name(&self) -> Seq<char> {
        (*self.0).name@
    }

    /// The expected parameter types, in order.
    pub closed spec fn spec_params(&self) -> Seq<Type> {
        (*self.0).params@
    }

    /// The result columns, in order.
    pub closed spec fn spec_columns(&self) -> Seq<Column> {
        (*self.0).columns@
    }

    /// Records the result of a completed prepare exchange. Performs no I/O.
    pub fn new(name: String, params: Vec<Type>, columns: Vec<Column>) -> (s: Statement)
        ensures
            s.spec_name() == name@,
            s.spec_params() == params@,
            s.spec_columns() == columns@,
    {
        Statement(Arc::new(StatementInner { name, params, columns }))
    }

    /// Returns the server-assigned name of the statement.
    pub fn name(&self) -> (r: &str)
        ensures
            r@ == self.spec_name(),
    {
        self.0.name.as_str()
    }

    /// Returns the expected types of the statement's parameters.
    pub fn params(&self) -> (r: &[Type])
        ensures
            r@ == self.spec_params(),
    {
        self.0.params.as_slice()
    }

    /// Returns information about the columns returned when the statement is
    /// queried.
    pub fn columns(&self) -> (r: &[Column])
        ensures
            r@ == self.spec_columns(),
    {
        self.0.columns.as_slice()
    }

    /// The message one statement release submits, or `None` when the
    /// connection is gone: a Close frame naming this statement, followed by
    /// a Sync frame. Nothing is ever submitted for a dead connection, and no
    /// error can come out of this path.
    pub fn cleanup_message(&self, connection_alive: bool) -> (r: Option<Vec<u8>>)
        requires
            wire::wire_name_ok(encode_utf8(self.spec_name())),
        ensures
            r is Some <==> connection_alive,
            r matches Some(buf) ==> buf@ == wire::close_frame(
                wire::STATEMENT_KIND,
                encode_utf8(self.spec_name()),
            ) + wire::sync_frame(),
    {
        if connection_alive {
            Some(wire::close_and_sync(self.name()))
        } else {
            None
        }
    }

    /// The whole drop path of one handle: count the release, and submit the
    /// cleanup message exactly when this was the last handle and the
    /// connection is still there.
    pub fn on_release(&self, shares: &mut HandleCount, connection_alive: bool) -> (r: Option<
        Vec<u8>,
    >)
        requires
            old(shares).count >= 1,
            wire::wire_name_ok(encode_utf8(self.spec_name())),
        ensures
            final(shares).count == old(shares).count - 1,
            r is Some <==> (old(shares).count == 1 && connection_alive),
            r matches Some(buf) ==> buf@ == wire::close_frame(
                wire::STATEMENT_KIND,
                encode_utf8(self.spec_name()),
            ) + wire::sync_frame(),
    {
        let last = shares.release();
        if last {
            self.cleanup_message(connection_alive)
        } else {
            None
        }
    }
}

impl Clone for Statement {
    /// Cloning is cheap and yields a handle to the very same statement.
    fn clone(&self) -> (s: Self)
        ensures
            s == *self,
    {
        Statement(self.0.clone())
    }
}

/// The number of live handles to one statement. This models the
/// shared-ownership primitive's atomic counter: the driver delegates the
/// count to that primitive, and the contracts below say what its
/// decrement-and-test decides.
pub struct HandleCount {
    /// How many handles are live.
    pub count: u64,
}

impl HandleCount {
    /// The count as a fresh handle starts it: one live reference.
    pub fn new() -> (c: HandleCount)
        ensures
            c.count == 1,
    {
        HandleCount { count: 1 }
    }

    /// One more handle was cloned.
    pub fn retain(&mut self)
        requires
            old(self).count < u64::MAX,
        ensures
            final(self).count == old(self).count + 1,
    {
        self.count = self.count + 1;
    }

    /// One handle went away; returns whether it was the last, i.e. whether
    /// cleanup must fire now.
    pub fn release(&mut self) -> (fire: bool)
        requires
            old(self).count >= 1,
        ensures
            final(self).count == old(self).count - 1,
            fire == (old(self).count == 1),
    {
        self.count = self.count - 1;
        self.count == 0
    }
}

/// How many releases fire cleanup while `count` live handles are released
/// one after the other: a release fires exactly when it sees the count at 1.
pub open spec fn fires_while_releasing(count: nat) -> nat
    decreases count,
{
    if count == 0 {
        0
    } else {
        (if count == 1 {
            1nat
        } else {
            0nat
        }) + fires_while_releasing((count - 1) as nat)
    }
}

/// Law: however many handles exist — one original and any number of clones —
/// releasing every one of them fires cleanup exactly once.
pub proof fn lemma_release_all_fires_once(n: nat)
    requires
        n >= 1,
    ensures
        fires_while_releasing(n) == 1,
    decreases n,
{
    if n == 1 {
        assert(fires_while_releasing(0) == 0);
    } else {
        lemma_release_all_fires_once((n - 1) as nat);
    }
}

/// Law: a release that is not the last never fires cleanup, whatever the
/// connection's state; only the release that sees the count at 1 does.
pub proof fn lemma_non_last_release_is_silent(count: nat)
    requires
        count > 1,
    ensures
        fires_while_releasing(count) == fires_while_releasing((count - 1) as nat),
{
}

} // verus!
