use vstd::prelude::*;

use crate::errors::CommonError;

verus! {

/// Lifecycle of the connection pool gate. `Uninitialized` refuses all
/// traffic until a liveness probe has passed; `Healthy` and `Degraded`
/// both serve (degradation is an operator signal, not a halt);
/// `Stopped` is terminal and refuses every acquisition.
#[derive(PartialEq, Eq, Structural, Clone, Copy, Debug)]
pub enum GateState {
    Uninitialized,
    Healthy,
    Degraded,
    Stopped,
}

/// An exclusively owned lease on one pooled connection. Leases are
/// minted by `PoolGate::acquire` with pairwise-distinct tokens and die
/// when handed back to `PoolGate::release`.
#[derive(Debug)]
pub struct Connection {
    pub token: u64,
}

/// Owner of the pool's lifecycle. It bounds how many connections are
/// out at once, refuses to serve before the startup probe has passed
/// and after shutdown, and books every outstanding lease so that no
/// two operations ever hold the same connection.
pub struct PoolGate {
    pub state: GateState,
    pub min_idle: u32,
    pub max_size: u32,
    pub acquire_timeout_ms: u64,
    pub outstanding: Vec<u64>,
    pub next_token: u64,
    pub acquire_failures: u64,
}

impl PoolGate {
    /// The bookkeeping invariant: outstanding lease tokens are
    /// pairwise distinct, all below the mint counter, never more than
    /// the pool bound, and states that do not serve hold no lease.
    pub open spec fn well_formed(&self) -> bool {
        &&& self.outstanding@.no_duplicates()
        &&& forall|i: int| 0 <= i < self.outstanding@.len() ==> self.outstanding@[i]
            < self.next_token
        &&& self.outstanding@.len() <= self.max_size
        &&& self.min_idle <= self.max_size
        &&& 1 <= self.max_size
        &&& (self.state is Uninitialized || self.state is Stopped) ==> self.outstanding@.len()
            == 0
    }

    /// Whether service calls are admitted at all.
    pub open spec fn serving(&self) -> bool {
        self.state is Healthy || self.state is Degraded
    }

    /// Whether one more acquisition is owed a lease.
    pub open spec fn can_grant(&self) -> bool {
        &&& self.serving()
        &&& self.outstanding@.len() < self.max_size
        &&& self.next_token < u64::MAX
    }

    /// The configuration, which no transition may touch.
    pub open spec fn same_config(&self, other: &PoolGate) -> bool {
        &&& self.min_idle == other.min_idle
        &&& self.max_size == other.max_size
        &&& self.acquire_timeout_ms == other.acquire_timeout_ms
    }

    /// A fresh gate: not yet probed, serving nothing.
    pub fn new(min_idle: u32, max_size: u32, acquire_timeout_ms: u64) -> (r: PoolGate)
        requires
            1 <= max_size,
            min_idle <= max_size,
        ensures
            r.well_formed(),
            r.state is Uninitialized,
            r.min_idle == min_idle,
            r.max_size == max_size,
            r.acquire_timeout_ms == acquire_timeout_ms,
            r.outstanding@.len() == 0,
            r.next_token == 0,
            r.acquire_failures == 0,
    {
        PoolGate {
            state: GateState::Uninitialized,
            min_idle,
            max_size,
            acquire_timeout_ms,
            outstanding: Vec::new(),
            next_token: 0,
            acquire_failures: 0,
        }
    }

    /// Startup transition. The caller runs the synchronous liveness
    /// probe (a trivial round-trip query) against the real backend and
    /// hands in its outcome. Only a passed probe moves it on to
    /// `Healthy`; a failed probe leaves it `Uninitialized`, so the
    /// process must refuse to serve rather than serve unverified.
    pub fn start(&mut self, probe_ok: bool) -> (r: Result<(), CommonError>)
        requires
            old(self).well_formed(),
            old(self).state is Uninitialized,
        ensures
            final(self).well_formed(),
            final(self).same_config(old(self)),
            final(self).outstanding@ == old(self).outstanding@,
            final(self).next_token == old(self).next_token,
            final(self).acquire_failures == old(self).acquire_failures,
            probe_ok ==> r is Ok && final(self).state is Healthy,
            !probe_ok ==> final(self).state is Uninitialized && !final(self).serving()
                && (r matches Err(e) && e is Sys && e->Sys_message@ == "数据库连接检查失败"@
                && e->Sys_cause is None && e->Sys_trace is Some),
    {
        if probe_ok {
            self.state = GateState::Healthy;
            Ok(())
        } else {
            Err(CommonError::system("数据库连接检查失败".to_owned(), None))
        }
    }

    /// Bounded acquisition: the caller either receives a lease that no
    /// other operation holds, or a system failure once the configured
    /// timeout has run out; there is no unbounded wait and no silent
    /// retry. A full pool fails this one call and degrades it, while
    /// service goes on; one that is not serving refuses without
    /// touching any bookkeeping.
    pub fn acquire(&mut self) -> (r: Result<Connection, CommonError>)
        requires
            old(self).well_formed(),
        ensures
            final(self).well_formed(),
            final(self).same_config(old(self)),
            old(self).can_grant() ==> (r matches Ok(conn)
                && !old(self).outstanding@.contains(conn.token)
                && final(self).outstanding@ == old(self).outstanding@.push(conn.token)
                && final(self).state == old(self).state
                && final(self).next_token == old(self).next_token + 1
                && final(self).acquire_failures == old(self).acquire_failures),
            !old(self).serving() ==> (r matches Err(e) && e is Sys && e->Sys_message@
                == "连接池未在服务状态"@ && e->Sys_cause is None && e->Sys_trace is Some
                && *final(self) == *old(self)),
            old(self).serving() && !old(self).can_grant() ==> (r matches Err(e) && e is Sys
                && e->Sys_message@ == "连接池获取超时"@ && e->Sys_cause is None
                && e->Sys_trace is Some
                && final(self).outstanding@ == old(self).outstanding@
                && final(self).next_token == old(self).next_token
                && final(self).serving()
                && final(self).state is Degraded
                && (old(self).acquire_failures < u64::MAX ==> final(self).acquire_failures
                    == old(self).acquire_failures + 1)),
    {
        if !(matches!(self.state, GateState::Healthy) || matches!(
            self.state,
            GateState::Degraded,
        )) {
            return Err(CommonError::system("连接池未在服务状态".to_owned(), None));
        }
        if self.outstanding.len() < self.max_size as usize && self.next_token < u64::MAX {
            let token = self.next_token;
            self.next_token = self.next_token + 1;
            self.outstanding.push(token);
            Ok(Connection { token })
        } else {
            self.state = GateState::Degraded;
            if self.acquire_failures < u64::MAX {
                self.acquire_failures = self.acquire_failures + 1;
            }
            Err(CommonError::system("连接池获取超时".to_owned(), None))
        }
    }

    /// Hand a lease back. The lease's token leaves the books; a token
    /// that was never issued (or one already returned) changes nothing.
    pub fn release(&mut self, conn: Connection) -> (returned: bool)
        requires
            old(self).well_formed(),
        ensures
            final(self).well_formed(),
            final(self).same_config(old(self)),
            final(self).state == old(self).state,
            final(self).next_token == old(self).next_token,
            final(self).acquire_failures == old(self).acquire_failures,
            !final(self).outstanding@.contains(conn.token),
            old(self).outstanding@.contains(conn.token) ==> (returned
                && (exists|k: int|
                    0 <= k < old(self).outstanding@.len()
                        && old(self).outstanding@[k] == conn.token
                        && final(self).outstanding@ == old(self).outstanding@.remove(k))),
            !old(self).outstanding@.contains(conn.token) ==> (!returned && *final(self) == *old(
                self,
            )),
    {
        let mut i: usize = 0;
        while i < self.outstanding.len()
            invariant
                i <= self.outstanding@.len(),
                forall|k: int| 0 <= k < i ==> self.outstanding@[k] != conn.token,
                self.well_formed(),
                *self == *old(self),
            decreases self.outstanding@.len() - i,
        {
            if self.outstanding[i] == conn.token {
                self.outstanding.remove(i);
                proof {
                    assert(!self.outstanding@.contains(conn.token)) by {
                        let old_seq = old(self).outstanding@;
                        assert forall|k: int| 0 <= k < self.outstanding@.len() implies self
                            .outstanding@[k] != conn.token by {
                            if k < i {
                                assert(self.outstanding@[k] == old_seq[k]);
                            } else {
                                assert(self.outstanding@[k] == old_seq[k + 1]);
                                assert(old_seq.no_duplicates());
                            }
                        };
                    };
                }
                return true;
            }
            i = i + 1;
        }
        false
    }

    /// Orderly shutdown: every pooled connection is released and no
    /// acquisition succeeds afterwards, from any prior state.
    pub fn shutdown(&mut self)
        requires
            old(self).well_formed(),
        ensures
            final(self).well_formed(),
            final(self).same_config(old(self)),
            final(self).state is Stopped,
            !final(self).serving(),
            final(self).outstanding@.len() == 0,
            final(self).next_token == old(self).next_token,
            final(self).acquire_failures == old(self).acquire_failures,
    {
        self.outstanding.clear();
        self.state = GateState::Stopped;
    }

    /// Exec view of `serving`, for callers that must refuse work while
    /// no service is admitted.
    pub fn is_serving(&self) -> (r: bool)
        ensures
            r == self.serving(),
    {
        matches!(self.state, GateState::Healthy) || matches!(self.state, GateState::Degraded)
    }

    /// How many leases are currently out.
    pub fn outstanding_count(&self) -> (r: usize)
        ensures
            r == self.outstanding@.len(),
    {
        self.outstanding.len()
    }
}

/// Law: leases are exclusive. In a well-formed gate no two outstanding
/// positions name the same connection token, so no two concurrent
/// operations ever observe the same connection.
pub proof fn lemma_leases_exclusive(gate: PoolGate, i: int, j: int)
    requires
        gate.well_formed(),
        0 <= i < gate.outstanding@.len(),
        0 <= j < gate.outstanding@.len(),
        i != j,
    ensures
        gate.outstanding@[i] != gate.outstanding@[j],
{
    assert(gate.outstanding@.no_duplicates());
}

} // verus!
