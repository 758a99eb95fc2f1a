//! The connection pool: a FIFO queue of idle sessions, a count of the
//! sessions lent out, and the rules that bound the two.
//!
//! The pool never opens a transport itself. `acquire` either hands out
//! the least-recently returned idle session, refuses because the pool
//! is exhausted, or asks the caller to open a fresh transport; the
//! caller then books the new session in with `register_opened`. The
//! same split lets `init` take the descriptors of the transports the
//! caller managed to open.

use vstd::prelude::*;

use std::collections::VecDeque;

use crate::config::Config;
use crate::conn::Connection;

verus! {

broadcast use vstd::std_specs::vecdeque::group_vec_dequeue_axioms;

/// What `acquire` decided.
pub enum AcquireOutcome {
    /// An idle session, popped from the front of the queue and now
    /// counted as in use.
    Reused(Connection),
    /// The queue is empty but the bound leaves room: the caller should
    /// open a transport and book it in with `register_opened`.
    MustOpen,
    /// The queue is empty, the bound is reached and overflow is not
    /// allowed: nothing can be handed out.
    Exhausted,
}

/// A pool of reusable sessions. It keeps a warm set of about
/// `min_conns` sessions across bursts and, unless transient overflow
/// is allowed, never lets idle plus in-use sessions exceed `max_conns`.
pub struct ConnectionPool {
    idle_conns: VecDeque<Connection>,
    min_conns: usize,
    max_conns: usize,
    tmp_conn_allowed: bool,
    config: Config,
    conns_inuse: usize,
}

impl ConnectionPool {
    /// The idle queue, front first.
    pub closed spec fn idle(self) -> Seq<Connection> {
        self.idle_conns@
    }

    /// How many sessions are lent out and not yet returned.
    pub closed spec fn in_use(self) -> nat {
        self.conns_inuse as nat
    }

    /// The low-water mark: the size of the warm set the pool retains.
    pub closed spec fn min(self) -> nat {
        self.min_conns as nat
    }

    /// The cap on outstanding sessions when overflow is not allowed.
    pub closed spec fn max(self) -> nat {
        self.max_conns as nat
    }

    /// Whether sessions beyond `max` may be opened transiently.
    pub closed spec fn overflow_allowed(self) -> bool {
        self.tmp_conn_allowed
    }

    /// The configuration new sessions are opened with.
    pub closed spec fn spec_config(self) -> Config {
        self.config
    }

    /// All sessions the pool accounts for: idle plus lent out.
    pub open spec fn outstanding(self) -> nat {
        self.idle().len() + self.in_use()
    }

    /// The pool's invariant: the marks are ordered, the accounting fits
    /// the machine, and without overflow the cap holds.
    pub open spec fn wf(self) -> bool {
        &&& self.min() <= self.max()
        &&& self.outstanding() <= usize::MAX
        &&& !self.overflow_allowed() ==> self.outstanding() <= self.max()
    }

    /// The knobs that no operation after construction may change.
    pub open spec fn same_settings(self, other: ConnectionPool) -> bool {
        &&& self.min() == other.min()
        &&& self.max() == other.max()
        &&& self.overflow_allowed() == other.overflow_allowed()
        &&& self.spec_config() == other.spec_config()
    }

    /// An empty pool: no idle sessions, nothing lent out, no transport
    /// opened. The marks must be ordered `min <= max`.
    pub fn new(
        pool_min_size: usize,
        pool_max_size: usize,
        tmp_allowed: bool,
        conn_config: &Config,
    ) -> (p: ConnectionPool)
        requires
            pool_min_size <= pool_max_size,
        ensures
            p.wf(),
            p.idle() == Seq::<Connection>::empty(),
            p.in_use() == 0,
            p.min() == pool_min_size,
            p.max() == pool_max_size,
            p.overflow_allowed() == tmp_allowed,
            p.spec_config() == *conn_config,
    {
        ConnectionPool {
            idle_conns: VecDeque::new(),
            min_conns: pool_min_size,
            max_conns: pool_max_size,
            tmp_conn_allowed: tmp_allowed,
            config: conn_config.clone(),
            conns_inuse: 0,
        }
    }

    /// The current length of the idle queue.
    pub fn idle_conns_count(&self) -> (n: usize)
        ensures
            n == self.idle().len(),
    {
        self.idle_conns.len()
    }

    /// The identifier of the idle session at position `i` of the queue,
    /// front first. Lets a caller walk the queue without borrowing it.
    pub fn idle_id_at(&self, i: usize) -> (r: &String)
        requires
            i < self.idle().len(),
        ensures
            r@ == self.idle()[i as int].spec_id(),
    {
        self.idle_conns[i].id()
    }

    /// How many sessions are currently lent out.
    pub fn in_use_count(&self) -> (n: usize)
        ensures
            n == self.in_use(),
    {
        self.conns_inuse
    }

    /// Stocks the warm set. The caller opens transports, at most `min`
    /// of them, and hands their descriptors over; each is wrapped in a
    /// fresh session and enqueued. Returns true exactly when all `min`
    /// openings succeeded, that is when `min` descriptors arrived.
    /// Sessions already enqueued stay either way.
    pub fn init(&mut self, handles: Vec<i64>) -> (ok: bool)
        requires
            old(self).wf(),
            old(self).outstanding() + handles@.len() <= usize::MAX,
            !old(self).overflow_allowed() ==> old(self).outstanding() + handles@.len()
                <= old(self).max(),
        ensures
            final(self).wf(),
            final(self).same_settings(*old(self)),
            final(self).in_use() == old(self).in_use(),
            final(self).idle().len() == old(self).idle().len() + handles@.len(),
            forall|i: int|
                0 <= i < old(self).idle().len() ==> final(self).idle()[i] == old(self).idle()[i],
            forall|i: int|
                0 <= i < handles@.len() ==> {
                    let c = #[trigger] final(self).idle()[old(self).idle().len() + i];
                    &&& c.spec_handle() == handles@[i]
                    &&& c.spec_config() == old(self).spec_config()
                },
            ok == (handles@.len() == old(self).min()),
    {
        self.idle_conns.reserve(self.max_conns);
        let ghost pre = *self;
        let n = handles.len();
        let mut i: usize = 0;
        while i < n
            invariant
                i <= n,
                n == handles@.len(),
                pre.wf(),
                pre.outstanding() + n <= usize::MAX,
                self.min_conns == pre.min_conns,
                self.max_conns == pre.max_conns,
                self.tmp_conn_allowed == pre.tmp_conn_allowed,
                self.config == pre.spec_config(),
                self.conns_inuse == pre.in_use(),
                self.idle().len() == pre.idle().len() + i,
                forall|j: int| 0 <= j < pre.idle().len() ==> self.idle()[j] == pre.idle()[j],
                forall|j: int|
                    0 <= j < i ==> {
                        let c = #[trigger] self.idle()[pre.idle().len() + j];
                        &&& c.spec_handle() == handles@[j]
                        &&& c.spec_config() == pre.spec_config()
                    },
            decreases n - i,
        {
            let c = Connection::new(handles[i], &self.config);
            self.idle_conns.push_back(c);
            i = i + 1;
        }
        n == self.min_conns
    }

    /// Hands out a session, or says what stands in the way. With the
    /// queue non-empty the front session is returned and counted as in
    /// use: FIFO spreads usage across the warm set. With the queue
    /// empty, the caller is told to open a transport, unless the cap is
    /// reached with overflow disallowed.
    pub fn acquire(&mut self) -> (r: AcquireOutcome)
        requires
            old(self).wf(),
        ensures
            final(self).wf(),
            final(self).same_settings(*old(self)),
            old(self).idle().len() > 0 ==> {
                &&& r == AcquireOutcome::Reused(old(self).idle()[0])
                &&& final(self).idle() == old(self).idle().skip(1)
                &&& final(self).in_use() == old(self).in_use() + 1
            },
            old(self).idle().len() == 0 ==> {
                &&& *final(self) == *old(self)
                &&& if old(self).in_use() >= old(self).max() && !old(self).overflow_allowed() {
                    r == AcquireOutcome::Exhausted
                } else {
                    r == AcquireOutcome::MustOpen
                }
            },
    {
        if self.idle_conns.len() > 0 {
            let c = self.idle_conns.pop_front().unwrap();
            self.conns_inuse = self.conns_inuse + 1;
            proof {
                assert(self.idle() =~= old(self).idle().skip(1));
            }
            AcquireOutcome::Reused(c)
        } else {
            let total = self.idle_conns.len() + self.conns_inuse;
            if total >= self.max_conns && !self.tmp_conn_allowed {
                AcquireOutcome::Exhausted
            } else {
                AcquireOutcome::MustOpen
            }
        }
    }

    /// Books in a session over a transport the caller just opened, as
    /// `acquire` asked with `MustOpen`. The session is immediately in
    /// use; the queue is untouched. Without overflow the cap must still
    /// leave room, as it did when `acquire` so decided.
    pub fn register_opened(&mut self, handle: i64) -> (c: Connection)
        requires
            old(self).wf(),
            old(self).outstanding() < usize::MAX,
            !old(self).overflow_allowed() ==> old(self).outstanding() < old(self).max(),
        ensures
            final(self).wf(),
            final(self).same_settings(*old(self)),
            final(self).idle() == old(self).idle(),
            final(self).in_use() == old(self).in_use() + 1,
            c.spec_handle() == handle,
            c.spec_config() == old(self).spec_config(),
            c.spec_id().len() == 45,
            c.spec_valid() <==> handle >= 0,
    {
        let c = Connection::new(handle, &self.config);
        self.conns_inuse = self.conns_inuse + 1;
        c
    }

    /// Takes a session back. A valid session returned while the pool is
    /// below its warm set, idle plus in use under `min`, goes to the
    /// back of the queue; any other is destroyed. Either way one fewer
    /// session is in use. The rule uses `min`, not `max`, on purpose:
    /// transient bursts evaporate instead of accumulating.
    pub fn release(&mut self, conn: Connection)
        requires
            old(self).wf(),
            old(self).in_use() >= 1,
        ensures
            final(self).wf(),
            final(self).same_settings(*old(self)),
            final(self).in_use() == old(self).in_use() - 1,
            conn.spec_valid() && old(self).outstanding() < old(self).min()
                ==> final(self).idle() == old(self).idle().push(conn),
            !(conn.spec_valid() && old(self).outstanding() < old(self).min())
                ==> final(self).idle() == old(self).idle(),
    {
        let idle_count = self.idle_conns.len();
        let total = idle_count + self.conns_inuse;
        if conn.is_valid() && total < self.min_conns {
            self.idle_conns.push_back(conn);
        }
        self.conns_inuse = self.conns_inuse - 1;
    }

    /// Resets the pool: every idle session is destroyed and the in-use
    /// count is cleared. This does not wait for outstanding borrows;
    /// callers are expected to have returned their sessions first.
    pub fn release_all(&mut self)
        requires
            old(self).wf(),
        ensures
            final(self).wf(),
            final(self).same_settings(*old(self)),
            final(self).idle().len() == 0,
            final(self).in_use() == 0,
    {
        self.idle_conns.clear();
        self.conns_inuse = 0;
    }

    /// Destroys a lent-out session the caller knows to be unusable:
    /// one fewer in use, and the session is gone.
    pub fn drop(&mut self, conn: Connection)
        requires
            old(self).wf(),
            old(self).in_use() >= 1,
        ensures
            final(self).wf(),
            final(self).same_settings(*old(self)),
            final(self).idle() == old(self).idle(),
            final(self).in_use() == old(self).in_use() - 1,
    {
        let _ = conn;
        self.conns_inuse = self.conns_inuse - 1;
    }
}

impl Default for ConnectionPool {
    /// A pool with no warm set, room for ten sessions, overflow
    /// allowed, and the default configuration.
    fn default() -> (p: ConnectionPool)
        ensures
            p.wf(),
            p.idle() == Seq::<Connection>::empty(),
            p.in_use() == 0,
            p.min() == 0,
            p.max() == 10,
            p.overflow_allowed() == true,
    {
        let cfg = Config::default();
        ConnectionPool::new(0, 10, true, &cfg)
    }
}

/// Law: a well-formed pool that disallows overflow never has more
/// outstanding sessions, idle plus lent out, than `max`. Every pool
/// operation preserves well-formedness, so this bound holds across any
/// sequence of acquires and releases.
pub proof fn lemma_no_overflow_bounds_outstanding(p: ConnectionPool)
    requires
        p.wf(),
        !p.overflow_allowed(),
    ensures
        p.outstanding() <= p.max(),
{
}

} // verus!
