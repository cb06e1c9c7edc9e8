//! Per-connection acknowledgment-timeout tracking and retransmission.
//!
//! A fixed-size table keeps one `TransportTimer` and the most recent
//! acknowledgment-requiring chunk per connection. Each worker cycle drains
//! the queued control events into the table, then checks every timer and
//! reports which chunks must be re-emitted (marked as retries) and which
//! connections have exhausted their retry budget.

use vstd::prelude::*;

use crate::chunk::WrChunk;
use crate::constants::MAX_QP_CNT;
use crate::timer::TimerExhausted;
use crate::timer::TransportTimer;

verus! {

/// Default retry budget of a connection.
pub const DEFAULT_INIT_RETRY_COUNT: usize = 5;

/// Default check-interval exponent.
pub const DEFAULT_TIMEOUT_CHECK_DURATION: u8 = 8;

/// Default local ACK timeout exponent.
pub const DEFAULT_LOCAL_ACK_TIMEOUT: u8 = 4;

/// Acknowledgment-timeout configuration. Durations are
/// `4.096 microseconds * 2^exponent`.
#[derive(Debug, Clone, Copy)]
pub struct AckTimeoutConfig {
    /// Check-interval exponent: how often the worker scans the table.
    pub check_duration_exp: u8,
    /// Local ACK timeout exponent: the per-connection deadline.
    pub local_ack_timeout_exp: u8,
    /// Retry budget restored by each timer reset.
    pub init_retry_count: usize,
}

impl AckTimeoutConfig {
    /// Both exponents encode a duration representable in nanoseconds.
    pub open spec fn wf(self) -> bool {
        self.check_duration_exp <= 51 && self.local_ack_timeout_exp <= 51
    }

    /// Creates a configuration from the two duration exponents and the
    /// initial retry count.
    pub fn new(check_duration: u8, local_ack_timeout: u8, init_retry_count: usize) -> (r: Self)
        ensures
            r == (AckTimeoutConfig {
                check_duration_exp: check_duration,
                local_ack_timeout_exp: local_ack_timeout,
                init_retry_count,
            }),
    {
        Self { check_duration_exp: check_duration, local_ack_timeout_exp: local_ack_timeout, init_retry_count }
    }
}

impl Default for AckTimeoutConfig {
    /// The default configuration: a check interval of about 1.05 ms, a
    /// local ACK timeout of about 65.5 us, and five retries.
    fn default() -> (r: Self)
        ensures
            r == (AckTimeoutConfig {
                check_duration_exp: DEFAULT_TIMEOUT_CHECK_DURATION,
                local_ack_timeout_exp: DEFAULT_LOCAL_ACK_TIMEOUT,
                init_retry_count: DEFAULT_INIT_RETRY_COUNT,
            }),
    {
        AckTimeoutConfig {
            check_duration_exp: DEFAULT_TIMEOUT_CHECK_DURATION,
            local_ack_timeout_exp: DEFAULT_LOCAL_ACK_TIMEOUT,
            init_retry_count: DEFAULT_INIT_RETRY_COUNT,
        }
    }
}

/// Maps a connection number to its dense table index. A number at or past
/// the table size names a connection the table does not track.
pub open spec fn qpn_index_spec(qpn: u32) -> int {
    qpn as int
}

/// Deterministic, injective index of a connection number.
pub fn qpn_index(qpn: u32) -> (r: usize)
    ensures
        r == qpn_index_spec(qpn),
{
    qpn as usize
}

/// One table slot: the connection's timer, and the last packet whose
/// ack_req bit is set.
#[derive(Debug, Clone, Copy)]
pub struct Entry {
    /// The connection's deadline and retry-budget state machine.
    pub timer: TransportTimer,
    /// The most recent acknowledgment-requiring chunk, replaced on every
    /// `NewAckReq` event.
    pub last_packet_chunk: Option<WrChunk>,
}

impl Entry {
    /// Creates a slot holding the given timer and no stored chunk.
    pub fn new(timer: TransportTimer) -> (r: Self)
        ensures
            r == (Entry { timer, last_packet_chunk: None::<WrChunk> }),
    {
        Self { timer, last_packet_chunk: None }
    }

    /// Stores `packet` as the connection's pending ack-requiring chunk.
    pub fn set_last_packet(&mut self, packet: WrChunk)
        ensures
            *final(self) == (Entry { last_packet_chunk: Some(packet), ..*old(self) }),
    {
        self.last_packet_chunk = Some(packet);
    }
}

/// Timer per QP: one slot per possible connection, pre-allocated and never
/// resized.
pub struct TransportTimerTable {
    /// The slots, indexed by connection index.
    pub inner: Vec<Entry>,
}

impl TransportTimerTable {
    /// Creates the table with `MAX_QP_CNT` idle timers, each configured
    /// with the given local ACK timeout exponent and retry budget.
    pub fn new(local_ack_timeout: u8, init_retry_counter: usize) -> (r: Self)
        requires
            local_ack_timeout <= 51,
        ensures
            r.inner@.len() == MAX_QP_CNT,
            forall|i: int|
                0 <= i < MAX_QP_CNT ==> r.inner@[i] == (Entry {
                    timer: TransportTimer {
                        timeout_ns: crate::timer::timeout_ns_spec(local_ack_timeout) as u64,
                        init_retry_count: init_retry_counter,
                        last_reset_ns: None::<u64>,
                        retry_counter: init_retry_counter,
                    },
                    last_packet_chunk: None::<WrChunk>,
                }),
    {
        let timer = TransportTimer::new(local_ack_timeout, init_retry_counter);
        let mut inner: Vec<Entry> = Vec::new();
        let mut i: usize = 0;
        while i < MAX_QP_CNT
            invariant
                i <= MAX_QP_CNT,
                inner@.len() == i,
                timer == (TransportTimer {
                    timeout_ns: crate::timer::timeout_ns_spec(local_ack_timeout) as u64,
                    init_retry_count: init_retry_counter,
                    last_reset_ns: None::<u64>,
                    retry_counter: init_retry_counter,
                }),
                forall|j: int|
                    0 <= j < i ==> inner@[j] == (Entry {
                        timer,
                        last_packet_chunk: None::<WrChunk>,
                    }),
            decreases MAX_QP_CNT - i,
        {
            inner.push(Entry::new(timer.clone()));
            i = i + 1;
        }
        Self { inner }
    }

    /// Looks up the slot of connection `qpn`, or `None` when the number
    /// does not map to a tracked slot.
    pub fn get_qp_mut(&mut self, qpn: u32) -> (r: Option<&mut Entry>)
        ensures
            qpn_index_spec(qpn) >= old(self).inner@.len() ==> r is None && *final(self) == *old(self),
            qpn_index_spec(qpn) < old(self).inner@.len() ==> (r matches Some(e) && *e == old(self).inner@[qpn_index_spec(qpn)] && final(self).inner@ == old(self).inner@.update(
                qpn_index_spec(qpn),
                *final(e),
            )),
    {
        let idx = qpn_index(qpn);
        if idx < self.inner.len() {
            Some(&mut self.inner[idx])
        } else {
            None
        }
    }
}

/// Retransmit control event: ownership of the chunk transfers to the
/// worker.
#[derive(Clone, Copy, Debug)]
pub enum RetransmitTask {
    /// A chunk with the ack_req bit set was emitted on `qpn`.
    NewAckReq {
        /// The connection number.
        qpn: u32,
        /// Contains the last packet whose ack_req bit is set.
        last_packet_chunk: WrChunk,
    },
    /// An acknowledgment arrived on `qpn`.
    ReceiveACK {
        /// The connection number.
        qpn: u32,
    },
}

impl RetransmitTask {
    /// The connection the event names.
    pub open spec fn qpn_spec(self) -> u32 {
        match self {
            RetransmitTask::NewAckReq { qpn, .. } => qpn,
            RetransmitTask::ReceiveACK { qpn } => qpn,
        }
    }

    /// Returns the connection number the event names.
    pub fn qpn(&self) -> (r: u32)
        ensures
            r == self.qpn_spec(),
    {
        match *self {
            RetransmitTask::NewAckReq { qpn, .. } | RetransmitTask::ReceiveACK { qpn } => qpn,
        }
    }
}

/// Table contents after one control event is applied at time `now_ns`: a
/// `NewAckReq` arms the connection's timer and replaces its stored chunk;
/// a `ReceiveACK` changes nothing; an event naming an untracked
/// connection is dropped.
pub open spec fn apply_task_spec(s: Seq<Entry>, task: RetransmitTask, now_ns: u64) -> Seq<Entry> {
    let idx = qpn_index_spec(task.qpn_spec());
    if 0 <= idx < s.len() {
        match task {
            RetransmitTask::NewAckReq { qpn, last_packet_chunk } => s.update(
                idx,
                Entry {
                    timer: TransportTimer {
                        last_reset_ns: Some(now_ns),
                        retry_counter: s[idx].timer.init_retry_count,
                        ..s[idx].timer
                    },
                    last_packet_chunk: Some(last_packet_chunk),
                },
            ),
            RetransmitTask::ReceiveACK { .. } => s,
        }
    } else {
        s
    }
}

/// Table contents after a sequence of control events is applied in order.
pub open spec fn apply_tasks_spec(s: Seq<Entry>, tasks: Seq<RetransmitTask>, now_ns: u64) -> Seq<
    Entry,
>
    decreases tasks.len(),
{
    if tasks.len() == 0 {
        s
    } else {
        apply_tasks_spec(apply_task_spec(s, tasks[0], now_ns), tasks.skip(1), now_ns)
    }
}

/// One slot after the per-cycle timeout check of its timer.
pub open spec fn entry_after_check_spec(e: Entry, now_ns: u64) -> Entry {
    Entry { timer: e.timer.check_spec(now_ns), ..e }
}

/// Table contents after the per-cycle timeout scan: every slot's timer is
/// checked against `now_ns`; stored chunks are kept.
pub open spec fn scan_table_spec(s: Seq<Entry>, now_ns: u64) -> Seq<Entry> {
    s.map_values(|e: Entry| entry_after_check_spec(e, now_ns))
}

/// The chunk a slot re-emits during the scan: its stored chunk marked as
/// a retry, when its timer reports a timeout and a chunk is stored.
pub open spec fn entry_retransmit_spec(e: Entry, now_ns: u64) -> Option<WrChunk> {
    if e.timer.check_result_spec(now_ns) == Ok::<bool, TimerExhausted>(true)
        && e.last_packet_chunk is Some {
        Some(WrChunk { is_retry: true, ..e.last_packet_chunk->Some_0 })
    } else {
        None
    }
}

/// Chunks the scan re-emits, in slot order.
pub open spec fn scan_retransmits_spec(s: Seq<Entry>, now_ns: u64) -> Seq<WrChunk>
    decreases s.len(),
{
    if s.len() == 0 {
        Seq::empty()
    } else {
        scan_retransmits_spec(s.drop_last(), now_ns) + match entry_retransmit_spec(
            s.last(),
            now_ns,
        ) {
            Some(c) => seq![c],
            None => Seq::empty(),
        }
    }
}

/// Connection indices whose retry budget the scan finds exhausted, in
/// slot order.
pub open spec fn scan_exhausted_spec(s: Seq<Entry>, now_ns: u64) -> Seq<u32>
    decreases s.len(),
{
    if s.len() == 0 {
        Seq::empty()
    } else {
        scan_exhausted_spec(s.drop_last(), now_ns) + if s.last().timer.check_result_spec(now_ns)
            is Err {
            seq![(s.len() - 1) as u32]
        } else {
            Seq::empty()
        }
    }
}

/// Applying the events of `tasks` and then one more event `t` equals
/// applying `tasks.push(t)`.
pub proof fn lemma_apply_tasks_snoc(
    s: Seq<Entry>,
    tasks: Seq<RetransmitTask>,
    t: RetransmitTask,
    now_ns: u64,
)
    ensures
        apply_tasks_spec(s, tasks.push(t), now_ns) == apply_task_spec(
            apply_tasks_spec(s, tasks, now_ns),
            t,
            now_ns,
        ),
    decreases tasks.len(),
{
    let pt = tasks.push(t);
    assert(pt.len() > 0);
    assert(apply_tasks_spec(s, pt, now_ns) == apply_tasks_spec(
        apply_task_spec(s, pt[0], now_ns),
        pt.skip(1),
        now_ns,
    ));
    if tasks.len() == 0 {
        assert(pt[0] == t);
        assert(pt.skip(1) =~= Seq::<RetransmitTask>::empty());
        assert(apply_tasks_spec(apply_task_spec(s, t, now_ns), pt.skip(1), now_ns)
            == apply_task_spec(s, t, now_ns));
        assert(apply_tasks_spec(s, tasks, now_ns) == s);
    } else {
        assert(pt[0] == tasks[0]);
        assert(pt.skip(1) =~= tasks.skip(1).push(t));
        lemma_apply_tasks_snoc(apply_task_spec(s, tasks[0], now_ns), tasks.skip(1), t, now_ns);
        assert(apply_tasks_spec(s, tasks, now_ns) == apply_tasks_spec(
            apply_task_spec(s, tasks[0], now_ns),
            tasks.skip(1),
            now_ns,
        ));
    }
}

/// Table isolation: a control event for one connection leaves every other
/// slot unchanged, and the timeout scan rewrites each slot from that
/// slot's own prior state alone.
pub proof fn lemma_table_isolation(s: Seq<Entry>, task: RetransmitTask, now_ns: u64, j: int)
    requires
        0 <= j < s.len(),
        j != qpn_index_spec(task.qpn_spec()),
    ensures
        apply_task_spec(s, task, now_ns)[j] == s[j],
        scan_table_spec(s, now_ns)[j] == entry_after_check_spec(s[j], now_ns),
{
}

/// Table isolation over a whole drain: a sequence of control events none
/// of which names connection index `j` leaves slot `j` unchanged.
pub proof fn lemma_tasks_isolation(s: Seq<Entry>, tasks: Seq<RetransmitTask>, now_ns: u64, j: int)
    requires
        0 <= j < s.len(),
        forall|k: int| 0 <= k < tasks.len() ==> qpn_index_spec((#[trigger] tasks[k]).qpn_spec()) != j,
    ensures
        apply_tasks_spec(s, tasks, now_ns)[j] == s[j],
    decreases tasks.len(),
{
    if tasks.len() > 0 {
        let s1 = apply_task_spec(s, tasks[0], now_ns);
        lemma_table_isolation(s, tasks[0], now_ns, j);
        assert(s1.len() == s.len());
        lemma_tasks_isolation(s1, tasks.skip(1), now_ns, j);
    }
}

/// Report of one worker cycle.
pub struct TickReport {
    /// Chunks to re-submit to the send dispatcher, marked as retries.
    pub retransmits: Vec<WrChunk>,
    /// Connections whose retry budget is exhausted; a terminal,
    /// connection-level failure the caller must surface.
    pub exhausted: Vec<u32>,
}

/// The decision core of the timeout/retransmit background task. The
/// surrounding loop sleeps for the check interval, drains the control
/// channel, and hands the drained events with the current clock reading to
/// `tick`.
pub struct TimeoutRetransmitWorker {
    /// The per-connection timer table, owned exclusively by the worker.
    pub table: TransportTimerTable,
    /// The timeout configuration the worker was started with.
    pub config: AckTimeoutConfig,
}

impl TimeoutRetransmitWorker {
    /// The table always keeps one slot per possible connection.
    pub open spec fn wf(self) -> bool {
        self.table.inner@.len() == MAX_QP_CNT
    }

    /// Creates the worker state: a fresh table of idle timers configured
    /// from `config`.
    pub fn new(config: AckTimeoutConfig) -> (r: Self)
        requires
            config.wf(),
        ensures
            r.wf(),
            r.config == config,
            forall|i: int|
                0 <= i < MAX_QP_CNT ==> r.table.inner@[i] == (Entry {
                    timer: TransportTimer {
                        timeout_ns: crate::timer::timeout_ns_spec(config.local_ack_timeout_exp)
                            as u64,
                        init_retry_count: config.init_retry_count,
                        last_reset_ns: None::<u64>,
                        retry_counter: config.init_retry_count,
                    },
                    last_packet_chunk: None::<WrChunk>,
                }),
    {
        Self {
            table: TransportTimerTable::new(config.local_ack_timeout_exp, config.init_retry_count),
            config,
        }
    }

    /// One worker cycle at clock reading `now_ns`: applies the drained
    /// control events to the table in order, then checks every timer,
    /// collecting the chunks to retransmit and the connections whose
    /// retry budget is exhausted.
    pub fn tick(&mut self, tasks: &Vec<RetransmitTask>, now_ns: u64) -> (r: TickReport)
        requires
            old(self).wf(),
        ensures
            final(self).wf(),
            final(self).config == old(self).config,
            ({
                let mid = apply_tasks_spec(old(self).table.inner@, tasks@, now_ns);
                &&& final(self).table.inner@ == scan_table_spec(mid, now_ns)
                &&& r.retransmits@ == scan_retransmits_spec(mid, now_ns)
                &&& r.exhausted@ == scan_exhausted_spec(mid, now_ns)
            }),
    {
        let ghost s0 = self.table.inner@;
        let mut ti: usize = 0;
        while ti < tasks.len()
            invariant
                ti <= tasks@.len(),
                self.config == old(self).config,
                self.table.inner@ == apply_tasks_spec(s0, tasks@.take(ti as int), now_ns),
                self.table.inner@.len() == s0.len(),
                s0.len() == MAX_QP_CNT,
            decreases tasks@.len() - ti,
        {
            let task = tasks[ti];
            let qpn = task.qpn();
            let idx = qpn_index(qpn);
            if idx < self.table.inner.len() {
                if let RetransmitTask::NewAckReq { last_packet_chunk, .. } = task {
                    let mut e = self.table.inner[idx];
                    e.timer.reset(now_ns);
                    e.set_last_packet(last_packet_chunk);
                    self.table.inner.set(idx, e);
                }
            }
            proof {
                assert(tasks@.take(ti + 1) =~= tasks@.take(ti as int).push(tasks@[ti as int]));
                lemma_apply_tasks_snoc(s0, tasks@.take(ti as int), tasks@[ti as int], now_ns);
            }
            ti = ti + 1;
        }
        proof {
            assert(tasks@.take(tasks@.len() as int) =~= tasks@);
        }
        let ghost mid = self.table.inner@;
        let mut retransmits: Vec<WrChunk> = Vec::new();
        let mut exhausted: Vec<u32> = Vec::new();
        let mut i: usize = 0;
        while i < self.table.inner.len()
            invariant
                i <= mid.len(),
                self.config == old(self).config,
                self.table.inner@.len() == mid.len(),
                mid.len() == MAX_QP_CNT,
                forall|j: int| i <= j < mid.len() ==> self.table.inner@[j] == mid[j],
                forall|j: int|
                    0 <= j < i ==> self.table.inner@[j] == entry_after_check_spec(mid[j], now_ns),
                retransmits@ == scan_retransmits_spec(mid.take(i as int), now_ns),
                exhausted@ == scan_exhausted_spec(mid.take(i as int), now_ns),
            decreases mid.len() - i,
        {
            let mut e = self.table.inner[i];
            let res = e.timer.check_timeout(now_ns);
            match res {
                Ok(true) => {
                    if let Some(packet) = e.last_packet_chunk {
                        let mut packet = packet;
                        packet.set_is_retry();
                        retransmits.push(packet);
                    }
                },
                Ok(false) => {},
                Err(_) => {
                    exhausted.push(i as u32);
                },
            }
            self.table.inner.set(i, e);
            proof {
                assert(mid.take(i + 1).drop_last() =~= mid.take(i as int));
                assert(mid.take(i + 1).last() == mid[i as int]);
            }
            i = i + 1;
        }
        proof {
            assert(mid.take(mid.len() as int) =~= mid);
            assert(self.table.inner@ =~= scan_table_spec(mid, now_ns));
        }
        TickReport { retransmits, exhausted }
    }
}

} // verus!
