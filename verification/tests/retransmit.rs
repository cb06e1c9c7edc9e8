use rdma_transport::chunk::ChunkPos;
use rdma_transport::chunk::WrChunk;
use rdma_transport::constants::MAX_QP_CNT;
use rdma_transport::timeout_retransmit::qpn_index;
use rdma_transport::timeout_retransmit::AckTimeoutConfig;
use rdma_transport::timeout_retransmit::Entry;
use rdma_transport::timeout_retransmit::RetransmitTask;
use rdma_transport::timeout_retransmit::TimeoutRetransmitWorker;
use rdma_transport::timeout_retransmit::TransportTimerTable;
use rdma_transport::timer::TransportTimer;

fn sample_chunk(psn: u32) -> WrChunk {
    WrChunk {
        psn,
        laddr: 0x1000,
        raddr: 0x2000,
        len: 512,
        pos: ChunkPos::Only,
        flags: 0x2,
        rkey: 0x22,
        total_len: 512,
        lkey: 0x11,
        imm: 0,
        is_retry: false,
    }
}

#[test]
fn config_defaults() {
    let c = AckTimeoutConfig::default();
    assert_eq!(c.check_duration_exp, 8);
    assert_eq!(c.local_ack_timeout_exp, 4);
    assert_eq!(c.init_retry_count, 5);
    let c = AckTimeoutConfig::new(9, 5, 7);
    assert_eq!(c.check_duration_exp, 9);
    assert_eq!(c.local_ack_timeout_exp, 5);
    assert_eq!(c.init_retry_count, 7);
}

#[test]
fn table_has_one_slot_per_connection() {
    let t = TransportTimerTable::new(4, 5);
    assert_eq!(t.inner.len(), MAX_QP_CNT);
    for e in &t.inner {
        assert!(e.timer.last_reset_ns.is_none());
        assert_eq!(e.timer.retry_counter, 5);
        assert!(e.last_packet_chunk.is_none());
    }
}

#[test]
fn table_lookup_by_connection_number() {
    let mut t = TransportTimerTable::new(4, 5);
    assert_eq!(qpn_index(17), 17);
    {
        let e = t.get_qp_mut(17).unwrap();
        e.set_last_packet(sample_chunk(3));
    }
    assert!(t.inner[17].last_packet_chunk.is_some());
    assert!(t.inner[16].last_packet_chunk.is_none());
    // A connection number past the table is not tracked.
    assert!(t.get_qp_mut(MAX_QP_CNT as u32).is_none());
}

#[test]
fn entry_stores_last_packet() {
    let mut e = Entry::new(TransportTimer::new(4, 5));
    assert!(e.last_packet_chunk.is_none());
    e.set_last_packet(sample_chunk(9));
    assert_eq!(e.last_packet_chunk.unwrap().psn, 9);
}

#[test]
fn task_names_its_connection() {
    let t = RetransmitTask::NewAckReq { qpn: 5, last_packet_chunk: sample_chunk(0) };
    assert_eq!(t.qpn(), 5);
    let t = RetransmitTask::ReceiveACK { qpn: 9 };
    assert_eq!(t.qpn(), 9);
}

#[test]
fn new_ack_req_arms_timer_and_expiry_retransmits() {
    // Local ACK timeout exponent 4 is 65_536 ns.
    let mut w = TimeoutRetransmitWorker::new(AckTimeoutConfig::new(8, 4, 5));
    let tasks = vec![RetransmitTask::NewAckReq { qpn: 3, last_packet_chunk: sample_chunk(42) }];
    let report = w.tick(&tasks, 1_000);
    assert!(report.retransmits.is_empty());
    assert!(report.exhausted.is_empty());

    // Before the deadline nothing is re-emitted.
    let report = w.tick(&vec![], 1_000 + 65_535);
    assert!(report.retransmits.is_empty());

    // At the deadline the stored chunk comes back marked as a retry.
    let report = w.tick(&vec![], 1_000 + 65_536);
    assert_eq!(report.retransmits.len(), 1);
    let c = &report.retransmits[0];
    assert!(c.is_retry);
    assert_eq!(c.psn, 42);
    // The stored copy itself stays unmarked.
    assert!(!w.table.inner[3].last_packet_chunk.unwrap().is_retry);
}

#[test]
fn timeout_on_one_connection_leaves_others_alone() {
    let mut w = TimeoutRetransmitWorker::new(AckTimeoutConfig::new(8, 4, 5));
    let tasks = vec![RetransmitTask::NewAckReq { qpn: 3, last_packet_chunk: sample_chunk(1) }];
    let _ = w.tick(&tasks, 0);
    let report = w.tick(&vec![], 70_000);
    assert_eq!(report.retransmits.len(), 1);
    // Connection 5 was never named: its timer is still idle and its slot
    // holds no chunk.
    assert!(w.table.inner[5].timer.last_reset_ns.is_none());
    assert_eq!(w.table.inner[5].timer.retry_counter, 5);
    assert!(w.table.inner[5].last_packet_chunk.is_none());
}

#[test]
fn receive_ack_changes_no_timer_state() {
    let mut w = TimeoutRetransmitWorker::new(AckTimeoutConfig::new(8, 4, 5));
    let arm = vec![RetransmitTask::NewAckReq { qpn: 2, last_packet_chunk: sample_chunk(1) }];
    let _ = w.tick(&arm, 0);
    // An acknowledgment is looked up but does not disarm the deadline.
    let ack = vec![RetransmitTask::ReceiveACK { qpn: 2 }];
    let _ = w.tick(&ack, 10);
    assert_eq!(w.table.inner[2].timer.last_reset_ns, Some(0));
    let report = w.tick(&vec![], 65_536);
    assert_eq!(report.retransmits.len(), 1);
}

#[test]
fn events_for_unknown_connections_are_dropped() {
    let mut w = TimeoutRetransmitWorker::new(AckTimeoutConfig::new(8, 4, 5));
    let tasks = vec![RetransmitTask::NewAckReq {
        qpn: MAX_QP_CNT as u32 + 7,
        last_packet_chunk: sample_chunk(1),
    }];
    let report = w.tick(&tasks, 0);
    assert!(report.retransmits.is_empty());
    assert!(report.exhausted.is_empty());
    for e in &w.table.inner {
        assert!(e.timer.last_reset_ns.is_none());
        assert!(e.last_packet_chunk.is_none());
    }
}

#[test]
fn exhausted_budget_is_reported_terminally() {
    // One retry: the first deadline re-emits, the second reports the
    // connection as exhausted instead.
    let mut w = TimeoutRetransmitWorker::new(AckTimeoutConfig::new(8, 0, 1));
    let tasks = vec![RetransmitTask::NewAckReq { qpn: 6, last_packet_chunk: sample_chunk(1) }];
    let _ = w.tick(&tasks, 0);
    let report = w.tick(&vec![], 4_096);
    assert_eq!(report.retransmits.len(), 1);
    assert!(report.exhausted.is_empty());
    let report = w.tick(&vec![], 2 * 4_096);
    assert!(report.retransmits.is_empty());
    assert_eq!(report.exhausted, vec![6]);
    // A fresh NewAckReq rearms the budget.
    let tasks = vec![RetransmitTask::NewAckReq { qpn: 6, last_packet_chunk: sample_chunk(2) }];
    let _ = w.tick(&tasks, 3 * 4_096);
    let report = w.tick(&vec![], 4 * 4_096);
    assert_eq!(report.retransmits.len(), 1);
    assert!(report.exhausted.is_empty());
}

#[test]
fn events_apply_in_order_last_chunk_wins() {
    let mut w = TimeoutRetransmitWorker::new(AckTimeoutConfig::new(8, 4, 5));
    let tasks = vec![
        RetransmitTask::NewAckReq { qpn: 1, last_packet_chunk: sample_chunk(10) },
        RetransmitTask::NewAckReq { qpn: 1, last_packet_chunk: sample_chunk(11) },
    ];
    let _ = w.tick(&tasks, 0);
    assert_eq!(w.table.inner[1].last_packet_chunk.unwrap().psn, 11);
}
