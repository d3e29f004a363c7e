use deepflow_agent::enums::TapType;
use deepflow_agent::flow::{CloseType, Flow, FlowPerfStats, TcpPerfStats};
use deepflow_agent::flow_aggr::{
    bounded_rate, round_to_minute, stores_tap_type, FlowAggr, FlowAggrCounter, SendItem, Slot, TaggedFlow,
    ThrottlingQueue,
};
use rand::rngs::SmallRng;
use rand::SeedableRng;

const SECOND: u64 = 1_000_000_000;
const MINUTE: u64 = 60 * SECOND;

fn throttle(rate: u64) -> ThrottlingQueue {
    ThrottlingQueue::new(rate, SmallRng::seed_from_u64(7))
}

/// An aggregator whose front slot is the tenth minute.
fn aggregator() -> FlowAggr {
    FlowAggr::new(throttle(100), 11 * MINUTE + 5 * SECOND)
}

fn snapshot(id: u64, stat_time: u64, src_packets: u64, dst_packets: u64) -> TaggedFlow {
    let mut flow = Flow::default();
    flow.flow_id = id;
    flow.flow_stat_time = stat_time;
    flow.start_time = 3 * MINUTE;
    flow.end_time = stat_time + SECOND;
    flow.close_type = CloseType::ForcedReport;
    flow.flow_metrics_peers[0].packet_count = src_packets;
    flow.flow_metrics_peers[1].packet_count = dst_packets;
    TaggedFlow { flow }
}

fn closed(id: u64, stat_time: u64, src_packets: u64, dst_packets: u64) -> TaggedFlow {
    let mut f = snapshot(id, stat_time, src_packets, dst_packets);
    f.flow.close_type = CloseType::TcpFin;
    f
}

fn flows(items: &[SendItem]) -> Vec<Flow> {
    items
        .iter()
        .map(|i| match i {
            SendItem::L4FlowLog(f) => f.flow,
            _ => panic!("a flow expected"),
        })
        .collect()
}

#[test]
fn minutes() {
    assert_eq!(round_to_minute(0), 0);
    assert_eq!(round_to_minute(MINUTE - 1), 0);
    assert_eq!(round_to_minute(MINUTE), MINUTE);
    assert_eq!(round_to_minute(10 * MINUTE + 59 * SECOND), 10 * MINUTE);
    assert_eq!(round_to_minute(u64::MAX), u64::MAX - u64::MAX % MINUTE);
    let aggr = aggregator();
    assert_eq!(aggr.slot_start_time, 10 * MINUTE);
    assert_eq!(FlowAggr::new(throttle(100), 30 * SECOND).slot_start_time, 0);
}

#[test]
fn snapshots_of_one_minute_are_merged_and_leave_when_nothing_comes() {
    let mut aggr = aggregator();
    let mut out = Vec::new();
    aggr.merge(&snapshot(7, 10 * MINUTE + 10 * SECOND, 100, 50), 1000, 100, &mut out);
    aggr.merge(&snapshot(7, 10 * MINUTE + 40 * SECOND, 30, 70), 1000, 100, &mut out);
    assert!(out.is_empty());
    assert!(aggr.output.stashs.is_empty());
    assert_eq!(aggr.stashs[0].flows.len(), 1);
    assert_eq!(aggr.stashs[0].order, vec![7]);
    assert_eq!(aggr.get_counters(), FlowAggrCounter { drop_before_window: 0, out: 0, drop_in_throttle: 0 });

    // nothing comes: not yet, and then the front slot is flushed
    assert!(!aggr.on_timeout(120, 100, &mut out));
    assert!(aggr.on_timeout(1000, 100, &mut out));
    assert_eq!(aggr.last_flush_time, 1000);
    assert_eq!(aggr.slot_start_time, 11 * MINUTE);
    assert!(aggr.stashs[0].flows.is_empty());
    let emitted = flows(&aggr.output.stashs);
    assert_eq!(emitted.len(), 1);
    assert_eq!(emitted[0].flow_id, 7);
    assert_eq!(emitted[0].flow_metrics_peers[0].packet_count, 130);
    assert_eq!(emitted[0].flow_metrics_peers[1].packet_count, 120);
    assert_eq!(emitted[0].close_type, CloseType::ForcedReport);
    assert_eq!(emitted[0].start_time, 10 * MINUTE);
    assert_eq!(emitted[0].flow_stat_time, 10 * MINUTE + 10 * SECOND);
    assert_eq!(emitted[0].end_time, 11 * MINUTE);
    assert_eq!(aggr.get_counters(), FlowAggrCounter { drop_before_window: 0, out: 1, drop_in_throttle: 0 });
    assert_eq!(aggr.get_counters(), FlowAggrCounter { drop_before_window: 0, out: 0, drop_in_throttle: 0 });
    assert!(!aggr.on_timeout(1120, 100, &mut out));
    assert!(aggr.on_timeout(1121, 100, &mut out));
    // the throttle hands its bucket over when the next flow is sent
    assert!(out.is_empty());
    assert!(aggr.send_flow(closed(8, 12 * MINUTE, 1, 1), 1121, 100, &mut out));
    assert_eq!(flows(&out).len(), 1);
    assert_eq!(flows(&out)[0].flow_id, 7);
}

#[test]
fn a_flow_that_ends_leaves_at_once() {
    let mut aggr = aggregator();
    // one that the slot does not hold passes through
    let mut f = closed(1, 10 * MINUTE + SECOND, 5, 6);
    f.flow.is_new_flow = true;
    f.flow.start_time = 10 * MINUTE - 3 * SECOND;
    f.flow.end_time = 10 * MINUTE + 2 * SECOND;
    let leaving = aggr.merge_slots(&f, 77);
    assert_eq!(leaving, vec![f]);
    assert!(aggr.stashs[0].flows.is_empty());
    // one that the slot holds leaves with what the slot held
    assert!(aggr.merge_slots(&snapshot(2, 10 * MINUTE + SECOND, 1, 2), 77).is_empty());
    let leaving = aggr.merge_slots(&closed(2, 10 * MINUTE + 9 * SECOND, 10, 20), 77);
    assert_eq!(leaving.len(), 1);
    assert_eq!(leaving[0].flow.close_type, CloseType::TcpFin);
    assert_eq!(leaving[0].flow.flow_metrics_peers[0].packet_count, 11);
    assert_eq!(leaving[0].flow.flow_metrics_peers[1].packet_count, 22);
    assert_eq!(leaving[0].flow.end_time, 10 * MINUTE + 10 * SECOND);
    assert!(aggr.stashs[0].flows.is_empty());

    // on its way out a flow keeps its times if it is new and has ended
    let mut out = Vec::new();
    assert!(aggr.send_flow(f, 1000, 100, &mut out));
    let emitted = flows(&aggr.output.stashs);
    assert_eq!(emitted[0].start_time, 10 * MINUTE - 3 * SECOND);
    assert_eq!(emitted[0].end_time, 10 * MINUTE + 2 * SECOND);
    // and a flow that is not new starts with the minute of its statistics
    f.flow.is_new_flow = false;
    assert!(aggr.send_flow(f, 1000, 100, &mut out));
    let emitted = flows(&aggr.output.stashs);
    assert_eq!(emitted[1].start_time, 10 * MINUTE);
    assert_eq!(emitted[1].end_time, 10 * MINUTE + 2 * SECOND);
}

#[test]
fn a_flow_is_in_one_slot_at_a_time() {
    let mut aggr = aggregator();
    assert!(aggr.merge_slots(&snapshot(1, 10 * MINUTE + SECOND, 1, 1), 77).is_empty());
    assert!(aggr.merge_slots(&snapshot(2, 10 * MINUTE + 2 * SECOND, 2, 2), 77).is_empty());
    assert_eq!(aggr.stashs[0].flows.len(), 2);
    // the next minute of flow 1 comes: its first minute is complete and leaves
    let leaving = aggr.merge_slots(&snapshot(1, 11 * MINUTE + SECOND, 10, 10), 77);
    assert_eq!(leaving.len(), 1);
    assert_eq!(leaving[0].flow.flow_id, 1);
    assert_eq!(leaving[0].flow.flow_metrics_peers[0].packet_count, 1);
    assert!(aggr.stashs[0].flows.get(&1).is_none());
    assert_eq!(aggr.stashs[1].flows.get(&1).unwrap().flow.flow_metrics_peers[0].packet_count, 10);
    assert_eq!(aggr.stashs[0].flows.len(), 1);
    assert_eq!(aggr.slot_start_time, 10 * MINUTE);
    // a flow two minutes on makes one minute pass: flow 2 leaves
    let leaving = aggr.merge_slots(&snapshot(3, 12 * MINUTE + SECOND, 3, 3), 77);
    assert_eq!(leaving.len(), 1);
    assert_eq!(leaving[0].flow.flow_id, 2);
    assert_eq!(aggr.slot_start_time, 11 * MINUTE);
    assert!(aggr.stashs[0].flows.get(&1).is_some());
    assert!(aggr.stashs[1].flows.get(&3).is_some());
    // a flow far on empties both slots, in the order of the minutes
    let leaving = aggr.merge_slots(&snapshot(4, 20 * MINUTE, 4, 4), 77);
    assert_eq!(leaving.iter().map(|f| f.flow.flow_id).collect::<Vec<u64>>(), vec![1, 3]);
    assert_eq!(aggr.slot_start_time, 19 * MINUTE);
    assert!(aggr.stashs[0].flows.is_empty());
    assert_eq!(aggr.stashs[1].flows.len(), 1);
    // flows leave a slot in the order in which they came
    let mut aggr = aggregator();
    for id in [5u64, 3, 9, 1] {
        aggr.merge_slots(&snapshot(id, 10 * MINUTE, 1, 1), 77);
    }
    aggr.merge_slots(&snapshot(3, 10 * MINUTE + SECOND, 1, 1), 77);
    let leaving = aggr.flush_slots(1, 77);
    assert_eq!(leaving.iter().map(|f| f.flow.flow_id).collect::<Vec<u64>>(), vec![5, 3, 9, 1]);
    assert!(aggr.flush_slots(0, 77).is_empty());
    assert_eq!(aggr.slot_start_time, 11 * MINUTE);
    assert!(aggr.flush_slots(5, 77).is_empty());
    assert_eq!(aggr.slot_start_time, 16 * MINUTE);
}

#[test]
fn flows_before_the_window_are_dropped() {
    let mut aggr = aggregator();
    let mut out = Vec::new();
    aggr.merge(&snapshot(1, 10 * MINUTE - 1, 1, 1), 1000, 100, &mut out);
    aggr.merge(&closed(2, 0, 1, 1), 1000, 100, &mut out);
    assert!(aggr.stashs[0].flows.is_empty());
    assert!(aggr.output.stashs.is_empty());
    assert_eq!(aggr.get_counters(), FlowAggrCounter { drop_before_window: 2, out: 0, drop_in_throttle: 0 });
}

#[test]
fn a_stored_flow_is_turned_round_to_meet_its_next_snapshot() {
    let mut aggr = aggregator();
    let mut first = snapshot(1, 10 * MINUTE, 10, 20);
    first.flow.flow_key.port_src = 1;
    first.flow.flow_key.port_dst = 2;
    let mut tcp = TcpPerfStats::default();
    tcp.rtt_client_sum = 5;
    tcp.rtt_server_sum = 9;
    first.flow.flow_perf_stats = Some(FlowPerfStats { tcp, ..FlowPerfStats::default() });
    let mut second = snapshot(1, 10 * MINUTE + SECOND, 1, 2);
    second.flow.reversed = true;
    second.flow.flow_key.port_src = 2;
    second.flow.flow_key.port_dst = 1;
    aggr.merge_slots(&first, 77);
    aggr.merge_slots(&second, 77);
    let held = aggr.stashs[0].flows.get(&1).unwrap().flow;
    assert!(held.reversed);
    assert_eq!(held.flow_key.port_src, 2);
    assert_eq!(held.flow_metrics_peers[0].packet_count, 21);
    assert_eq!(held.flow_metrics_peers[1].packet_count, 12);
    assert_eq!(held.flow_perf_stats.unwrap().tcp.rtt_client_sum, 9);
    assert_eq!(held.flow_perf_stats.unwrap().tcp.rtt_server_sum, 5);
}

#[test]
fn the_throttle_keeps_what_the_rate_allows() {
    // 100 a second: a bucket of four seconds holds 400
    let mut q = throttle(100);
    assert_eq!(q.throttle, 400);
    let mut out = Vec::new();
    let mut kept = 0;
    for id in 0..800u64 {
        if q.send(closed(id, 0, 1, 1), 1000 + id % 4, 100, &mut out) {
            kept += 1;
        }
    }
    assert_eq!(kept, 400);
    assert_eq!(q.stashs.len(), 400);
    assert_eq!(q.period_count, 800);
    assert!(out.is_empty());
    // what is kept is a sample of all that came, each flow once
    let mut ids: Vec<u64> = flows(&q.stashs).iter().map(|f| f.flow_id).collect();
    ids.sort();
    ids.dedup();
    assert_eq!(ids.len(), 400);
    assert!(ids.iter().any(|id| *id >= 400));
    // the next bucket: the sample goes out, and a new rate is taken
    assert!(q.send(closed(1000, 0, 1, 1), 1004, 200, &mut out));
    assert_eq!(out.len(), 400);
    assert_eq!(q.stashs.len(), 1);
    assert_eq!(q.period_count, 1);
    assert_eq!(q.throttle, 800);
    assert_eq!(q.last_flush_time, 1004);
    // a rate out of bounds is not taken
    q.update_throttle(99);
    assert_eq!(q.throttle, 800);
    q.update_throttle(1_000_001);
    assert_eq!(q.throttle, 800);
    q.update_throttle(1_000_000);
    assert_eq!(q.throttle, 4_000_000);
    q.flush(&mut out);
    assert_eq!(out.len(), 401);
    assert!(q.stashs.is_empty());
}

#[test]
fn the_throttle_places_by_the_number_drawn() {
    let mut q = throttle(100);
    let mut out = Vec::new();
    for id in 0..400u64 {
        assert!(q.send(closed(id, 0, 1, 1), 0, 100, &mut out));
    }
    // a draw within the sample replaces, one beyond it drops
    assert!(!q.place(SendItem::L4FlowLog(closed(1000, 0, 1, 1)), 5));
    assert_eq!(flows(&q.stashs)[5].flow_id, 1000);
    assert!(!q.place(SendItem::L4FlowLog(closed(1001, 0, 1, 1)), 400));
    assert!(flows(&q.stashs).iter().all(|f| f.flow_id != 1001));
    assert_eq!(q.stashs.len(), 400);
    assert_eq!(q.period_count, 402);
    assert!(!q.roll_over(3, 100, &mut out));
    assert!(q.roll_over(4, 100, &mut out));
    assert_eq!(out.len(), 400);
}

#[test]
fn the_aggregator_counts_what_the_throttle_drops() {
    let mut aggr = aggregator();
    let mut out = Vec::new();
    let store = [true];
    for id in 0..800u64 {
        assert!(aggr.on_flow(&closed(id, 10 * MINUTE + id, 1, 1), &store, 1000, 100, &mut out));
    }
    assert_eq!(aggr.output.stashs.len(), 400);
    assert_eq!(
        aggr.get_counters(),
        FlowAggrCounter { drop_before_window: 0, out: 800, drop_in_throttle: 400 }
    );
}

#[test]
fn only_the_capture_types_that_are_kept_come_in() {
    let mut store = vec![false; 257];
    store[3] = true;
    assert!(stores_tap_type(&store, TapType::Tor));
    assert!(!stores_tap_type(&store, TapType::Isp(1)));
    assert!(!stores_tap_type(&store, TapType::Any));
    assert!(!stores_tap_type(&[], TapType::Tor));
    assert!(!stores_tap_type(&[false, true], TapType::Tor));
    assert!(stores_tap_type(&[true], TapType::Tor));
    let mut aggr = aggregator();
    let mut out = Vec::new();
    let mut f = snapshot(1, 10 * MINUTE, 1, 1);
    f.flow.flow_key.tap_type = TapType::Isp(1);
    assert!(!aggr.on_flow(&f, &store, 1000, 100, &mut out));
    assert!(aggr.stashs[0].flows.is_empty());
    f.flow.flow_key.tap_type = TapType::Tor;
    assert!(aggr.on_flow(&f, &store, 1000, 100, &mut out));
    assert_eq!(aggr.stashs[0].flows.len(), 1);
    aggr.flush_front_slot_and_rotate(1000, 100, &mut out);
    assert_eq!(aggr.output.stashs.len(), 1);
    assert_eq!(aggr.last_flush_time, 1000);
}

#[test]
fn slots() {
    let mut slot = Slot::new();
    slot.put(snapshot(3, 0, 1, 1));
    slot.put(snapshot(1, 0, 2, 2));
    assert_eq!(slot.take(3).unwrap().flow.flow_metrics_peers[0].packet_count, 1);
    assert!(slot.take(3).is_none());
    slot.put_back(snapshot(3, 0, 9, 9));
    assert_eq!(slot.order, vec![3, 1]);
    let all = slot.drain();
    assert_eq!(all.iter().map(|f| f.flow.flow_metrics_peers[0].packet_count).collect::<Vec<u64>>(), vec![9, 2]);
    assert!(slot.flows.is_empty());
    assert!(slot.order.is_empty());
}

#[test]
fn a_flow_that_makes_minutes_pass_counts_as_a_flush() {
    let mut aggr = aggregator();
    let mut out = Vec::new();
    aggr.merge(&snapshot(1, 10 * MINUTE, 1, 1), 500, 100, &mut out);
    assert_eq!(aggr.last_flush_time, 0);
    // the next minute is open already
    aggr.merge(&snapshot(1, 11 * MINUTE, 1, 1), 501, 100, &mut out);
    assert_eq!(aggr.last_flush_time, 0);
    assert_eq!(aggr.slot_start_time, 10 * MINUTE);
    // the minute after it makes one minute pass
    aggr.merge(&snapshot(2, 12 * MINUTE, 1, 1), 502, 100, &mut out);
    assert_eq!(aggr.last_flush_time, 502);
    assert_eq!(aggr.slot_start_time, 11 * MINUTE);
    assert!(!aggr.on_timeout(622, 100, &mut out));
    assert!(aggr.on_timeout(623, 100, &mut out));
    assert_eq!(aggr.last_flush_time, 623);
    // a flow before the window changes nothing but its counter
    let sample = aggr.output.stashs.len();
    let count = aggr.output.period_count;
    let handed_over = out.len();
    aggr.merge(&snapshot(3, 0, 1, 1), 700, 100, &mut out);
    assert_eq!(aggr.last_flush_time, 623);
    assert_eq!(aggr.output.stashs.len(), sample);
    assert_eq!(aggr.output.period_count, count);
    assert_eq!(out.len(), handed_over);
    assert_eq!(aggr.get_counters().drop_before_window, 1);
}

#[test]
fn the_throttle_counts_what_it_is_offered() {
    let mut q = throttle(100);
    let mut out = Vec::new();
    assert_eq!(q.period_count, 0);
    q.send(closed(1, 0, 1, 1), 8, 100, &mut out);
    assert_eq!((q.period_count, q.last_flush_time), (1, 8));
    q.send(closed(2, 0, 1, 1), 9, 100, &mut out);
    q.send(closed(3, 0, 1, 1), 11, 100, &mut out);
    assert_eq!((q.period_count, q.last_flush_time, q.stashs.len()), (3, 8, 3));
    assert!(out.is_empty());
    q.send(closed(4, 0, 1, 1), 12, 100, &mut out);
    assert_eq!((q.period_count, q.last_flush_time, q.stashs.len()), (1, 12, 1));
    assert_eq!(out.len(), 3);
}

#[test]
fn rates_out_of_bounds() {
    assert_eq!(bounded_rate(0), 100);
    assert_eq!(bounded_rate(99), 100);
    assert_eq!(bounded_rate(100), 100);
    assert_eq!(bounded_rate(5000), 5000);
    assert_eq!(bounded_rate(1_000_000), 1_000_000);
    assert_eq!(bounded_rate(1_000_001), 1_000_000);
    assert_eq!(bounded_rate(u64::MAX), 1_000_000);
}
