//! The flow aggregator and its throttle.
//!
//! Flows that are still alive are reported once a statistics period as
//! snapshots. The aggregator merges the snapshots of one flow within one
//! minute into one record. It holds two slots, one for the current minute and
//! one for the next; what it emits goes through a throttle that keeps a sample
//! of bounded size of each bucket of four seconds.

use vstd::prelude::*;
use std::collections::{HashMap, VecDeque};
use crate::consts::{NANOS_PER_MINUTE, NANOS_PER_SECOND};
use crate::enums::TapType;
use crate::flow::{CloseType, Flow, FlowPerfStats};
use crate::outside::random_below;
use crate::protocol_logs::AppProtoLogsData;

verus! {

/// The number of slots: the current minute and the next.
pub const MINUTE_SLOTS: u64 = 2;
/// How long the aggregator waits without input before it flushes a slot, in
/// seconds.
pub const FLUSH_TIMEOUT: u64 = 120;
/// How long the reader of the input queue waits for an item, in seconds.
pub const QUEUE_READ_TIMEOUT: u64 = 2;
/// The width of a bucket of the throttle is two to this power seconds.
pub const THROTTLE_BUCKET_BITS: u64 = 2;
pub const THROTTLE_BUCKET: u64 = 4;
pub const MIN_L4_LOG_COLLECT_NPS_THRESHOLD: u64 = 100;
pub const MAX_L4_LOG_COLLECT_NPS_THRESHOLD: u64 = 1_000_000;

/// A flow on its way through the collector.
#[derive(Clone, Copy, Debug, PartialEq, Eq)]
pub struct TaggedFlow {
    pub flow: Flow,
}

impl TaggedFlow {
    /// The flow seen from the other side.
    pub fn reverse(&mut self)
        ensures
            final(self).flow == old(self).flow.spec_reversed(false),
    {
        let mut flow = self.flow;
        flow.reverse(false);
        self.flow = flow;
    }

    pub fn sequential_merge(&mut self, other: &TaggedFlow)
        ensures
            final(self).flow == old(self).flow.merged(other.flow),
    {
        let mut flow = self.flow;
        flow.sequential_merge(&other.flow);
        self.flow = flow;
    }
}

/// What goes to the sender.
#[derive(Clone, Debug)]
pub enum SendItem {
    L4FlowLog(TaggedFlow),
    L7FlowLog(AppProtoLogsData),
    ProtoBufBytes(Vec<u8>),
}

/// A time in nanoseconds at the start of its minute.
pub open spec fn minute_start(t: u64) -> u64 {
    (t - t % NANOS_PER_MINUTE) as u64
}

/// Rounds a time in nanoseconds down to the start of its minute.
pub fn round_to_minute(t: u64) -> (r: u64)
    ensures
        r == minute_start(t),
        r <= t < r + NANOS_PER_MINUTE,
        r % NANOS_PER_MINUTE == 0,
{
    t - t % NANOS_PER_MINUTE
}

/// A flow as it leaves the aggregator: the start of a flow that is not new
/// is the start of the minute of its statistics, and the end of a snapshot is
/// the end of that minute.
pub open spec fn fixed_up(f: Flow) -> Flow {
    Flow {
        start_time: if f.is_new_flow {
            f.start_time
        } else {
            minute_start(f.flow_stat_time)
        },
        end_time: if f.close_type == CloseType::ForcedReport {
            if f.flow_stat_time + NANOS_PER_MINUTE > u64::MAX {
                minute_start(u64::MAX)
            } else {
                minute_start((f.flow_stat_time + NANOS_PER_MINUTE) as u64)
            }
        } else {
            f.end_time
        },
        ..f
    }
}

/// Every emitted flow starts no later than its statistics and ends no earlier,
/// and a snapshot spans no more than two minutes, provided that the flow came
/// in so: with its statistics between its start and its end, and, where it is
/// new, with its start no more than a minute before the minute of its
/// statistics. The minute after the statistics must be a time that 64 bits
/// of nanoseconds hold.
pub proof fn lemma_emitted_times(f: Flow)
    requires
        f.start_time <= f.flow_stat_time <= f.end_time,
        f.flow_stat_time + NANOS_PER_MINUTE <= u64::MAX,
        f.is_new_flow ==> f.start_time + NANOS_PER_MINUTE >= minute_start(f.flow_stat_time),
    ensures
        fixed_up(f).start_time <= fixed_up(f).flow_stat_time <= fixed_up(f).end_time,
        fixed_up(f).close_type == CloseType::ForcedReport ==> fixed_up(f).end_time - fixed_up(
            f,
        ).start_time <= 2 * NANOS_PER_MINUTE,
        !f.is_new_flow && f.close_type == CloseType::ForcedReport ==> fixed_up(f).end_time
            - fixed_up(f).start_time == NANOS_PER_MINUTE,
{
}

/// The rate that the throttle works with after the configuration asks for
/// `rate` records a second: a rate out of bounds is not taken.
pub open spec fn throttle_after(throttle: u64, rate: u64) -> u64 {
    if rate < MIN_L4_LOG_COLLECT_NPS_THRESHOLD || rate > MAX_L4_LOG_COLLECT_NPS_THRESHOLD {
        throttle
    } else {
        (rate * THROTTLE_BUCKET) as u64
    }
}

/// Whether the sample `after` is the sample `held` with no more than one of
/// its records replaced by `item`.
pub open spec fn replaced_at_most_one(after: Seq<SendItem>, held: Seq<SendItem>, item: SendItem) -> bool {
    after == held || exists|k: int|
        #![trigger held.update(k, item)]
        0 <= k < held.len() && after == held.update(k, item)
}

/// The lesser of two numbers.
pub open spec fn least(a: int, b: int) -> int {
    if a <= b {
        a
    } else {
        b
    }
}

/// Whether the sample `after` is made of the sample `held` and of the records
/// `items` alone: each of its records is the record of `held` at its place
/// or one of `items`.
pub open spec fn sample_of(after: Seq<SendItem>, held: Seq<SendItem>, items: Seq<SendItem>) -> bool {
    forall|k: int|
        0 <= k < after.len() ==> (k < held.len() && #[trigger] after[k] == held[k]) || exists|i: int|
            0 <= i < items.len() && after[k] == items[i]
}

/// The rate that a throttle starts with where the configuration asks for
/// `configured` records a second: that rate, or the bound that it is beyond.
pub open spec fn rate_within_bounds(configured: u64) -> u64 {
    if configured < MIN_L4_LOG_COLLECT_NPS_THRESHOLD {
        MIN_L4_LOG_COLLECT_NPS_THRESHOLD
    } else if configured > MAX_L4_LOG_COLLECT_NPS_THRESHOLD {
        MAX_L4_LOG_COLLECT_NPS_THRESHOLD
    } else {
        configured
    }
}

/// Brings the rate of the configuration within the bounds that a throttle is
/// made for.
pub fn bounded_rate(configured: u64) -> (r: u64)
    ensures
        r == rate_within_bounds(configured),
        MIN_L4_LOG_COLLECT_NPS_THRESHOLD <= r <= MAX_L4_LOG_COLLECT_NPS_THRESHOLD,
{
    if configured < MIN_L4_LOG_COLLECT_NPS_THRESHOLD {
        MIN_L4_LOG_COLLECT_NPS_THRESHOLD
    } else if configured > MAX_L4_LOG_COLLECT_NPS_THRESHOLD {
        MAX_L4_LOG_COLLECT_NPS_THRESHOLD
    } else {
        configured
    }
}

/// A reservoir sampler: of the records of one bucket of four seconds it keeps
/// as many as the rate allows, each record of the bucket with the same chance.
pub struct ThrottlingQueue {
    /// How many records a bucket may hold: the rate times the width of a bucket.
    pub throttle: u64,
    pub small_rng: rand::rngs::SmallRng,
    /// The time of the last rollover, in seconds.
    pub last_flush_time: u64,
    /// How many records the bucket was offered.
    pub period_count: usize,
    pub stashs: Vec<SendItem>,
}

impl ThrottlingQueue {
    /// Whether the sample is within its bound: it holds every record that
    /// the bucket was offered, up to what a bucket may hold.
    pub open spec fn wf(self) -> bool {
        &&& self.throttle <= MAX_L4_LOG_COLLECT_NPS_THRESHOLD * THROTTLE_BUCKET
        &&& self.stashs@.len() == if self.period_count < self.throttle {
            self.period_count as int
        } else {
            self.throttle as int
        }
    }

    /// Whether a send at the time `now` starts a new bucket.
    pub open spec fn rolls(self, now: u64) -> bool {
        now / THROTTLE_BUCKET != self.last_flush_time / THROTTLE_BUCKET
    }

    /// Whether `after` and `out_after` are the throttle and the output after
    /// the records `items` were sent one after the other at the time `now`
    /// under the rate `rate`, where the output was `out_before`.
    ///
    /// Without a record nothing changes. Else a bucket that has ended is
    /// handed over first, with the rate taken anew; the records are counted;
    /// the sample grows by the records until it is full; and it holds
    /// nothing but what it held and the records. Which records a full sample
    /// gives up is drawn at random.
    pub open spec fn offered(
        self,
        items: Seq<SendItem>,
        now: u64,
        rate: u64,
        after: ThrottlingQueue,
        out_before: Seq<SendItem>,
        out_after: Seq<SendItem>,
    ) -> bool {
        if items.len() == 0 {
            after == self && out_after == out_before
        } else {
            let rolled = self.rolls(now);
            let held = if rolled {
                Seq::<SendItem>::empty()
            } else {
                self.stashs@
            };
            let counted_before: int = if rolled {
                0
            } else {
                self.period_count as int
            };
            &&& out_after == if rolled {
                out_before + self.stashs@
            } else {
                out_before
            }
            &&& after.throttle == if rolled {
                throttle_after(self.throttle, rate)
            } else {
                self.throttle
            }
            &&& after.last_flush_time == if rolled {
                now
            } else {
                self.last_flush_time
            }
            &&& after.period_count == least(counted_before + items.len(), usize::MAX as int)
            &&& after.stashs@.len() == least((held.len() + items.len()) as int, after.throttle as int)
            &&& sample_of(after.stashs@, held, items)
        }
    }

    /// How many of `n` records that are sent one after the other at the time
    /// `now` under the rate `rate` meet a full sample.
    pub open spec fn drops(self, n: int, now: u64, rate: u64) -> int {
        if n <= 0 {
            0
        } else {
            let held: int = if self.rolls(now) {
                0
            } else {
                self.stashs@.len() as int
            };
            let capacity: int = if self.rolls(now) {
                throttle_after(self.throttle, rate) as int
            } else {
                self.throttle as int
            };
            n - (least(held + n, capacity) - held)
        }
    }

    /// A throttle for `rate` records a second, with `small_rng` to draw from.
    pub fn new(rate: u64, small_rng: rand::rngs::SmallRng) -> (r: ThrottlingQueue)
        requires
            MIN_L4_LOG_COLLECT_NPS_THRESHOLD <= rate <= MAX_L4_LOG_COLLECT_NPS_THRESHOLD,
        ensures
            r.wf(),
            r.throttle == rate * THROTTLE_BUCKET,
            r.last_flush_time == 0,
            r.period_count == 0,
            r.stashs@.len() == 0,
    {
        ThrottlingQueue {
            throttle: rate * THROTTLE_BUCKET,
            small_rng,
            last_flush_time: 0,
            period_count: 0,
            stashs: Vec::new(),
        }
    }

    /// Takes the rate `new` of the configuration, if it is within bounds.
    pub fn update_throttle(&mut self, new: u64)
        ensures
            final(self).throttle == throttle_after(old(self).throttle, new),
            final(self).stashs == old(self).stashs,
            final(self).last_flush_time == old(self).last_flush_time,
            final(self).period_count == old(self).period_count,
    {
        if new < MIN_L4_LOG_COLLECT_NPS_THRESHOLD || new > MAX_L4_LOG_COLLECT_NPS_THRESHOLD {
            return ;
        }
        if self.throttle == new * THROTTLE_BUCKET {
            return ;
        }
        self.throttle = new * THROTTLE_BUCKET;
    }

    /// Hands the sample over to `out` and leaves the throttle empty.
    pub fn flush(&mut self, out: &mut Vec<SendItem>)
        ensures
            final(out)@ == old(out)@ + old(self).stashs@,
            final(self).stashs@.len() == 0,
            final(self).throttle == old(self).throttle,
            final(self).last_flush_time == old(self).last_flush_time,
            final(self).period_count == old(self).period_count,
    {
        out.append(&mut self.stashs);
    }

    /// Starts a new bucket where `now` lies in another bucket than the last
    /// rollover: takes the rate `rate` of the configuration, hands the sample
    /// over to `out`, and counts from zero.
    pub fn roll_over(&mut self, now: u64, rate: u64, out: &mut Vec<SendItem>) -> (rolled: bool)
        requires
            old(self).wf(),
        ensures
            rolled == (now / THROTTLE_BUCKET != old(self).last_flush_time / THROTTLE_BUCKET),
            final(self).wf(),
            rolled ==> {
                &&& final(out)@ == old(out)@ + old(self).stashs@
                &&& final(self).stashs@.len() == 0
                &&& final(self).throttle == throttle_after(old(self).throttle, rate)
                &&& final(self).last_flush_time == now
                &&& final(self).period_count == 0
            },
            !rolled ==> {
                &&& final(out)@ == old(out)@
                &&& final(self).stashs == old(self).stashs
                &&& final(self).throttle == old(self).throttle
                &&& final(self).last_flush_time == old(self).last_flush_time
                &&& final(self).period_count == old(self).period_count
            },
    {
        if now / THROTTLE_BUCKET != self.last_flush_time / THROTTLE_BUCKET {
            self.update_throttle(rate);
            self.flush(out);
            self.last_flush_time = now;
            self.period_count = 0;
            true
        } else {
            false
        }
    }

    /// Offers `item` to the sample, with `pick` drawn at random among the
    /// records that the bucket was offered, `item` included. While the sample
    /// is not full, the item is added. Else the item takes the place `pick`
    /// where that is a place of the sample, and is dropped where it is not; and
    /// since one record has then left the sample or never entered it, the
    /// result is `false`.
    pub fn place(&mut self, item: SendItem, pick: usize) -> (kept: bool)
        requires
            old(self).wf(),
            old(self).period_count < usize::MAX,
            pick <= old(self).period_count,
        ensures
            final(self).wf(),
            final(self).period_count == old(self).period_count + 1,
            final(self).throttle == old(self).throttle,
            final(self).last_flush_time == old(self).last_flush_time,
            kept == (old(self).stashs@.len() < old(self).throttle),
            final(self).stashs@ == if kept {
                old(self).stashs@.push(item)
            } else if pick < old(self).throttle {
                old(self).stashs@.update(pick as int, item)
            } else {
                old(self).stashs@
            },
    {
        self.period_count = self.period_count + 1;
        if (self.stashs.len() as u64) < self.throttle {
            self.stashs.push(item);
            true
        } else {
            if (pick as u64) < self.throttle {
                self.stashs.set(pick, item);
            }
            false
        }
    }

    /// Sends the flow `f` at the time `now`, in seconds, under the rate `rate`
    /// of the configuration. A bucket that has ended is handed over to `out`
    /// first. The result says whether the sample grew: `false` says that a
    /// record was dropped, this one or one before it.
    pub fn send(&mut self, f: TaggedFlow, now: u64, rate: u64, out: &mut Vec<SendItem>) -> (kept:
        bool)
        requires
            old(self).wf(),
        ensures
            final(self).wf(),
            old(self).offered(
                seq![SendItem::L4FlowLog(f)],
                now,
                rate,
                *final(self),
                old(out)@,
                final(out)@,
            ),
            kept == (old(self).drops(1, now, rate) == 0),
            ({
                let rolled = now / THROTTLE_BUCKET != old(self).last_flush_time / THROTTLE_BUCKET;
                let held = if rolled {
                    Seq::<SendItem>::empty()
                } else {
                    old(self).stashs@
                };
                let item = SendItem::L4FlowLog(f);
                let after = final(self).stashs@;
                &&& final(out)@ == if rolled {
                    old(out)@ + old(self).stashs@
                } else {
                    old(out)@
                }
                &&& final(self).throttle == if rolled {
                    throttle_after(old(self).throttle, rate)
                } else {
                    old(self).throttle
                }
                &&& final(self).last_flush_time == if rolled {
                    now
                } else {
                    old(self).last_flush_time
                }
                &&& kept == (held.len() < final(self).throttle)
                &&& kept ==> final(self).stashs@ == held.push(item)
                &&& !kept ==> replaced_at_most_one(after, held, item)
            }),
    {
        let rolled = self.roll_over(now, rate, out);
        let ghost held = if now / THROTTLE_BUCKET != old(self).last_flush_time / THROTTLE_BUCKET {
            Seq::<SendItem>::empty()
        } else {
            old(self).stashs@
        };
        assert(self.stashs@ =~= held);
        let ghost item = SendItem::L4FlowLog(f);
        assert(seq![item][0] == item);
        if self.period_count == usize::MAX {
            return false;
        }
        let pick = if (self.stashs.len() as u64) < self.throttle {
            0
        } else {
            random_below(&mut self.small_rng, self.period_count + 1)
        };
        let kept = self.place(SendItem::L4FlowLog(f), pick);
        proof {
            if !kept {
                let item = SendItem::L4FlowLog(f);
                if (pick as u64) < self.throttle {
                    assert(0 <= pick < held.len());
                    assert(self.stashs@ == held.update(pick as int, item));
                } else {
                    assert(self.stashs@ == held);
                }
                assert(replaced_at_most_one(self.stashs@, held, item));
            }
        }
        kept
    }
}

/// What the aggregator counts.
#[derive(Clone, Copy, Debug, PartialEq, Eq, Structural)]
pub struct FlowAggrCounter {
    pub drop_before_window: u64,
    pub out: u64,
    pub drop_in_throttle: u64,
}

/// The flows of one minute, by their identifiers, and the identifiers in the
/// order in which they came.
pub struct Slot {
    pub flows: HashMap<u64, TaggedFlow>,
    pub order: Vec<u64>,
}

/// The flows of `flows` in the order in which `order` names them, each once;
/// a flow that `order` does not name is left out.
pub open spec fn drained(flows: Map<u64, TaggedFlow>, order: Seq<u64>) -> Seq<TaggedFlow>
    decreases order.len(),
{
    if order.len() == 0 {
        seq![]
    } else if flows.contains_key(order[0]) {
        seq![flows[order[0]]] + drained(
            flows.remove(order[0]),
            order.subrange(1, order.len() as int),
        )
    } else {
        drained(flows, order.subrange(1, order.len() as int))
    }
}

impl Slot {
    /// Whether the slot is in order: each flow is a snapshot, stands under its
    /// own identifier, and is among the identifiers that came.
    pub open spec fn wf(self) -> bool {
        forall|id: u64| #[trigger]
            self.flows@.contains_key(id) ==> self.flows@[id].flow.flow_id == id
                && self.flows@[id].flow.close_type == CloseType::ForcedReport
                && self.order@.contains(id)
    }

    pub fn new() -> (r: Slot)
        ensures
            r.wf(),
            r.flows@ == Map::<u64, TaggedFlow>::empty(),
            r.order@ == Seq::<u64>::empty(),
    {
        Slot { flows: HashMap::new(), order: Vec::new() }
    }

    /// Takes the flow `id` out of the slot, if it is there.
    pub fn take(&mut self, id: u64) -> (r: Option<TaggedFlow>)
        requires
            old(self).wf(),
        ensures
            final(self).wf(),
            final(self).order == old(self).order,
            final(self).flows@ == old(self).flows@.remove(id),
            r == if old(self).flows@.contains_key(id) {
                Some(old(self).flows@[id])
            } else {
                None
            },
    {
        broadcast use vstd::std_specs::hash::group_hash_axioms;

        self.flows.remove(&id)
    }

    /// Puts the snapshot `f` into the slot under its identifier.
    pub fn put(&mut self, f: TaggedFlow)
        requires
            old(self).wf(),
            f.flow.close_type == CloseType::ForcedReport,
        ensures
            final(self).wf(),
            final(self).flows@ == old(self).flows@.insert(f.flow.flow_id, f),
            final(self).order@ == if old(self).flows@.contains_key(f.flow.flow_id) {
                old(self).order@
            } else {
                old(self).order@.push(f.flow.flow_id)
            },
    {
        broadcast use vstd::std_specs::hash::group_hash_axioms;

        let id = f.flow.flow_id;
        let known = self.flows.contains_key(&id);
        self.flows.insert(id, f);
        if !known {
            self.order.push(id);
            proof {
                let before = old(self).order@;
                assert(self.order@[before.len() as int] == id);
                assert forall|other: u64| #[trigger]
                    self.flows@.contains_key(other) implies self.order@.contains(other) by {
                    if other != id {
                        assert(before.contains(other));
                        let k = choose|k: int| 0 <= k < before.len() && before[k] == other;
                        assert(self.order@[k] == other);
                    }
                }
            }
        }
    }

    /// Puts the snapshot `f` back into the slot from which its flow was taken.
    pub fn put_back(&mut self, f: TaggedFlow)
        requires
            old(self).wf(),
            f.flow.close_type == CloseType::ForcedReport,
            old(self).order@.contains(f.flow.flow_id),
        ensures
            final(self).wf(),
            final(self).flows@ == old(self).flows@.insert(f.flow.flow_id, f),
            final(self).order == old(self).order,
    {
        broadcast use vstd::std_specs::hash::group_hash_axioms;

        self.flows.insert(f.flow.flow_id, f);
    }

    /// Takes every flow out of the slot, in the order in which they came.
    pub fn drain(&mut self) -> (r: Vec<TaggedFlow>)
        ensures
            final(self).wf(),
            final(self).flows@ == Map::<u64, TaggedFlow>::empty(),
            final(self).order@ == Seq::<u64>::empty(),
            r@ == drained(old(self).flows@, old(self).order@),
    {
        broadcast use vstd::std_specs::hash::group_hash_axioms;

        let mut out: Vec<TaggedFlow> = Vec::new();
        let mut i: usize = 0;
        let n = self.order.len();
        assert(self.order@.subrange(0, n as int) =~= self.order@);
        assert(out@ + drained(self.flows@, self.order@) =~= drained(self.flows@, self.order@));
        while i < n
            invariant
                i <= n,
                n == self.order@.len(),
                self.order == old(self).order,
                drained(old(self).flows@, old(self).order@) == out@ + drained(
                    self.flows@,
                    self.order@.subrange(i as int, n as int),
                ),
            decreases n - i,
        {
            let id = self.order[i];
            let ghost rest = self.order@.subrange(i as int, n as int);
            let ghost before = out@;
            let ghost flows_before = self.flows@;
            assert(rest[0] == id);
            assert(rest.subrange(1, rest.len() as int) =~= self.order@.subrange(i + 1, n as int));
            match self.flows.remove(&id) {
                Some(f) => {
                    out.push(f);
                    assert(before + (seq![f] + drained(
                        flows_before.remove(id),
                        self.order@.subrange(i + 1, n as int),
                    )) =~= out@ + drained(self.flows@, self.order@.subrange(i + 1, n as int)));
                },
                None => {
                    assert(self.flows@ =~= flows_before);
                },
            }
            i += 1;
        }
        assert(self.order@.subrange(n as int, n as int).len() == 0);
        assert(out@ + Seq::<TaggedFlow>::empty() =~= out@);
        self.flows.clear();
        self.order.clear();
        assert(self.order@ =~= Seq::<u64>::empty());
        out
    }
}

/// The aggregator. Times are in nanoseconds but for `last_flush_time`, which
/// is in seconds.
pub struct FlowAggr {
    pub output: ThrottlingQueue,
    /// The start of the minute of the front slot.
    pub slot_start_time: u64,
    /// The slots of the minutes that are open: at the front the slot of the
    /// current minute, behind it the slot of the next.
    pub stashs: VecDeque<Slot>,
    pub last_flush_time: u64,
    pub counter: FlowAggrCounter,
}

/// The sum of a counter and a number, held at the greatest 64-bit number.
pub open spec fn counted(a: u64, n: int) -> u64 {
    if a + n > u64::MAX {
        u64::MAX
    } else {
        (a + n) as u64
    }
}

/// What the aggregator holds of flows.
pub struct Slots {
    pub front: Map<u64, TaggedFlow>,
    pub front_order: Seq<u64>,
    pub back: Map<u64, TaggedFlow>,
    pub back_order: Seq<u64>,
    pub slot_start_time: u64,
    pub drop_before_window: u64,
}

/// The stored flow `g` with the later snapshot `f` of the same flow merged
/// into it. Where the two are seen from different sides, the stored flow and
/// its performance data are turned round first.
pub open spec fn snapshot_merged(g: TaggedFlow, f: TaggedFlow) -> TaggedFlow {
    let turned = if g.flow.reversed != f.flow.reversed {
        Flow {
            flow_perf_stats: match g.flow.flow_perf_stats {
                Some(stats) => Some(stats.reversed()),
                None => None,
            },
            ..g.flow.spec_reversed(false)
        }
    } else {
        g.flow
    };
    TaggedFlow { flow: turned.merged(f.flow) }
}

/// The slots after `count` minutes have passed, and the flows that leave: a
/// minute that passes takes the front slot with it and makes the back slot the
/// front.
pub open spec fn slots_flushed(s: Slots, count: int) -> (Slots, Seq<TaggedFlow>) {
    let start = counted(s.slot_start_time, count * NANOS_PER_MINUTE);
    if count <= 0 {
        (s, seq![])
    } else if count == 1 {
        (
            Slots {
                front: s.back,
                front_order: s.back_order,
                back: Map::empty(),
                back_order: seq![],
                slot_start_time: start,
                ..s
            },
            drained(s.front, s.front_order),
        )
    } else {
        (
            Slots {
                front: Map::empty(),
                front_order: seq![],
                back: Map::empty(),
                back_order: seq![],
                slot_start_time: start,
                ..s
            },
            drained(s.front, s.front_order) + drained(s.back, s.back_order),
        )
    }
}

/// One slot after the flow `f` has come to it, and the flow that leaves, if
/// one does. A flow that the slot holds is merged with `f`, and leaves unless
/// the result is a snapshot. A flow that the slot does not hold stays if it is
/// a snapshot, and else passes through.
pub open spec fn slot_merged(flows: Map<u64, TaggedFlow>, order: Seq<u64>, f: TaggedFlow) -> (
    Map<u64, TaggedFlow>,
    Seq<u64>,
    Seq<TaggedFlow>,
) {
    let id = f.flow.flow_id;
    if flows.contains_key(id) {
        let m = snapshot_merged(flows[id], f);
        if m.flow.close_type != CloseType::ForcedReport {
            (flows.remove(id), order, seq![m])
        } else {
            (flows.insert(id, m), order, seq![])
        }
    } else if f.flow.close_type != CloseType::ForcedReport {
        (flows, order, seq![f])
    } else {
        (flows.insert(id, f), order.push(id), seq![])
    }
}

/// The slots after the flow `f` has come, and the flows that leave, in the
/// order in which they leave.
///
/// A flow with statistics before the front slot is dropped and counted. A
/// flow with statistics beyond the back slot makes as many minutes pass as
/// bring it into the back slot. Then the flow comes to its slot; and where
/// that is the back slot, what the front slot holds of the same flow leaves,
/// since its minute is complete.
pub open spec fn slots_merged(s: Slots, f: TaggedFlow) -> (Slots, Seq<TaggedFlow>) {
    let t = f.flow.flow_stat_time;
    if t < s.slot_start_time {
        (Slots { drop_before_window: counted(s.drop_before_window, 1), ..s }, seq![])
    } else {
        let slot = (t - s.slot_start_time) / (NANOS_PER_MINUTE as int);
        let (moved, flushed) = if slot >= 2 {
            slots_flushed(s, slot - 1)
        } else {
            (s, seq![])
        };
        let id = f.flow.flow_id;
        if slot == 0 {
            let (front, order, out) = slot_merged(moved.front, moved.front_order, f);
            (Slots { front: front, front_order: order, ..moved }, flushed + out)
        } else {
            let (back, order, out) = slot_merged(moved.back, moved.back_order, f);
            (
                Slots {
                    back: back,
                    back_order: order,
                    front: moved.front.remove(id),
                    ..moved
                },
                flushed + out + if moved.front.contains_key(id) {
                    seq![moved.front[id]]
                } else {
                    seq![]
                },
            )
        }
    }
}

/// Whether the flow `f` makes minutes pass when it comes: its statistics lie
/// beyond the back slot.
pub open spec fn minutes_pass(s: Slots, f: TaggedFlow) -> bool {
    f.flow.flow_stat_time >= s.slot_start_time && (f.flow.flow_stat_time - s.slot_start_time) / (
    NANOS_PER_MINUTE as int) >= 2
}

/// The flows `flows` as they go to the throttle: each with its times fixed
/// up, in their order.
pub open spec fn emitted(flows: Seq<TaggedFlow>) -> Seq<SendItem> {
    Seq::new(
        flows.len(),
        |i: int| SendItem::L4FlowLog(TaggedFlow { flow: fixed_up(flows[i].flow) }),
    )
}

/// Sending one more record after the records `items`: what holds of the
/// records and of the one more holds of them all, and the one more is
/// dropped exactly where the count of the records that meet a full sample
/// grows.
pub proof fn lemma_offered_more(
    q0: ThrottlingQueue,
    items: Seq<SendItem>,
    item: SendItem,
    now: u64,
    rate: u64,
    q1: ThrottlingQueue,
    q2: ThrottlingQueue,
    out0: Seq<SendItem>,
    out1: Seq<SendItem>,
    out2: Seq<SendItem>,
)
    requires
        q0.wf(),
        q0.offered(items, now, rate, q1, out0, out1),
        q1.offered(seq![item], now, rate, q2, out1, out2),
    ensures
        q0.offered(items.push(item), now, rate, q2, out0, out2),
        q0.drops((items.len() + 1) as int, now, rate) == q0.drops(items.len() as int, now, rate) + q1.drops(
            1,
            now,
            rate,
        ),
        0 <= q1.drops(1, now, rate) <= 1,
        0 <= q0.drops(items.len() as int, now, rate),
{
    let all = items.push(item);
    assert(seq![item][0] == item);
    assert(all[items.len() as int] == item);
    if items.len() == 0 {
        assert(all =~= seq![item]);
    } else {
        let held = if q0.rolls(now) {
            Seq::<SendItem>::empty()
        } else {
            q0.stashs@
        };
        assert(!q1.rolls(now));
        assert forall|k: int| 0 <= k < q2.stashs@.len() implies (k < held.len()
            && #[trigger] q2.stashs@[k] == held[k]) || exists|i: int|
            0 <= i < all.len() && q2.stashs@[k] == all[i] by {
            if k < q1.stashs@.len() && q2.stashs@[k] == q1.stashs@[k] {
                if k < held.len() && q1.stashs@[k] == held[k] {
                } else {
                    let i = choose|i: int| 0 <= i < items.len() && q1.stashs@[k] == items[i];
                    assert(all[i] == items[i]);
                }
            } else {
                assert(q2.stashs@[k] == all[items.len() as int]);
            }
        }
    }
}

/// Whether the record of a flow of capture type `tap_type` is kept, by the
/// table `store` of the capture types whose records are kept: the entry of
/// the type says so, and the entry of `Any` says so for every type.
pub open spec fn stores(store: Seq<bool>, tap_type: TapType) -> bool {
    (store.len() > 0 && store[0]) || (tap_type.spec_code() < store.len()
        && store[tap_type.spec_code() as int])
}

pub fn stores_tap_type(store: &[bool], tap_type: TapType) -> (r: bool)
    ensures
        r == stores(store@, tap_type),
{
    let code = tap_type.code() as usize;
    (store.len() > 0 && store[0]) || (code < store.len() && store[code])
}

impl FlowAggr {
    /// Whether the aggregator is in order.
    pub open spec fn wf(self) -> bool {
        &&& self.output.wf()
        &&& self.stashs@.len() == MINUTE_SLOTS
        &&& self.stashs@[0].wf()
        &&& self.stashs@[1].wf()
    }

    /// What the aggregator holds of flows.
    pub open spec fn slots(self) -> Slots {
        Slots {
            front: self.stashs@[0].flows@,
            front_order: self.stashs@[0].order@,
            back: self.stashs@[1].flows@,
            back_order: self.stashs@[1].order@,
            slot_start_time: self.slot_start_time,
            drop_before_window: self.counter.drop_before_window,
        }
    }

    /// Whether `after` and `out_after` are the aggregator and the output
    /// after the flows `leaving` were emitted at the time `now`, in seconds,
    /// under the rate `rate`: each flow went to the throttle with its times
    /// fixed up, each was counted, and those that met a full sample were
    /// counted as dropped.
    pub open spec fn emitted_all(
        self,
        leaving: Seq<TaggedFlow>,
        now: u64,
        rate: u64,
        after: FlowAggr,
        out_before: Seq<SendItem>,
        out_after: Seq<SendItem>,
    ) -> bool {
        &&& self.output.offered(emitted(leaving), now, rate, after.output, out_before, out_after)
        &&& after.counter.out == counted(self.counter.out, leaving.len() as int)
        &&& after.counter.drop_in_throttle == counted(
            self.counter.drop_in_throttle,
            self.output.drops(leaving.len() as int, now, rate),
        )
    }

    /// An aggregator whose front slot is the minute before the minute of
    /// `now`, a time in nanoseconds, with `output` as its throttle.
    pub fn new(output: ThrottlingQueue, now: u64) -> (r: FlowAggr)
        requires
            output.wf(),
        ensures
            r.wf(),
            r.output == output,
            r.slots() == (Slots {
                front: Map::empty(),
                front_order: seq![],
                back: Map::empty(),
                back_order: seq![],
                slot_start_time: if now >= NANOS_PER_MINUTE {
                    minute_start((now - NANOS_PER_MINUTE) as u64)
                } else {
                    0
                },
                drop_before_window: 0,
            }),
            r.last_flush_time == 0,
            r.counter == (FlowAggrCounter { drop_before_window: 0, out: 0, drop_in_throttle: 0 }),
    {
        let mut stashs: VecDeque<Slot> = VecDeque::new();
        stashs.push_front(Slot::new());
        stashs.push_front(Slot::new());
        FlowAggr {
            output,
            slot_start_time: if now >= NANOS_PER_MINUTE {
                round_to_minute(now - NANOS_PER_MINUTE)
            } else {
                0
            },
            stashs,
            last_flush_time: 0,
            counter: FlowAggrCounter { drop_before_window: 0, out: 0, drop_in_throttle: 0 },
        }
    }

    /// Lets one minute pass: takes the flows of the front slot out and makes
    /// the back slot the front.
    fn rotate(&mut self, now: u64) -> (r: Vec<TaggedFlow>)
        requires
            old(self).wf(),
        ensures
            final(self).wf(),
            (final(self).slots(), r@) == slots_flushed(old(self).slots(), 1),
            final(self).output == old(self).output,
            final(self).last_flush_time == now,
            final(self).counter == old(self).counter,
    {
        let mut slot = match self.stashs.pop_front() {
            Some(slot) => slot,
            None => vstd::pervasive::unreached(),
        };
        let out = slot.drain();
        self.stashs.push_back(slot);
        self.slot_start_time = self.slot_start_time.saturating_add(NANOS_PER_MINUTE);
        self.last_flush_time = now;
        out
    }

    /// Lets `slot_count` minutes pass at the time `now`, in seconds, and
    /// returns the flows that leave the slots. Where a minute passes, the
    /// time of the last flush is `now`.
    pub fn flush_slots(&mut self, slot_count: u64, now: u64) -> (r: Vec<TaggedFlow>)
        requires
            old(self).wf(),
        ensures
            final(self).wf(),
            (final(self).slots(), r@) == slots_flushed(old(self).slots(), slot_count as int),
            final(self).output == old(self).output,
            final(self).last_flush_time == if slot_count > 0 {
                now
            } else {
                old(self).last_flush_time
            },
            final(self).counter == old(self).counter,
    {
        if slot_count == 0 {
            return Vec::new();
        }
        let mut out = self.rotate(now);
        if slot_count == 1 {
            return out;
        }
        let mut second = self.rotate(now);
        let ghost first = out@;
        out.append(&mut second);
        assert(drained(Map::<u64, TaggedFlow>::empty(), Seq::<u64>::empty()) =~= seq![]);
        if slot_count > MINUTE_SLOTS {
            let minutes = slot_count - MINUTE_SLOTS;
            let more = if minutes > u64::MAX / NANOS_PER_MINUTE {
                u64::MAX
            } else {
                minutes * NANOS_PER_MINUTE
            };
            self.slot_start_time = self.slot_start_time.saturating_add(more);
        }
        proof {
            let start = old(self).slot_start_time as int;
            assert(slot_count * NANOS_PER_MINUTE == 2 * NANOS_PER_MINUTE + (slot_count - 2)
                * NANOS_PER_MINUTE) by (nonlinear_arith);
        }
        out
    }

    /// Brings the flow `f` to its slot at the time `now`, in seconds, and
    /// returns the flows that leave the slots, in the order in which they
    /// leave. Where the flow makes minutes pass, the time of the last flush is
    /// `now`.
    pub fn merge_slots(&mut self, f: &TaggedFlow, now: u64) -> (r: Vec<TaggedFlow>)
        requires
            old(self).wf(),
        ensures
            final(self).wf(),
            (final(self).slots(), r@) == slots_merged(old(self).slots(), *f),
            final(self).output == old(self).output,
            final(self).last_flush_time == if minutes_pass(old(self).slots(), *f) {
                now
            } else {
                old(self).last_flush_time
            },
            final(self).counter.out == old(self).counter.out,
            final(self).counter.drop_in_throttle == old(self).counter.drop_in_throttle,
    {
        let flow_time = f.flow.flow_stat_time;
        if flow_time < self.slot_start_time {
            self.counter.drop_before_window = self.counter.drop_before_window.saturating_add(1);
            return Vec::new();
        }
        let slot = (flow_time - self.slot_start_time) / NANOS_PER_MINUTE;
        let mut out = if slot >= MINUTE_SLOTS {
            self.flush_slots(slot - MINUTE_SLOTS + 1, now)
        } else {
            Vec::new()
        };
        let ghost flushed = out@;
        let ghost moved = self.slots();
        let id = f.flow.flow_id;
        if slot == 0 {
            let mut front = match self.stashs.pop_front() {
                Some(slot) => slot,
                None => vstd::pervasive::unreached(),
            };
            let leaving = FlowAggr::merge_slot(&mut front, f);
            self.stashs.push_front(front);
            match leaving {
                Some(g) => {
                    out.push(g);
                },
                None => {
                    assert(flushed + Seq::<TaggedFlow>::empty() =~= flushed);
                },
            }
        } else {
            let mut back = match self.stashs.pop_back() {
                Some(slot) => slot,
                None => vstd::pervasive::unreached(),
            };
            let leaving = FlowAggr::merge_slot(&mut back, f);
            self.stashs.push_back(back);
            match leaving {
                Some(g) => {
                    out.push(g);
                },
                None => {},
            }
            let mut front = match self.stashs.pop_front() {
                Some(slot) => slot,
                None => vstd::pervasive::unreached(),
            };
            let before = front.take(id);
            self.stashs.push_front(front);
            match before {
                Some(g) => {
                    out.push(g);
                },
                None => {
                    assert(self.stashs@[0].flows@ =~= moved.front);
                },
            }
            assert(out@ =~= flushed + slot_merged(moved.back, moved.back_order, *f).2
                + if moved.front.contains_key(id) {
                seq![moved.front[id]]
            } else {
                seq![]
            });
        }
        out
    }

    /// Brings the flow `f` to the slot `slot`, and returns the flow that
    /// leaves, if one does.
    fn merge_slot(slot: &mut Slot, f: &TaggedFlow) -> (r: Option<TaggedFlow>)
        requires
            old(slot).wf(),
        ensures
            final(slot).wf(),
            ({
                let (flows, order, out) = slot_merged(old(slot).flows@, old(slot).order@, *f);
                &&& final(slot).flows@ == flows
                &&& final(slot).order@ == order
                &&& out == match r {
                    Some(g) => seq![g],
                    None => seq![],
                }
            }),
    {
        let id = f.flow.flow_id;
        match slot.take(id) {
            Some(g) => {
                let mut flow = g.flow;
                if flow.reversed != f.flow.reversed {
                    flow.reverse(false);
                    match flow.flow_perf_stats {
                        Some(stats) => {
                            let mut stats = stats;
                            stats.reverse();
                            flow = Flow { flow_perf_stats: Some(stats), ..flow };
                        },
                        None => {},
                    }
                }
                flow.sequential_merge(&f.flow);
                let m = TaggedFlow { flow };
                assert(m == snapshot_merged(g, *f));
                if !flow.close_type_is_forced_report() {
                    Some(m)
                } else {
                    assert(old(slot).order@.contains(id));
                    assert(m.flow.flow_id == id);
                    slot.put_back(m);
                    assert(slot.flows@ =~= old(slot).flows@.insert(id, m));
                    None
                }
            },
            None => {
                assert(slot.flows@ =~= old(slot).flows@);
                if !f.flow.close_type_is_forced_report() {
                    Some(*f)
                } else {
                    slot.put(*f);
                    None
                }
            },
        }
    }

    /// Emits the flow `f`: fixes its times up, counts it, and sends it through
    /// the throttle. `now` is the time in seconds and `rate` the rate of the
    /// configuration; what the throttle hands over goes to `out`.
    pub fn send_flow(&mut self, f: TaggedFlow, now: u64, rate: u64, out: &mut Vec<SendItem>) -> (kept:
        bool)
        requires
            old(self).wf(),
        ensures
            final(self).wf(),
            final(self).stashs == old(self).stashs,
            final(self).slot_start_time == old(self).slot_start_time,
            final(self).last_flush_time == old(self).last_flush_time,
            final(self).counter == (FlowAggrCounter {
                out: counted(old(self).counter.out, 1),
                drop_in_throttle: if kept {
                    old(self).counter.drop_in_throttle
                } else {
                    counted(old(self).counter.drop_in_throttle, 1)
                },
                ..old(self).counter
            }),
            old(self).output.offered(
                seq![SendItem::L4FlowLog(TaggedFlow { flow: fixed_up(f.flow) })],
                now,
                rate,
                final(self).output,
                old(out)@,
                final(out)@,
            ),
            kept == (old(self).output.drops(1, now, rate) == 0),
            ({
                let rolled = now / THROTTLE_BUCKET != old(self).output.last_flush_time
                    / THROTTLE_BUCKET;
                let held = if rolled {
                    Seq::<SendItem>::empty()
                } else {
                    old(self).output.stashs@
                };
                let item = SendItem::L4FlowLog(TaggedFlow { flow: fixed_up(f.flow) });
                let after = final(self).output.stashs@;
                &&& final(out)@ == if rolled {
                    old(out)@ + old(self).output.stashs@
                } else {
                    old(out)@
                }
                &&& kept == (held.len() < final(self).output.throttle)
                &&& kept ==> after == held.push(item)
                &&& !kept ==> replaced_at_most_one(after, held, item)
            }),
    {
        let flow = f.flow;
        let start_time = if flow.is_new_flow {
            flow.start_time
        } else {
            round_to_minute(flow.flow_stat_time)
        };
        let end_time = if flow.close_type_is_forced_report() {
            round_to_minute(flow.flow_stat_time.saturating_add(NANOS_PER_MINUTE))
        } else {
            flow.end_time
        };
        let fixed = TaggedFlow { flow: Flow { start_time, end_time, ..flow } };
        self.counter.out = self.counter.out.saturating_add(1);
        let kept = self.output.send(fixed, now, rate, out);
        if !kept {
            self.counter.drop_in_throttle = self.counter.drop_in_throttle.saturating_add(1);
        }
        kept
    }

    /// Emits the flows `flows` one after the other.
    pub fn send_flows(
        &mut self,
        flows: &Vec<TaggedFlow>,
        now: u64,
        rate: u64,
        out: &mut Vec<SendItem>,
    )
        requires
            old(self).wf(),
        ensures
            final(self).wf(),
            final(self).stashs == old(self).stashs,
            final(self).slot_start_time == old(self).slot_start_time,
            final(self).last_flush_time == old(self).last_flush_time,
            final(self).counter.drop_before_window == old(self).counter.drop_before_window,
            old(self).emitted_all(flows@, now, rate, *final(self), old(out)@, final(out)@),
    {
        let mut i: usize = 0;
        assert(emitted(flows@.subrange(0, 0)) =~= seq![]);
        while i < flows.len()
            invariant
                i <= flows@.len(),
                old(self).wf(),
                self.wf(),
                self.stashs == old(self).stashs,
                self.slot_start_time == old(self).slot_start_time,
                self.last_flush_time == old(self).last_flush_time,
                self.counter.drop_before_window == old(self).counter.drop_before_window,
                old(self).emitted_all(
                    flows@.subrange(0, i as int),
                    now,
                    rate,
                    *self,
                    old(out)@,
                    out@,
                ),
            decreases flows@.len() - i,
        {
            let ghost before = *self;
            let ghost out_before = out@;
            let ghost sent = emitted(flows@.subrange(0, i as int));
            let ghost item = SendItem::L4FlowLog(TaggedFlow { flow: fixed_up(flows@[i as int].flow) });
            let kept = self.send_flow(flows[i], now, rate, out);
            proof {
                lemma_offered_more(
                    old(self).output,
                    sent,
                    item,
                    now,
                    rate,
                    before.output,
                    self.output,
                    old(out)@,
                    out_before,
                    out@,
                );
                assert(emitted(flows@.subrange(0, i + 1)) =~= sent.push(item));
            }
            i += 1;
        }
        assert(flows@.subrange(0, flows@.len() as int) =~= flows@);
    }

    /// Takes in the flow `f` at the time `now`, in seconds, under the rate
    /// `rate` of the configuration: brings it to its slot and emits what leaves
    /// the slots, in the order in which it leaves. What the throttle hands over
    /// goes to `out`. Where the flow makes minutes pass, the time of the last
    /// flush is `now`.
    pub fn merge(&mut self, f: &TaggedFlow, now: u64, rate: u64, out: &mut Vec<SendItem>)
        requires
            old(self).wf(),
        ensures
            final(self).wf(),
            final(self).slots() == slots_merged(old(self).slots(), *f).0,
            final(self).last_flush_time == if minutes_pass(old(self).slots(), *f) {
                now
            } else {
                old(self).last_flush_time
            },
            old(self).emitted_all(
                slots_merged(old(self).slots(), *f).1,
                now,
                rate,
                *final(self),
                old(out)@,
                final(out)@,
            ),
    {
        let leaving = self.merge_slots(f, now);
        self.send_flows(&leaving, now, rate, out);
    }

    /// Lets one minute pass at the time `now`, in seconds, and emits the flows
    /// of the front slot, in the order in which they came.
    pub fn flush_front_slot_and_rotate(&mut self, now: u64, rate: u64, out: &mut Vec<SendItem>)
        requires
            old(self).wf(),
        ensures
            final(self).wf(),
            final(self).slots() == slots_flushed(old(self).slots(), 1).0,
            final(self).last_flush_time == now,
            old(self).emitted_all(
                slots_flushed(old(self).slots(), 1).1,
                now,
                rate,
                *final(self),
                old(out)@,
                final(out)@,
            ),
    {
        let leaving = self.rotate(now);
        self.send_flows(&leaving, now, rate, out);
    }

    /// What the aggregator does when no flow has come for the time that its
    /// reader waits: once more than the flush timeout has passed since the last
    /// flush, it lets one minute pass and emits the flows of the front slot.
    /// Else it does nothing. The result says whether a minute passed.
    pub fn on_timeout(&mut self, now: u64, rate: u64, out: &mut Vec<SendItem>) -> (flushed: bool)
        requires
            old(self).wf(),
        ensures
            final(self).wf(),
            flushed == (now > old(self).last_flush_time + FLUSH_TIMEOUT),
            !flushed ==> *final(self) == *old(self) && final(out)@ == old(out)@,
            flushed ==> final(self).slots() == slots_flushed(old(self).slots(), 1).0
                && final(self).last_flush_time == now && old(self).emitted_all(
                slots_flushed(old(self).slots(), 1).1,
                now,
                rate,
                *final(self),
                old(out)@,
                final(out)@,
            ),
    {
        if now > self.last_flush_time.saturating_add(FLUSH_TIMEOUT) {
            self.flush_front_slot_and_rotate(now, rate, out);
            true
        } else {
            false
        }
    }

    /// Takes in a flow of the input queue if the table `store` keeps the
    /// records of its capture type, as `merge` does. Else it does nothing.
    pub fn on_flow(&mut self, f: &TaggedFlow, store: &[bool], now: u64, rate: u64, out: &mut Vec<
        SendItem,
    >) -> (taken: bool)
        requires
            old(self).wf(),
        ensures
            final(self).wf(),
            taken == stores(store@, f.flow.flow_key.tap_type),
            !taken ==> *final(self) == *old(self) && final(out)@ == old(out)@,
            taken ==> final(self).slots() == slots_merged(old(self).slots(), *f).0
                && final(self).last_flush_time == (if minutes_pass(old(self).slots(), *f) {
                now
            } else {
                old(self).last_flush_time
            }) && old(self).emitted_all(
                slots_merged(old(self).slots(), *f).1,
                now,
                rate,
                *final(self),
                old(out)@,
                final(out)@,
            ),
    {
        if stores_tap_type(store, f.flow.flow_key.tap_type) {
            self.merge(f, now, rate, out);
            true
        } else {
            false
        }
    }

    /// Reads the counters and sets them to zero.
    pub fn get_counters(&mut self) -> (r: FlowAggrCounter)
        ensures
            r == old(self).counter,
            final(self).counter == (FlowAggrCounter {
                drop_before_window: 0,
                out: 0,
                drop_in_throttle: 0,
            }),
            final(self).output == old(self).output,
            final(self).stashs == old(self).stashs,
            final(self).slot_start_time == old(self).slot_start_time,
            final(self).last_flush_time == old(self).last_flush_time,
    {
        let r = self.counter;
        self.counter = FlowAggrCounter { drop_before_window: 0, out: 0, drop_in_throttle: 0 };
        r
    }
}

/// Every flow that the slots hold is a snapshot and stands under its own
/// identifier, whatever flows come: a flow that has ended never stays.
pub proof fn lemma_slot_holds_snapshots(flows: Map<u64, TaggedFlow>, order: Seq<u64>, f: TaggedFlow)
    requires
        forall|id: u64| #[trigger]
            flows.contains_key(id) ==> flows[id].flow.flow_id == id && flows[id].flow.close_type
                == CloseType::ForcedReport,
    ensures
        ({
            let after = slot_merged(flows, order, f).0;
            forall|id: u64| #[trigger]
                after.contains_key(id) ==> after[id].flow.flow_id == id
                    && after[id].flow.close_type == CloseType::ForcedReport
        }),
{
}

/// No flow stands in both slots after a flow has come, if none did before,
/// but for one case: a snapshot for the front slot that comes when the back
/// slot already holds its flow and the front slot does not. That is data of
/// the minute before the data that the aggregator already has of the flow.
pub proof fn lemma_slots_stay_disjoint(s: Slots, f: TaggedFlow)
    requires
        forall|id: u64| !(s.front.contains_key(id) && s.back.contains_key(id)),
        !(f.flow.flow_stat_time >= s.slot_start_time && slot_of(
            f.flow.flow_stat_time,
            s.slot_start_time,
        ) == 0 && f.flow.close_type == CloseType::ForcedReport && s.back.contains_key(
            f.flow.flow_id,
        ) && !s.front.contains_key(f.flow.flow_id)),
    ensures
        ({
            let after = slots_merged(s, f).0;
            forall|id: u64| !(after.front.contains_key(id) && after.back.contains_key(id))
        }),
{
}

/// The slots hold nothing but snapshots that came: a flow that stands in a
/// slot after the flow `f` has come stood in a slot before, or is `f`, and
/// `f` then is a snapshot. With no flow in both slots, the slots together
/// hold no more flows than there are flows of which snapshots came and
/// which have not ended.
pub proof fn lemma_slots_hold_what_came(s: Slots, f: TaggedFlow)
    ensures
        ({
            let after = slots_merged(s, f).0;
            forall|id: u64|
                #![trigger after.front.contains_key(id)]
                #![trigger after.back.contains_key(id)]
                after.front.contains_key(id) || after.back.contains_key(id) ==> s.front.contains_key(
                    id,
                ) || s.back.contains_key(id) || (id == f.flow.flow_id && f.flow.close_type
                    == CloseType::ForcedReport)
        }),
{
}

/// The slot of a flow with statistics at `flow_time` when the front slot
/// starts at `start`: 0 for the minute of the front slot, 1 for the next.
pub open spec fn slot_of(flow_time: u64, start: u64) -> int {
    (flow_time - start) / (NANOS_PER_MINUTE as int)
}

} // verus!
