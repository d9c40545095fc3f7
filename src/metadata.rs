//! Cluster metadata as plain values, and the per-topic message counts
//! estimated from partition watermarks.
use vstd::prelude::*;

verus! {

/// One broker of the cluster.
pub struct BrokerMetadata {
    pub id: i32,
    pub host: String,
    pub port: i32,
}

/// One partition of a topic: its leader, replicas and in-sync replicas.
pub struct PartitionMetadata {
    pub id: i32,
    pub leader: i32,
    pub replicas: Vec<i32>,
    pub isr: Vec<i32>,
    pub error: Option<String>,
}

/// One topic and its partitions.
pub struct TopicMetadata {
    pub name: String,
    pub error: Option<String>,
    pub partitions: Vec<PartitionMetadata>,
}

/// What the cluster reported: its brokers and topics.
pub struct ClusterMetadata {
    pub brokers: Vec<BrokerMetadata>,
    pub topics: Vec<TopicMetadata>,
}

/// A topic's line of the report: its name, how many partitions it has, and,
/// when offsets were fetched, its estimated message count.
pub struct TopicReport {
    pub name: String,
    pub num_partitions: usize,
    pub message_count: Option<i64>,
}

/// The watermarks used for a partition: those fetched, or `(-1, -1)` when
/// the fetch failed.
pub open spec fn watermarks_or_default(w: Option<(i64, i64)>) -> (i64, i64) {
    match w {
        Some(lh) => lh,
        None => (-1i64, -1i64),
    }
}

/// `x`, held within the range of `i64`.
pub open spec fn clamp_i64(x: int) -> int {
    if x > i64::MAX {
        i64::MAX as int
    } else if x < i64::MIN {
        i64::MIN as int
    } else {
        x
    }
}

/// How many messages a partition holds: high watermark less low, held
/// within `i64`.
pub open spec fn partition_span(w: Option<(i64, i64)>) -> int {
    clamp_i64(watermarks_or_default(w).1 - watermarks_or_default(w).0)
}

/// The running total of partition spans, each addition held within `i64`.
pub open spec fn running_count(ws: Seq<Option<(i64, i64)>>) -> int
    decreases ws.len(),
{
    if ws.len() == 0 {
        0
    } else {
        clamp_i64(running_count(ws.drop_last()) + partition_span(ws.last()))
    }
}

/// `x`, held within the range of `i64`.
fn clamp(x: i128) -> (r: i64)
    ensures
        r == clamp_i64(x as int),
{
    if x > i64::MAX as i128 {
        i64::MAX
    } else if x < i64::MIN as i128 {
        i64::MIN
    } else {
        x as i64
    }
}

/// The estimated number of messages in one partition.
pub fn partition_message_count(w: Option<(i64, i64)>) -> (r: i64)
    ensures
        r == partition_span(w),
{
    let (low, high) = match w {
        Some(lh) => lh,
        None => (-1, -1),
    };
    clamp(high as i128 - low as i128)
}

/// The estimated number of messages in a topic: the sum, over its
/// partitions, of high watermark less low.
pub fn topic_message_count(watermarks: &Vec<Option<(i64, i64)>>) -> (r: i64)
    ensures
        r == running_count(watermarks@),
{
    let mut count: i64 = 0;
    let mut i: usize = 0;
    while i < watermarks.len()
        invariant
            i <= watermarks@.len(),
            count == running_count(watermarks@.take(i as int)),
        decreases watermarks@.len() - i,
    {
        let span = partition_message_count(watermarks[i]);
        proof {
            let next = watermarks@.take(i + 1);
            assert(next.drop_last() =~= watermarks@.take(i as int));
            assert(next.last() == watermarks@[i as int]);
        }
        count = clamp(count as i128 + span as i128);
        i = i + 1;
    }
    assert(watermarks@.take(i as int) =~= watermarks@);
    count
}

/// The watermarks given for topic `t`, none when the list stops short.
pub open spec fn topic_watermarks(
    watermarks: Seq<Vec<Option<(i64, i64)>>>,
    t: int,
) -> Seq<Option<(i64, i64)>> {
    if t < watermarks.len() {
        watermarks[t]@
    } else {
        Seq::empty()
    }
}

/// Whether `line` reports `topic`, the `t`-th topic of the cluster.
pub open spec fn reports_topic(
    line: TopicReport,
    topic: TopicMetadata,
    fetch_offsets: bool,
    watermarks: Seq<Vec<Option<(i64, i64)>>>,
    t: int,
) -> bool {
    &&& line.name@ == topic.name@
    &&& line.num_partitions == topic.partitions@.len()
    &&& line.message_count == if fetch_offsets {
        Some(running_count(topic_watermarks(watermarks, t)) as i64)
    } else {
        None::<i64>
    }
}

/// One line per topic, in the cluster's order. With `fetch_offsets`, each
/// line carries the topic's message count from `watermarks[t]`, the
/// watermarks fetched for topic `t`'s partitions; without, no count.
pub fn metadata_report(
    metadata: &ClusterMetadata,
    fetch_offsets: bool,
    watermarks: &Vec<Vec<Option<(i64, i64)>>>,
) -> (r: Vec<TopicReport>)
    ensures
        r@.len() == metadata.topics@.len(),
        forall|t: int|
            0 <= t < r@.len() ==> reports_topic(
                #[trigger] r@[t],
                metadata.topics@[t],
                fetch_offsets,
                watermarks@,
                t,
            ),
{
    let mut report: Vec<TopicReport> = Vec::new();
    let mut t: usize = 0;
    while t < metadata.topics.len()
        invariant
            t <= metadata.topics@.len(),
            report@.len() == t,
            forall|u: int|
                0 <= u < t ==> reports_topic(
                    #[trigger] report@[u],
                    metadata.topics@[u],
                    fetch_offsets,
                    watermarks@,
                    u,
                ),
        decreases metadata.topics@.len() - t,
    {
        let topic = &metadata.topics[t];
        let message_count = if fetch_offsets {
            if t < watermarks.len() {
                Some(topic_message_count(&watermarks[t]))
            } else {
                let none: Vec<Option<(i64, i64)>> = Vec::new();
                assert(none@ =~= topic_watermarks(watermarks@, t as int));
                Some(topic_message_count(&none))
            }
        } else {
            None
        };
        let ghost earlier = report@;
        report.push(
            TopicReport {
                name: topic.name.clone(),
                num_partitions: topic.partitions.len(),
                message_count,
            },
        );
        assert forall|u: int| 0 <= u < t implies #[trigger] report@[u] == earlier[u] by {}
        t = t + 1;
    }
    report
}

} // verus!
