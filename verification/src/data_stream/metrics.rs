//! The metrics of the data streams.

use vstd::prelude::*;
use vstd::string::*;

verus! {

/// The meter that the metrics belong to.
pub const METER: &'static str = "dna_data_stream";

/// A metric of a meter with its name, description and unit.
#[derive(Clone, Copy, Debug, PartialEq, Eq)]
pub struct Instrument {
    pub meter: &'static str,
    pub name: &'static str,
    pub description: &'static str,
    pub unit: Option<&'static str>,
}

/// A histogram with the upper bounds of its buckets: bytes for a size,
/// microseconds for a time.
#[derive(Debug, PartialEq, Eq)]
pub struct HistogramInstrument {
    pub instrument: Instrument,
    pub boundaries: Vec<u64>,
}

/// The metrics of a kind of request, with the upper bounds of the buckets of
/// its duration in microseconds.
#[derive(Debug, PartialEq, Eq)]
pub struct RequestInstrument {
    pub meter: &'static str,
    pub name: &'static str,
    pub boundaries: Vec<u64>,
}

/// The bounds of sizes, in bytes.
pub open spec fn size_bounds() -> Seq<u64> {
    seq![
        1_000u64,
        10_000,
        100_000,
        1_000_000,
        5_000_000,
        10_000_000,
        25_000_000,
        50_000_000,
        100_000_000,
        1_000_000_000,
    ]
}

/// The bounds of times, in microseconds: from half a millisecond to half a
/// minute.
pub open spec fn time_bounds() -> Seq<u64> {
    seq![
        500u64,
        1_000,
        5_000,
        10_000,
        50_000,
        100_000,
        250_000,
        500_000,
        750_000,
        1_000_000,
        5_000_000,
        10_000_000,
        30_000_000,
    ]
}

/// The bounds of sizes, in bytes.
pub fn size_boundaries() -> (r: Vec<u64>)
    ensures
        r@ == size_bounds(),
{
    let bounds: Vec<u64> = vec![
        1_000,
        10_000,
        100_000,
        1_000_000,
        5_000_000,
        10_000_000,
        25_000_000,
        50_000_000,
        100_000_000,
        1_000_000_000,
    ];
    assert(bounds@ =~= size_bounds());
    bounds
}

/// The bounds of times, in microseconds.
pub fn time_boundaries() -> (r: Vec<u64>)
    ensures
        r@ == time_bounds(),
{
    let bounds: Vec<u64> = vec![
        500,
        1_000,
        5_000,
        10_000,
        50_000,
        100_000,
        250_000,
        500_000,
        750_000,
        1_000_000,
        5_000_000,
        10_000_000,
        30_000_000,
    ];
    assert(bounds@ =~= time_bounds());
    bounds
}

/// The metrics of the data streams.
#[derive(Debug, PartialEq, Eq)]
pub struct DataStreamMetrics {
    /// Number of client-facing data streams returned by the RPC service.
    pub active: Instrument,
    /// Number of background workers serving data streams.
    pub worker_active: Instrument,
    pub block_size: HistogramInstrument,
    pub fragment_size: HistogramInstrument,
    pub time_in_queue: HistogramInstrument,
    pub block_download: RequestInstrument,
    pub segment_download: RequestInstrument,
    pub segment_wait: RequestInstrument,
    pub group_download: RequestInstrument,
    pub group_wait: RequestInstrument,
    pub group_cache_hit: Instrument,
}

impl Instrument {
    /// Whether this is a metric of the data streams with these texts.
    pub open spec fn reads(self, name: Seq<char>, description: Seq<char>, unit: Option<Seq<char>>)
        -> bool {
        &&& self.meter@ == METER@
        &&& self.name@ == name
        &&& self.description@ == description
        &&& (match self.unit {
            Some(text) => unit == Some(text@),
            None => unit is None,
        })
    }
}

impl RequestInstrument {
    /// Whether these are the metrics of a request of the data streams.
    pub open spec fn times(self, name: Seq<char>) -> bool {
        &&& self.meter@ == METER@
        &&& self.name@ == name
        &&& self.boundaries@ == time_bounds()
    }
}

/// The metrics of a request of the data streams.
fn request_metrics(name: &'static str) -> (r: RequestInstrument)
    ensures
        r.times(name@),
{
    RequestInstrument { meter: METER, name, boundaries: time_boundaries() }
}

impl Default for DataStreamMetrics {
    fn default() -> (r: Self)
        ensures
            r.active.reads(
                "dna.data_stream.active"@,
                "number of active client data streams"@,
                Some("{connection}"@),
            ),
            r.worker_active.reads(
                "dna.data_stream.worker_active"@,
                "number of active data stream workers"@,
                Some("{connection}"@),
            ),
            r.block_size.instrument.reads(
                "dna.data_stream.block_size"@,
                "size (in bytes) of blocks sent to the client"@,
                Some("By"@),
            ),
            r.block_size.boundaries@ == size_bounds(),
            r.fragment_size.instrument.reads(
                "dna.data_stream.fragment_size"@,
                "size (in bytes) of fragments sent to the client"@,
                Some("By"@),
            ),
            r.fragment_size.boundaries@ == size_bounds(),
            r.time_in_queue.instrument.reads(
                "dna.data_stream.time_in_queue"@,
                "time (in seconds) spent in the prefetch queue"@,
                Some("s"@),
            ),
            r.time_in_queue.boundaries@ == time_bounds(),
            r.block_download.times("dna.data_stream.block_download"@),
            r.segment_download.times("dna.data_stream.segment_download"@),
            r.segment_wait.times("dna.data_stream.segment_wait"@),
            r.group_download.times("dna.data_stream.group_download"@),
            r.group_wait.times("dna.data_stream.group_wait"@),
            r.group_cache_hit.reads(
                "dna.data_stream.group_cache_hit"@,
                "number of group cache hits"@,
                None,
            ),
    {
        DataStreamMetrics {
            active: Instrument {
                meter: METER,
                name: "dna.data_stream.active",
                description: "number of active client data streams",
                unit: Some("{connection}"),
            },
            worker_active: Instrument {
                meter: METER,
                name: "dna.data_stream.worker_active",
                description: "number of active data stream workers",
                unit: Some("{connection}"),
            },
            block_size: HistogramInstrument {
                instrument: Instrument {
                    meter: METER,
                    name: "dna.data_stream.block_size",
                    description: "size (in bytes) of blocks sent to the client",
                    unit: Some("By"),
                },
                boundaries: size_boundaries(),
            },
            fragment_size: HistogramInstrument {
                instrument: Instrument {
                    meter: METER,
                    name: "dna.data_stream.fragment_size",
                    description: "size (in bytes) of fragments sent to the client",
                    unit: Some("By"),
                },
                boundaries: size_boundaries(),
            },
            time_in_queue: HistogramInstrument {
                instrument: Instrument {
                    meter: METER,
                    name: "dna.data_stream.time_in_queue",
                    description: "time (in seconds) spent in the prefetch queue",
                    unit: Some("s"),
                },
                boundaries: time_boundaries(),
            },
            block_download: request_metrics("dna.data_stream.block_download"),
            segment_download: request_metrics("dna.data_stream.segment_download"),
            segment_wait: request_metrics("dna.data_stream.segment_wait"),
            group_download: request_metrics("dna.data_stream.group_download"),
            group_wait: request_metrics("dna.data_stream.group_wait"),
            group_cache_hit: Instrument {
                meter: METER,
                name: "dna.data_stream.group_cache_hit",
                description: "number of group cache hits",
                unit: None,
            },
        }
    }
}

/// Law: the bounds of a histogram rise strictly, so that every value falls into
/// exactly one bucket.
pub proof fn bounds_rise(i: int, j: int)
    ensures
        0 <= i < j < size_bounds().len() ==> size_bounds()[i] < size_bounds()[j],
        0 <= i < j < time_bounds().len() ==> time_bounds()[i] < time_bounds()[j],
{
}

/// What a new guard adds to its metric.
pub const GUARD_CREATED: i64 = 1;

/// What a guard that goes away adds to its metric.
pub const GUARD_RELEASED: i64 = -1;

/// Keeps a metric of active values balanced over the lifetime of the guarded
/// value.
#[derive(Debug, PartialEq, Eq)]
pub struct ActiveStreamGuard;

impl ActiveStreamGuard {
    /// A new guard, and what it adds to the metric.
    pub fn new() -> (r: (Self, i64))
        ensures
            r.1 == GUARD_CREATED,
    {
        (ActiveStreamGuard, GUARD_CREATED)
    }

    /// What is added to the metric when the guard goes away.
    pub fn released(self) -> (r: i64)
        ensures
            r == GUARD_RELEASED,
    {
        GUARD_RELEASED
    }
}

/// The value of a metric after guards were created (`true`) and released
/// (`false`).
pub open spec fn metric_value(history: Seq<bool>) -> int
    decreases history.len(),
{
    if history.len() == 0 {
        0
    } else {
        metric_value(history.drop_last()) + if history.last() {
            GUARD_CREATED as int
        } else {
            GUARD_RELEASED as int
        }
    }
}

/// How many guards of a history there were created, or released.
pub open spec fn guards(history: Seq<bool>, created: bool) -> nat
    decreases history.len(),
{
    if history.len() == 0 {
        0
    } else {
        guards(history.drop_last(), created) + if history.last() == created {
            1nat
        } else {
            0nat
        }
    }
}

/// Law: the metric counts the guards that are alive: those created and not yet
/// released. Once all are released it is back at zero.
pub proof fn metric_counts_live_guards(history: Seq<bool>)
    ensures
        metric_value(history) == guards(history, true) - guards(history, false),
    decreases history.len(),
{
    if history.len() > 0 {
        metric_counts_live_guards(history.drop_last());
    }
}

/// Law: a metric of the data streams belongs to their meter, and has the name,
/// the description and the unit that it is read by. A request is timed in buckets
/// from half a millisecond to half a minute, and a size is counted in buckets from
/// a kilobyte to a gigabyte.
pub proof fn metrics_are_what_they_are_read_by(
    metric: Instrument,
    request: RequestInstrument,
    name: Seq<char>,
    description: Seq<char>,
    unit: Option<Seq<char>>,
)
    ensures
        metric.reads(name, description, unit) ==> metric.meter@ == "dna_data_stream"@ && metric.name@
            == name && metric.description@ == description,
        metric.reads(name, description, unit) ==> (metric.unit is Some <==> unit is Some),
        metric.reads(name, description, unit) && unit is Some ==> metric.unit->0@ == unit->0,
        request.times(name) ==> request.meter@ == "dna_data_stream"@ && request.name@ == name,
        request.times(name) ==> request.boundaries@ == time_bounds(),
        time_bounds() == seq![
            500u64,
            1_000,
            5_000,
            10_000,
            50_000,
            100_000,
            250_000,
            500_000,
            750_000,
            1_000_000,
            5_000_000,
            10_000_000,
            30_000_000,
        ],
        size_bounds() == seq![
            1_000u64,
            10_000,
            100_000,
            1_000_000,
            5_000_000,
            10_000_000,
            25_000_000,
            50_000_000,
            100_000_000,
            1_000_000_000,
        ],
{
}

}
