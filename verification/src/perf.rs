//! Results of one benchmark run: the rows that hold them and the kinds of
//! metric that they carry.

use vstd::prelude::*;
use crate::lookup::{self, is_id_of, is_uuid_of, Keyed};
use crate::resource_id::{random_uuid, uuid_hyphenated, ApiError};

verus! {

/// The kinds of metric that a result may carry.
#[derive(Clone, Copy, Debug, PartialEq, Eq)]
pub enum JsonPerfKind {
    Latency,
    Throughput,
    Compute,
    Memory,
    Storage,
}

/// A latency in nanoseconds, with the spread that was measured around it.
#[derive(Clone, Copy, Debug, PartialEq, Eq)]
pub struct JsonLatency {
    pub lower_variance: u64,
    pub upper_variance: u64,
    pub duration: u64,
}

/// A number of events in a unit of time, with the spread that was measured
/// around it.
#[derive(Clone, Copy, Debug, PartialEq, Eq)]
pub struct JsonThroughput {
    pub lower_variance: i64,
    pub upper_variance: i64,
    pub events: i64,
    pub unit_time: u64,
}

/// Least, greatest and average use of a resource.
#[derive(Clone, Copy, Debug, PartialEq, Eq)]
pub struct JsonMinMaxAvg {
    pub min: i64,
    pub max: i64,
    pub avg: i64,
}

/// One metric of a result, by kind.
#[derive(Clone, Copy, Debug, PartialEq, Eq)]
pub enum JsonPerfDatumKind {
    Latency(JsonLatency),
    Throughput(JsonThroughput),
    Compute(JsonMinMaxAvg),
    Memory(JsonMinMaxAvg),
    Storage(JsonMinMaxAvg),
}

/// The table in which the metrics of a kind are kept.
#[derive(Clone, Copy, Debug, PartialEq, Eq)]
pub enum MetricsKind {
    Latency,
    Throughput,
    MinMaxAvg(MinMaxAvgKind),
}

/// The resources whose use is kept as least, greatest and average.
#[derive(Clone, Copy, Debug, PartialEq, Eq)]
pub enum MinMaxAvgKind {
    Compute,
    Memory,
    Storage,
}

/// The table in which the metrics of a kind are kept.
pub open spec fn spec_metrics_kind(kind: JsonPerfKind) -> MetricsKind {
    match kind {
        JsonPerfKind::Latency => MetricsKind::Latency,
        JsonPerfKind::Throughput => MetricsKind::Throughput,
        JsonPerfKind::Compute => MetricsKind::MinMaxAvg(MinMaxAvgKind::Compute),
        JsonPerfKind::Memory => MetricsKind::MinMaxAvg(MinMaxAvgKind::Memory),
        JsonPerfKind::Storage => MetricsKind::MinMaxAvg(MinMaxAvgKind::Storage),
    }
}

impl MetricsKind {
    /// The table in which the metrics of a kind are kept.
    pub fn from_kind(kind: JsonPerfKind) -> (table: MetricsKind)
        ensures
            table == spec_metrics_kind(kind),
    {
        match kind {
            JsonPerfKind::Latency => MetricsKind::Latency,
            JsonPerfKind::Throughput => MetricsKind::Throughput,
            JsonPerfKind::Compute => MetricsKind::MinMaxAvg(MinMaxAvgKind::Compute),
            JsonPerfKind::Memory => MetricsKind::MinMaxAvg(MinMaxAvgKind::Memory),
            JsonPerfKind::Storage => MetricsKind::MinMaxAvg(MinMaxAvgKind::Storage),
        }
    }
}

impl JsonPerfDatumKind {
    /// The kind of the metric.
    pub open spec fn spec_kind(&self) -> JsonPerfKind {
        match self {
            JsonPerfDatumKind::Latency(_) => JsonPerfKind::Latency,
            JsonPerfDatumKind::Throughput(_) => JsonPerfKind::Throughput,
            JsonPerfDatumKind::Compute(_) => JsonPerfKind::Compute,
            JsonPerfDatumKind::Memory(_) => JsonPerfKind::Memory,
            JsonPerfDatumKind::Storage(_) => JsonPerfKind::Storage,
        }
    }

    /// The kind of the metric.
    pub fn kind(&self) -> (kind: JsonPerfKind)
        ensures
            kind == self.spec_kind(),
    {
        match self {
            JsonPerfDatumKind::Latency(_) => JsonPerfKind::Latency,
            JsonPerfDatumKind::Throughput(_) => JsonPerfKind::Throughput,
            JsonPerfDatumKind::Compute(_) => JsonPerfKind::Compute,
            JsonPerfDatumKind::Memory(_) => JsonPerfKind::Memory,
            JsonPerfDatumKind::Storage(_) => JsonPerfKind::Storage,
        }
    }
}

/// A row of the table of results.
#[derive(Clone, Debug)]
pub struct QueryPerf {
    pub id: i32,
    pub uuid: String,
    pub report_id: i32,
    pub iteration: i32,
    pub benchmark_id: i32,
    pub latency_id: Option<i32>,
    pub throughput_id: Option<i32>,
    pub compute_id: Option<i32>,
    pub memory_id: Option<i32>,
    pub storage_id: Option<i32>,
}

impl Keyed for QueryPerf {
    open spec fn key_id(&self) -> i32 {
        self.id
    }

    open spec fn key_uuid(&self) -> Seq<char> {
        self.uuid@
    }

    fn row_id(&self) -> (id: i32) {
        self.id
    }

    fn row_uuid(&self) -> (uuid: &String) {
        &self.uuid
    }
}

impl QueryPerf {
    /// The number of the first row that holds the UUID which `uuid` is
    /// parsed to.
    pub fn get_id(rows: &Vec<QueryPerf>, uuid: &str) -> (result: Result<i32, ApiError>)
        ensures
            is_id_of(result, rows@, uuid_hyphenated(uuid@)),
    {
        lookup::get_id(rows, uuid)
    }

    /// The UUID in hyphenated form of the first row with the number `id`.
    pub fn get_uuid(rows: &Vec<QueryPerf>, id: i32) -> (result: Result<String, ApiError>)
        ensures
            is_uuid_of(result, rows@, id),
    {
        lookup::get_uuid(rows, id)
    }
}

/// A row to be added to the table of results.
#[derive(Clone, Debug)]
pub struct InsertPerf {
    pub uuid: String,
    pub report_id: i32,
    pub iteration: i32,
    pub benchmark_id: i32,
    pub latency_id: Option<i32>,
    pub throughput_id: Option<i32>,
    pub compute_id: Option<i32>,
    pub memory_id: Option<i32>,
    pub storage_id: Option<i32>,
}

/// The rows under which the metrics of one result were stored, by kind.
#[derive(Clone, Copy, Debug, PartialEq, Eq)]
pub struct MetricIds {
    pub latency: Option<i32>,
    pub throughput: Option<i32>,
    pub compute: Option<i32>,
    pub memory: Option<i32>,
    pub storage: Option<i32>,
}

impl InsertPerf {
    /// The row for one result of a report, given the rows under which its
    /// metrics were stored. The row gets a random identifier.
    pub fn from_json(report_id: i32, iteration: i32, benchmark_id: i32, metrics: MetricIds) -> (row:
        InsertPerf)
        ensures
            row.uuid@.len() == 36,
            row.report_id == report_id,
            row.iteration == iteration,
            row.benchmark_id == benchmark_id,
            row.latency_id == metrics.latency,
            row.throughput_id == metrics.throughput,
            row.compute_id == metrics.compute,
            row.memory_id == metrics.memory,
            row.storage_id == metrics.storage,
    {
        InsertPerf {
            uuid: random_uuid(),
            report_id,
            iteration,
            benchmark_id,
            latency_id: metrics.latency,
            throughput_id: metrics.throughput,
            compute_id: metrics.compute,
            memory_id: metrics.memory,
            storage_id: metrics.storage,
        }
    }
}

/// A row to be added to the table of latencies, in nanoseconds.
#[derive(Clone, Debug)]
pub struct InsertLatency {
    pub uuid: String,
    pub lower_variance: i64,
    pub upper_variance: i64,
    pub duration: i64,
}

/// A count of nanoseconds as the table keeps it: its low 64 bits, read as
/// a signed number.
pub open spec fn stored_nanos(nanos: u64) -> i64 {
    nanos as i64
}

/// Narrows a count of nanoseconds to what the table keeps.
fn store_nanos(nanos: u64) -> (stored: i64)
    ensures
        stored == stored_nanos(nanos),
        nanos <= i64::MAX ==> stored == nanos,
{
    #[verifier::truncate]
    (nanos as i64)
}

impl InsertLatency {
    /// The row for a latency. The row gets a random identifier.
    pub fn from(latency: JsonLatency) -> (row: InsertLatency)
        ensures
            row.uuid@.len() == 36,
            row.lower_variance == stored_nanos(latency.lower_variance),
            row.upper_variance == stored_nanos(latency.upper_variance),
            row.duration == stored_nanos(latency.duration),
    {
        InsertLatency {
            uuid: random_uuid(),
            lower_variance: store_nanos(latency.lower_variance),
            upper_variance: store_nanos(latency.upper_variance),
            duration: store_nanos(latency.duration),
        }
    }
}

} // verus!
