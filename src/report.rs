use vstd::prelude::*;
use crate::checksum::{xor_fold, xor_fold_checksum};
use crate::pattern::pattern_seq;
use crate::payload::{ComplexPayload, payload_matches};

verus! {

/// Metrics of one raw byte-buffer round trip. The elapsed time of the write and
/// read-back passes is kept in nanoseconds.
#[derive(Clone, Copy, Debug, PartialEq, Eq, Structural)]
pub struct RawBenchmarkResult {
    pub elapsed_nanos: u64,
    pub bytes_written: usize,
    pub bytes_read: usize,
    pub checksum: u64,
}

/// Metrics of one round trip of the serialised structured payload.
#[derive(Clone, Copy, Debug, PartialEq, Eq, Structural)]
pub struct StructuredBenchmarkResult {
    pub elapsed_nanos: u64,
    pub bytes_written: usize,
    pub bytes_read: usize,
    pub item_count: usize,
}

/// Metrics of one round trip of caller-supplied content.
#[derive(Clone, Copy, Debug, PartialEq, Eq, Structural)]
pub struct BasicBenchmarkResult {
    pub elapsed_nanos: u64,
    pub bytes_written: usize,
    pub bytes_read: usize,
}

/// The benchmark variants, each with its own default file name.
#[derive(Clone, Copy, Debug, PartialEq, Eq, Structural)]
pub enum BenchmarkVariant {
    RawBytes,
    Structured,
    BasicText,
}

/// The report of a raw round trip that wrote `written` and read back `read_back`.
pub open spec fn raw_result_of(written: Seq<u8>, read_back: Seq<u8>, elapsed_nanos: u64)
    -> RawBenchmarkResult {
    RawBenchmarkResult {
        elapsed_nanos,
        bytes_written: written.len() as usize,
        bytes_read: read_back.len() as usize,
        checksum: xor_fold(read_back),
    }
}

/// The report of a structured round trip of `payload`, serialised as `text`.
pub open spec fn structured_result_of(
    payload: ComplexPayload,
    text: Seq<u8>,
    read_back: Seq<u8>,
    elapsed_nanos: u64,
) -> StructuredBenchmarkResult {
    StructuredBenchmarkResult {
        elapsed_nanos,
        bytes_written: text.len() as usize,
        bytes_read: read_back.len() as usize,
        item_count: payload.items@.len() as usize,
    }
}

/// The report of a round trip that wrote `content` and read back `read_back`.
pub open spec fn basic_result_of(content: Seq<u8>, read_back: Seq<u8>, elapsed_nanos: u64)
    -> BasicBenchmarkResult {
    BasicBenchmarkResult {
        elapsed_nanos,
        bytes_written: content.len() as usize,
        bytes_read: read_back.len() as usize,
    }
}

/// Assembles the report of a raw round trip: byte counts of both passes and the
/// XOR-fold checksum of what was read back.
pub fn raw_report(written: &[u8], read_back: &[u8], elapsed_nanos: u64) -> (r:
    RawBenchmarkResult)
    ensures
        r == raw_result_of(written@, read_back@, elapsed_nanos),
{
    RawBenchmarkResult {
        elapsed_nanos,
        bytes_written: written.len(),
        bytes_read: read_back.len(),
        checksum: xor_fold_checksum(read_back),
    }
}

/// Assembles the report of a structured round trip.
pub fn structured_report(
    payload: &ComplexPayload,
    text: &[u8],
    read_back: &[u8],
    elapsed_nanos: u64,
) -> (r: StructuredBenchmarkResult)
    ensures
        r == structured_result_of(*payload, text@, read_back@, elapsed_nanos),
{
    StructuredBenchmarkResult {
        elapsed_nanos,
        bytes_written: text.len(),
        bytes_read: read_back.len(),
        item_count: payload.items.len(),
    }
}

/// Assembles the report of a round trip of caller-supplied content.
pub fn basic_report(content: &[u8], read_back: &[u8], elapsed_nanos: u64) -> (r:
    BasicBenchmarkResult)
    ensures
        r == basic_result_of(content@, read_back@, elapsed_nanos),
{
    BasicBenchmarkResult {
        elapsed_nanos,
        bytes_written: content.len(),
        bytes_read: read_back.len(),
    }
}

/// The file name used under the temporary-files directory when the caller
/// gives no path. Runs of one variant without a path share this file.
pub fn default_file_name(variant: BenchmarkVariant) -> (r: &'static str)
    ensures
        r@ == match variant {
            BenchmarkVariant::RawBytes => "yata_benchmark.bin"@,
            BenchmarkVariant::Structured => "yata_benchmark.json"@,
            BenchmarkVariant::BasicText => "yata_basic_benchmark.txt"@,
        },
{
    match variant {
        BenchmarkVariant::RawBytes => "yata_benchmark.bin",
        BenchmarkVariant::Structured => "yata_benchmark.json",
        BenchmarkVariant::BasicText => "yata_basic_benchmark.txt",
    }
}

/// A raw round trip of `n` pattern bytes whose read-back returns what was
/// written reports `n` bytes written and `n` bytes read.
pub proof fn lemma_raw_counts(n: usize, read_back: Seq<u8>, elapsed_nanos: u64)
    requires
        read_back == pattern_seq(n as nat),
    ensures
        raw_result_of(pattern_seq(n as nat), read_back, elapsed_nanos).bytes_written == n,
        raw_result_of(pattern_seq(n as nat), read_back, elapsed_nanos).bytes_read == n,
{
}

/// Two raw round trips of the same size whose read-backs return what was
/// written report the same checksum, whatever their timings.
pub proof fn lemma_checksum_deterministic(
    n: usize,
    read_back1: Seq<u8>,
    read_back2: Seq<u8>,
    elapsed1: u64,
    elapsed2: u64,
)
    requires
        read_back1 == pattern_seq(n as nat),
        read_back2 == pattern_seq(n as nat),
    ensures
        raw_result_of(pattern_seq(n as nat), read_back1, elapsed1).checksum == raw_result_of(
            pattern_seq(n as nat),
            read_back2,
            elapsed2,
        ).checksum,
{
}

/// A structured round trip of the payload generated for `k` items, whose
/// read-back returns the serialised text, reports `k` items and the text's
/// length both as bytes written and as bytes read.
pub proof fn lemma_structured_counts(
    payload: ComplexPayload,
    k: usize,
    v: usize,
    ts: u64,
    text: Seq<u8>,
    read_back: Seq<u8>,
    elapsed_nanos: u64,
)
    requires
        payload_matches(payload, k as nat, v as nat, ts),
        text.len() <= usize::MAX,
        read_back == text,
    ensures
        structured_result_of(payload, text, read_back, elapsed_nanos).item_count == k,
        structured_result_of(payload, text, read_back, elapsed_nanos).bytes_written == text.len(),
        structured_result_of(payload, text, read_back, elapsed_nanos).bytes_read == text.len(),
{
}

} // verus!
