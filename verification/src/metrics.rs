//! Host metrics, as far as they are whole numbers.
//!
//! The caller samples the host and hands over what it read: the bytes of
//! memory in use and in total, and for every mounted volume its size and
//! what is free of it. From that this module works out the memory in
//! mebibytes and the disk space in bytes. Disk space in use is the space in
//! total less the space available, summed over all volumes, and zero where
//! more is reported available than there is in total.

use vstd::prelude::*;

verus! {

/// The number of bytes in a mebibyte.
pub const BYTES_PER_MB: u64 = 1_048_576;

/// The number of bytes in a gibibyte.
pub const BYTES_PER_GB: u64 = 1_073_741_824;

/// The size of one mounted volume and the space available on it, in bytes.
#[derive(Clone, Copy, Debug, PartialEq, Eq, Structural)]
pub struct DiskSpace {
    pub total_bytes: u64,
    pub available_bytes: u64,
}

/// What one sampling of the host read.
#[derive(Debug)]
pub struct HostSample {
    /// Memory in use, in bytes.
    pub memory_used_bytes: u64,
    /// Memory in total, in bytes.
    pub memory_total_bytes: u64,
    /// The mounted volumes.
    pub disks: Vec<DiskSpace>,
}

/// The whole-number metrics of one sample.
#[derive(Clone, Copy, Debug, PartialEq, Eq, Structural)]
pub struct MetricsSummary {
    /// Memory in use, in whole mebibytes.
    pub memory_used_mb: u64,
    /// Memory in total, in whole mebibytes.
    pub memory_total_mb: u64,
    /// Disk space in use over all volumes, in bytes.
    pub disk_used_bytes: u128,
    /// Disk space in total over all volumes, in bytes.
    pub disk_total_bytes: u128,
}

/// The size of all volumes together.
pub open spec fn total_space(disks: Seq<DiskSpace>) -> nat
    decreases disks.len(),
{
    if disks.len() == 0 {
        0
    } else {
        total_space(disks.drop_last()) + disks.last().total_bytes as nat
    }
}

/// The space available on all volumes together.
pub open spec fn available_space(disks: Seq<DiskSpace>) -> nat
    decreases disks.len(),
{
    if disks.len() == 0 {
        0
    } else {
        available_space(disks.drop_last()) + disks.last().available_bytes as nat
    }
}

/// The space in use on all volumes together: the total less what is
/// available, and zero where that would be negative.
pub open spec fn used_space(disks: Seq<DiskSpace>) -> nat {
    if total_space(disks) >= available_space(disks) {
        (total_space(disks) - available_space(disks)) as nat
    } else {
        0
    }
}

/// The whole mebibytes in `bytes`.
pub open spec fn whole_mb(bytes: u64) -> nat {
    (bytes / BYTES_PER_MB) as nat
}

/// Neither sum exceeds what as many volumes can hold at most.
pub proof fn lemma_space_bounds(disks: Seq<DiskSpace>)
    ensures
        total_space(disks) <= disks.len() * u64::MAX,
        available_space(disks) <= disks.len() * u64::MAX,
    decreases disks.len(),
{
    if disks.len() > 0 {
        lemma_space_bounds(disks.drop_last());
        assert((disks.len() - 1) * u64::MAX + u64::MAX == disks.len() * u64::MAX)
            by (nonlinear_arith);
    }
}

/// The memory figure of a sample.
pub fn memory_mb(bytes: u64) -> (mb: u64)
    ensures
        mb == whole_mb(bytes),
{
    bytes / BYTES_PER_MB
}

/// The metrics of `sample`.
pub fn summarize(sample: &HostSample) -> (summary: MetricsSummary)
    ensures
        summary.memory_used_mb == whole_mb(sample.memory_used_bytes),
        summary.memory_total_mb == whole_mb(sample.memory_total_bytes),
        summary.disk_total_bytes == total_space(sample.disks@),
        summary.disk_used_bytes == used_space(sample.disks@),
        summary.disk_used_bytes <= summary.disk_total_bytes,
        sample.memory_used_bytes <= sample.memory_total_bytes ==> summary.memory_used_mb
            <= summary.memory_total_mb,
{
    let mut total: u128 = 0;
    let mut available: u128 = 0;
    let n: usize = sample.disks.len();
    let mut i: usize = 0;
    while i < n
        invariant
            n == sample.disks@.len(),
            0 <= i <= n,
            total == total_space(sample.disks@.take(i as int)),
            available == available_space(sample.disks@.take(i as int)),
        decreases n - i,
    {
        let disk = sample.disks[i];
        proof {
            let next = sample.disks@.take(i + 1);
            assert(next.drop_last() =~= sample.disks@.take(i as int));
            lemma_space_bounds(next);
            assert(next.len() * u64::MAX <= 0xffff_ffff_ffff_ffff * 0xffff_ffff_ffff_ffff)
                by (nonlinear_arith)
                requires
                    next.len() <= 0xffff_ffff_ffff_ffff,
                    u64::MAX == 0xffff_ffff_ffff_ffff,
            ;
        }
        total = total + disk.total_bytes as u128;
        available = available + disk.available_bytes as u128;
        i = i + 1;
    }
    assert(sample.disks@.take(n as int) =~= sample.disks@);
    let used: u128 = if total >= available {
        total - available
    } else {
        0
    };
    MetricsSummary {
        memory_used_mb: memory_mb(sample.memory_used_bytes),
        memory_total_mb: memory_mb(sample.memory_total_bytes),
        disk_used_bytes: used,
        disk_total_bytes: total,
    }
}

/// Metrics sanity, for disks: no more space is in use than there is in
/// total.
pub proof fn lemma_disk_used_within_total(disks: Seq<DiskSpace>)
    ensures
        used_space(disks) <= total_space(disks),
{
}

/// Metrics sanity, for memory: where the sample has no more memory in use
/// than in total, the same holds of the figures in mebibytes.
pub proof fn lemma_memory_used_within_total(used_bytes: u64, total_bytes: u64)
    requires
        used_bytes <= total_bytes,
    ensures
        whole_mb(used_bytes) <= whole_mb(total_bytes),
{
}

} // verus!
