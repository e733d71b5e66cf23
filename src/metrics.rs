//! Normalisation of sampled disk activity against the limit table.
//!
//! Rates are fixed-point numbers in thousandths per second; ratios are
//! rounded, half up, to millionths.
use vstd::arithmetic::div_mod::{lemma_fundamental_div_mod, lemma_fundamental_div_mod_converse};
use vstd::prelude::*;

use crate::limits::{DeviceLimits, Limits};
use crate::resource::{Disk, VirtualMachine};

verus! {

/// Fixed-point rates count thousandths.
pub const RATE_SCALE: u64 = 1000;

/// Decimal places kept in a ratio.
pub const RATIO_DIGITS: u32 = 6;

pub open spec fn pow10(n: nat) -> nat
    decreases n,
{
    if n == 0 {
        1
    } else {
        10 * pow10((n - 1) as nat)
    }
}

proof fn lemma_pow10_monotone(j: nat, k: nat)
    requires
        j <= k,
    ensures
        1 <= pow10(j) <= pow10(k),
    decreases k,
{
    if k > 0 {
        if j < k {
            lemma_pow10_monotone(j, (k - 1) as nat);
        } else {
            lemma_pow10_monotone((j - 1) as nat, (k - 1) as nat);
        }
    }
}

/// `numerator / denominator`, scaled by `10^accuracy` and rounded half up to
/// an integer.
pub open spec fn rounded_ratio(numerator: int, denominator: int, accuracy: nat) -> int {
    (2 * numerator * pow10(accuracy) + denominator) / (2 * denominator)
}

fn power_of_ten(accuracy: u32) -> (r: u128)
    requires
        pow10(accuracy as nat) <= u128::MAX,
    ensures
        r == pow10(accuracy as nat),
{
    let mut p: u128 = 1;
    let mut k: u32 = 0;
    while k < accuracy
        invariant
            k <= accuracy,
            p == pow10(k as nat),
            pow10(accuracy as nat) <= u128::MAX,
        decreases accuracy - k,
    {
        proof {
            lemma_pow10_monotone((k + 1) as nat, accuracy as nat);
        }
        p = p * 10;
        k = k + 1;
    }
    p
}

/// The ratio `numerator / denominator` in units of `10^-accuracy`, rounded
/// half up.
pub fn normalize(numerator: u128, denominator: u128, accuracy: u32) -> (r: u128)
    requires
        denominator > 0,
        numerator * pow10(accuracy as nat) + denominator <= u128::MAX,
    ensures
        r == rounded_ratio(numerator as int, denominator as int, accuracy as nat),
{
    let ghost p = pow10(accuracy as nat);
    let ghost d = denominator as int;
    if numerator == 0 {
        proof {
            lemma_fundamental_div_mod_converse(d, 2 * d, 0, d);
        }
        return 0;
    }
    assert(p <= numerator * p) by (nonlinear_arith)
        requires
            numerator >= 1,
            p >= 0,
    ;
    let pw = power_of_ten(accuracy);
    let scaled = numerator * pw;
    let q = scaled / denominator;
    let rem = scaled % denominator;
    let ghost s = scaled as int;
    proof {
        assert(2 * numerator * p == 2 * s) by (nonlinear_arith)
            requires
                s == numerator * p,
        ;
        lemma_fundamental_div_mod(s, d);
        assert(q <= s) by (nonlinear_arith)
            requires
                s == d * q + rem,
                d >= 1,
                q >= 0,
                rem >= 0,
        ;
    }
    if rem >= denominator - rem {
        proof {
            assert(2 * s + d == (q + 1) * (2 * d) + (2 * rem - d)) by (nonlinear_arith)
                requires
                    s == d * q + rem,
            ;
            lemma_fundamental_div_mod_converse(2 * s + d, 2 * d, q + 1, 2 * rem - d);
        }
        q + 1
    } else {
        proof {
            assert(2 * s + d == q * (2 * d) + (2 * rem + d)) by (nonlinear_arith)
                requires
                    s == d * q + rem,
            ;
            lemma_fundamental_div_mod_converse(2 * s + d, 2 * d, q as int, 2 * rem + d);
        }
        q
    }
}

/// The activity of one device over a sampling interval, in thousandths per
/// second.
#[derive(Debug, Clone, Copy, PartialEq, Eq, Default)]
pub struct DiskSample {
    pub reads_per_second: u64,
    pub writes_per_second: u64,
    pub flushes_per_second: u64,
    pub read_bytes_per_second: u64,
    pub write_bytes_per_second: u64,
    pub discard_bytes_per_second: u64,
}

pub open spec fn sample_iops(s: DiskSample) -> int {
    s.reads_per_second + s.writes_per_second + s.flushes_per_second
}

pub open spec fn sample_throughput(s: DiskSample) -> int {
    s.read_bytes_per_second + s.write_bytes_per_second + s.discard_bytes_per_second
}

impl DiskSample {
    /// Operations per second: reads, writes and flushes.
    pub fn iops(&self) -> (r: u128)
        ensures
            r == sample_iops(*self),
    {
        self.reads_per_second as u128 + self.writes_per_second as u128
            + self.flushes_per_second as u128
    }

    /// Bytes per second: read, written and discarded.
    pub fn throughput(&self) -> (r: u128)
        ensures
            r == sample_throughput(*self),
    {
        self.read_bytes_per_second as u128 + self.write_bytes_per_second as u128
            + self.discard_bytes_per_second as u128
    }
}

/// The series of one label: raw rates in thousandths per second, and their
/// ratios to the label's limits in millionths where the label has limits.
#[derive(Debug, Clone, PartialEq)]
pub struct NormalizedMetric {
    pub device: String,
    pub iops: u128,
    pub throughput: u128,
    pub iops_ratio: Option<u128>,
    pub throughput_ratio: Option<u128>,
}

pub struct NormalizedMetricView {
    pub device: Seq<char>,
    pub iops: int,
    pub throughput: int,
    pub iops_ratio: Option<int>,
    pub throughput_ratio: Option<int>,
}

pub open spec fn ratio_view(r: Option<u128>) -> Option<int> {
    match r {
        Some(v) => Some(v as int),
        None => None,
    }
}

impl View for NormalizedMetric {
    type V = NormalizedMetricView;

    open spec fn view(&self) -> NormalizedMetricView {
        NormalizedMetricView {
            device: self.device@,
            iops: self.iops as int,
            throughput: self.throughput as int,
            iops_ratio: ratio_view(self.iops_ratio),
            throughput_ratio: ratio_view(self.throughput_ratio),
        }
    }
}

pub open spec fn metric_views(ms: Seq<NormalizedMetric>) -> Seq<NormalizedMetricView> {
    ms.map_values(|m: NormalizedMetric| m@)
}

/// The ratio of a rate, in thousandths, to a limit in whole units, in
/// millionths. A zero limit gives no ratio; classification never yields one.
pub open spec fn limit_ratio(rate: int, limit: u64) -> Option<int> {
    if limit == 0 {
        None
    } else {
        Some(rounded_ratio(rate, limit * RATE_SCALE, RATIO_DIGITS as nat))
    }
}

/// The series of one sampled device: raw rates always, ratios only where the
/// table holds the device.
pub open spec fn device_metric(
    device: Seq<char>,
    sample: DiskSample,
    disks: Map<Seq<char>, Disk>,
) -> NormalizedMetricView {
    NormalizedMetricView {
        device,
        iops: sample_iops(sample),
        throughput: sample_throughput(sample),
        iops_ratio: if disks.contains_key(device) {
            limit_ratio(sample_iops(sample), disks[device].max_iops)
        } else {
            None
        },
        throughput_ratio: if disks.contains_key(device) {
            limit_ratio(sample_throughput(sample), disks[device].max_bandwidth)
        } else {
            None
        },
    }
}

pub open spec fn total_iops(samples: Seq<(String, DiskSample)>) -> int
    decreases samples.len(),
{
    if samples.len() == 0 {
        0
    } else {
        total_iops(samples.drop_last()) + sample_iops(samples.last().1)
    }
}

pub open spec fn total_throughput(samples: Seq<(String, DiskSample)>) -> int
    decreases samples.len(),
{
    if samples.len() == 0 {
        0
    } else {
        total_throughput(samples.drop_last()) + sample_throughput(samples.last().1)
    }
}

/// The label of the machine-wide series.
pub open spec fn total_label() -> Seq<char> {
    "TOTAL"@
}

/// The machine-wide series: the sums over all sampled devices, against the
/// limits of the virtual machine.
pub open spec fn aggregate_metric(
    samples: Seq<(String, DiskSample)>,
    vm: VirtualMachine,
) -> NormalizedMetricView {
    NormalizedMetricView {
        device: total_label(),
        iops: total_iops(samples),
        throughput: total_throughput(samples),
        iops_ratio: limit_ratio(total_iops(samples), vm.max_iops),
        throughput_ratio: limit_ratio(total_throughput(samples), vm.max_bandwidth),
    }
}

/// The snapshot of one tick: a series per sampled device, in sample order,
/// then the machine-wide series.
pub open spec fn snapshot(
    samples: Seq<(String, DiskSample)>,
    disks: Map<Seq<char>, Disk>,
    vm: VirtualMachine,
) -> Seq<NormalizedMetricView> {
    samples.map_values(|s: (String, DiskSample)| device_metric(s.0@, s.1, disks)).push(
        aggregate_metric(samples, vm),
    )
}

/// A sampled device that the table does not hold keeps its raw series and
/// gets no ratio, and takes nothing from the others: every device still has
/// its own series, and the machine-wide series closes the snapshot.
pub proof fn lemma_unmapped_device(
    samples: Seq<(String, DiskSample)>,
    disks: Map<Seq<char>, Disk>,
    vm: VirtualMachine,
    i: int,
)
    requires
        0 <= i < samples.len(),
        !disks.contains_key(samples[i].0@),
    ensures
        snapshot(samples, disks, vm).len() == samples.len() + 1,
        snapshot(samples, disks, vm)[i].device == samples[i].0@,
        snapshot(samples, disks, vm)[i].iops == sample_iops(samples[i].1),
        snapshot(samples, disks, vm)[i].throughput == sample_throughput(samples[i].1),
        snapshot(samples, disks, vm)[i].iops_ratio == None::<int>,
        snapshot(samples, disks, vm)[i].throughput_ratio == None::<int>,
        forall|j: int|
            0 <= j < samples.len() ==> #[trigger] snapshot(samples, disks, vm)[j] == device_metric(
                samples[j].0@,
                samples[j].1,
                disks,
            ),
        snapshot(samples, disks, vm)[samples.len() as int] == aggregate_metric(samples, vm),
{
}

/// The sum of the operations of a list of series.
pub open spec fn series_iops(ms: Seq<NormalizedMetricView>) -> int
    decreases ms.len(),
{
    if ms.len() == 0 {
        0
    } else {
        series_iops(ms.drop_last()) + ms.last().iops
    }
}

/// The sum of the throughput of a list of series.
pub open spec fn series_throughput(ms: Seq<NormalizedMetricView>) -> int
    decreases ms.len(),
{
    if ms.len() == 0 {
        0
    } else {
        series_throughput(ms.drop_last()) + ms.last().throughput
    }
}

proof fn lemma_device_series_sums(samples: Seq<(String, DiskSample)>, disks: Map<Seq<char>, Disk>)
    ensures
        series_iops(samples.map_values(|s: (String, DiskSample)| device_metric(s.0@, s.1, disks)))
            == total_iops(samples),
        series_throughput(
            samples.map_values(|s: (String, DiskSample)| device_metric(s.0@, s.1, disks)),
        ) == total_throughput(samples),
    decreases samples.len(),
{
    if samples.len() > 0 {
        lemma_device_series_sums(samples.drop_last(), disks);
        let all = samples.map_values(|s: (String, DiskSample)| device_metric(s.0@, s.1, disks));
        assert(all.drop_last() =~= samples.drop_last().map_values(
            |s: (String, DiskSample)| device_metric(s.0@, s.1, disks),
        ));
    }
}

/// The machine-wide series of a snapshot is the sum of its device series,
/// whether or not the table holds each device, and its ratios are taken
/// against the machine's limits.
pub proof fn lemma_aggregate_sums_devices(
    samples: Seq<(String, DiskSample)>,
    disks: Map<Seq<char>, Disk>,
    vm: VirtualMachine,
)
    ensures
        ({
            let ms = snapshot(samples, disks, vm);
            let total = ms.last();
            &&& total.device == total_label()
            &&& total.iops == series_iops(ms.drop_last())
            &&& total.throughput == series_throughput(ms.drop_last())
            &&& total.iops_ratio == limit_ratio(total.iops, vm.max_iops)
            &&& total.throughput_ratio == limit_ratio(total.throughput, vm.max_bandwidth)
        }),
{
    let ms = snapshot(samples, disks, vm);
    assert(ms.drop_last() =~= samples.map_values(
        |s: (String, DiskSample)| device_metric(s.0@, s.1, disks),
    ));
    lemma_device_series_sums(samples, disks);
}

proof fn lemma_totals_bound(samples: Seq<(String, DiskSample)>)
    ensures
        0 <= total_iops(samples) <= samples.len() * (3 * u64::MAX),
        0 <= total_throughput(samples) <= samples.len() * (3 * u64::MAX),
    decreases samples.len(),
{
    if samples.len() > 0 {
        lemma_totals_bound(samples.drop_last());
    }
}

proof fn lemma_ratio_fits(rate: int, limit: u64)
    requires
        0 <= rate <= 0xffff_ffff * (3 * u64::MAX),
    ensures
        rate * pow10(RATIO_DIGITS as nat) + limit * RATE_SCALE <= u128::MAX,
{
    reveal_with_fuel(pow10, 7);
    assert(pow10(6) == 1000000);
    assert(rate * 1000000 <= 0xffff_ffff * (3 * u64::MAX) * 1000000) by (nonlinear_arith)
        requires
            0 <= rate <= 0xffff_ffff * (3 * u64::MAX),
    ;
}

fn ratio_to_limit(rate: u128, limit: u64) -> (r: Option<u128>)
    requires
        rate <= 0xffff_ffff * (3 * u64::MAX),
    ensures
        ratio_view(r) == limit_ratio(rate as int, limit),
{
    if limit == 0 {
        None
    } else {
        proof {
            lemma_ratio_fits(rate as int, limit);
        }
        Some(normalize(rate, limit as u128 * RATE_SCALE as u128, RATIO_DIGITS))
    }
}

/// Computes the snapshot of one tick: for each sampled device its raw rates,
/// and its ratios where the table holds its limits; then the sums over all
/// devices against the machine's limits, labelled `TOTAL`. The number of
/// devices is bounded so that the sums and their scaled ratios fit in 128 bits.
pub fn collect(
    samples: &Vec<(String, DiskSample)>,
    vm_limit: &VirtualMachine,
    disk_limits: &DeviceLimits,
) -> (r: Vec<NormalizedMetric>)
    requires
        samples@.len() <= u32::MAX,
    ensures
        metric_views(r@) == snapshot(samples@, disk_limits@, *vm_limit),
{
    let mut out: Vec<NormalizedMetric> = Vec::new();
    let mut total_iops_acc: u128 = 0;
    let mut total_throughput_acc: u128 = 0;
    let mut i: usize = 0;
    while i < samples.len()
        invariant
            i <= samples@.len() <= u32::MAX,
            out@.len() == i,
            forall|k: int|
                0 <= k < i ==> (#[trigger] out@[k])@ == device_metric(
                    samples@[k].0@,
                    samples@[k].1,
                    disk_limits@,
                ),
            total_iops_acc == total_iops(samples@.subrange(0, i as int)),
            total_throughput_acc == total_throughput(samples@.subrange(0, i as int)),
        decreases samples@.len() - i,
    {
        let (device, sample) = (&samples[i].0, &samples[i].1);
        let ghost prefix = samples@.subrange(0, i + 1);
        assert(prefix.drop_last() =~= samples@.subrange(0, i as int));
        proof {
            lemma_totals_bound(prefix);
            assert((i + 1) * (3 * u64::MAX) <= 0xffff_ffff * (3 * u64::MAX)) by (nonlinear_arith)
                requires
                    i + 1 <= 0xffff_ffff,
            ;
        }
        let iops = sample.iops();
        let throughput = sample.throughput();
        total_iops_acc = total_iops_acc + iops;
        total_throughput_acc = total_throughput_acc + throughput;
        let (iops_ratio, throughput_ratio) = match disk_limits.get(device.as_str()) {
            Some(limit) => (
                ratio_to_limit(iops, limit.max_iops),
                ratio_to_limit(throughput, limit.max_bandwidth),
            ),
            None => (None, None),
        };
        out.push(
            NormalizedMetric {
                device: device.clone(),
                iops,
                throughput,
                iops_ratio,
                throughput_ratio,
            },
        );
        i = i + 1;
    }
    assert(samples@.subrange(0, samples@.len() as int) =~= samples@);
    proof {
        lemma_totals_bound(samples@);
        assert(samples@.len() * (3 * u64::MAX) <= 0xffff_ffff * (3 * u64::MAX)) by (nonlinear_arith)
            requires
                samples@.len() <= 0xffff_ffff,
        ;
    }
    let ghost devices = out@;
    out.push(
        NormalizedMetric {
            device: String::from_str("TOTAL"),
            iops: total_iops_acc,
            throughput: total_throughput_acc,
            iops_ratio: ratio_to_limit(total_iops_acc, vm_limit.max_iops),
            throughput_ratio: ratio_to_limit(total_throughput_acc, vm_limit.max_bandwidth),
        },
    );
    assert(metric_views(out@) =~= snapshot(samples@, disk_limits@, *vm_limit)) by {
        assert(out@.drop_last() == devices);
    }
    out
}

} // verus!
