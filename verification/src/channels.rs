//! The channel aggregator: from the channel readings of one interval to residency
//! per CPU cluster and energy per power domain.

use vstd::prelude::*;
use vstd::arithmetic::div_mod::lemma_fundamental_div_mod_converse;
use crate::sources::ioreport::{IOReportSample, IOReportSampleView};
use crate::text::{contains, contains_chars, to_chars};
use crate::types::{CpuClusterMetrics, CpuClusterMetricsView, FULL_SCALE_PPM};

verus! {

/// The two tiers of CPU cores.
#[derive(Debug, Clone, Copy, PartialEq, Eq, Structural)]
pub enum Cluster {
    Efficiency,
    Performance,
}

/// The power domains that energy readings are booked to.
#[derive(Debug, Clone, Copy, PartialEq, Eq, Structural)]
pub enum PowerDomain {
    Cpu,
    Gpu,
    Ane,
    Dram,
}

impl Cluster {
    /// The name under which the cluster is reported.
    pub open spec fn label(self) -> Seq<char> {
        match self {
            Cluster::Efficiency => "E-Cluster"@,
            Cluster::Performance => "P-Cluster"@,
        }
    }

    /// The name under which the cluster is reported.
    pub fn name(&self) -> (name: &'static str)
        ensures
            name@ == self.label(),
    {
        match self {
            Cluster::Efficiency => "E-Cluster",
            Cluster::Performance => "P-Cluster",
        }
    }
}

/// The cluster that a channel name belongs to.
///
/// The patterns are tried in this order and the first that occurs decides, so a name
/// that mentions both tiers counts for the efficiency tier.
pub open spec fn cluster_of_channel(channel: Seq<char>) -> Option<Cluster> {
    if contains(channel, "ECPU"@) || contains(channel, "E-Cluster"@) {
        Some(Cluster::Efficiency)
    } else if contains(channel, "PCPU"@) || contains(channel, "P-Cluster"@) {
        Some(Cluster::Performance)
    } else {
        None
    }
}

/// The power domain that a channel name belongs to.
///
/// The patterns are tried in this order and the first that occurs decides.
pub open spec fn domain_of_channel(channel: Seq<char>) -> Option<PowerDomain> {
    if contains(channel, "CPU"@) {
        Some(PowerDomain::Cpu)
    } else if contains(channel, "GPU"@) {
        Some(PowerDomain::Gpu)
    } else if contains(channel, "ANE"@) {
        Some(PowerDomain::Ane)
    } else if contains(channel, "DRAM"@) {
        Some(PowerDomain::Dram)
    } else {
        None
    }
}

/// The cluster whose residency a reading counts towards, if any.
///
/// Only readings of the group `CPU Stats` count. The channel name picks the cluster
/// first; a reading whose subgroup is not one of performance states is then dropped,
/// and is not tried against the other cluster.
pub open spec fn residency_cluster(sample: IOReportSampleView) -> Option<Cluster> {
    if sample.group == "CPU Stats"@ && contains(sample.subgroup, "Performance States"@) {
        cluster_of_channel(sample.channel)
    } else {
        None
    }
}

/// Whether a channel stands for an idle state. Asked only once the cluster is settled.
pub open spec fn is_idle_channel(channel: Seq<char>) -> bool {
    contains(channel, "IDLE"@)
}

/// The power domain that a reading's energy is booked to, if any.
///
/// Only readings of the group `Energy Model` count.
pub open spec fn energy_domain(sample: IOReportSampleView) -> Option<PowerDomain> {
    if sample.group == "Energy Model"@ {
        domain_of_channel(sample.channel)
    } else {
        None
    }
}

/// What a reading adds to a residency counter: its value, or nothing if that is negative.
pub open spec fn residency_amount(sample: IOReportSampleView) -> nat {
    if sample.value > 0 {
        sample.value as nat
    } else {
        0
    }
}

/// The residency of `cluster` over all its states.
pub open spec fn residency_total(samples: Seq<IOReportSampleView>, cluster: Cluster) -> nat
    decreases samples.len(),
{
    if samples.len() == 0 {
        0
    } else {
        let rest = residency_total(samples.drop_last(), cluster);
        if residency_cluster(samples.last()) == Some(cluster) {
            rest + residency_amount(samples.last())
        } else {
            rest
        }
    }
}

/// The residency of `cluster` over the states that are not idle.
pub open spec fn residency_active(samples: Seq<IOReportSampleView>, cluster: Cluster) -> nat
    decreases samples.len(),
{
    if samples.len() == 0 {
        0
    } else {
        let rest = residency_active(samples.drop_last(), cluster);
        if residency_cluster(samples.last()) == Some(cluster) && !is_idle_channel(
            samples.last().channel,
        ) {
            rest + residency_amount(samples.last())
        } else {
            rest
        }
    }
}

/// The sum of the readings booked to `domain`, in microwatts.
pub open spec fn domain_power(samples: Seq<IOReportSampleView>, domain: PowerDomain) -> int
    decreases samples.len(),
{
    if samples.len() == 0 {
        0
    } else {
        let rest = domain_power(samples.drop_last(), domain);
        if energy_domain(samples.last()) == Some(domain) {
            rest + samples.last().value
        } else {
            rest
        }
    }
}

/// The power of all four domains together, in microwatts.
pub open spec fn total_power(samples: Seq<IOReportSampleView>) -> int {
    domain_power(samples, PowerDomain::Cpu) + domain_power(samples, PowerDomain::Gpu)
        + domain_power(samples, PowerDomain::Ane) + domain_power(samples, PowerDomain::Dram)
}

/// The share `active / total` in parts per million, rounded down and capped at the
/// whole.
pub open spec fn ratio_ppm_spec(active: int, total: int) -> int
    recommends
        0 <= active,
        0 < total,
{
    let ppm = active * FULL_SCALE_PPM / total;
    if ppm < FULL_SCALE_PPM {
        ppm
    } else {
        FULL_SCALE_PPM as int
    }
}

/// One step of decimal long division: ten times `remainder`, divided by `total`.
///
/// The product is built by ten additions modulo `total`, none of which can leave the
/// range of `u128` however large `total` is.
fn times_ten_divided(remainder: u128, total: u128) -> (step: (u32, u128))
    requires
        remainder < total,
    ensures
        step.0 <= 9,
        step.1 < total,
        step.0 * total + step.1 == 10 * remainder,
{
    let mut digit: u32 = 0;
    let mut rest: u128 = 0;
    let mut added: u32 = 0;
    while added < 10
        invariant
            remainder < total,
            added <= 10,
            digit <= added,
            rest < total,
            digit * total + rest == added * remainder,
        decreases 10 - added,
    {
        if rest >= total - remainder {
            rest = rest - (total - remainder);
            assert((digit + 1) * total == digit * total + total) by (nonlinear_arith);
            digit = digit + 1;
        } else {
            rest = rest + remainder;
        }
        assert((added + 1) * remainder == added * remainder + remainder) by (nonlinear_arith);
        added = added + 1;
    }
    assert(digit <= 9) by {
        if digit >= 10 {
            assert(digit * total >= 10 * total) by (nonlinear_arith)
                requires
                    digit >= 10,
                    total > 0,
            ;
        }
    }
    (digit, rest)
}

/// Computes the share `active / total` in parts per million. There is no share of
/// nothing: a total of zero gives `None`.
///
/// Exact for every pair of `u128` counters: the quotient is found digit by digit, so
/// the product `active * 1_000_000` is never formed.
pub fn ratio_ppm(active: u128, total: u128) -> (ppm: Option<u32>)
    ensures
        total == 0 <==> ppm is None,
        ppm is Some ==> ppm->Some_0 == ratio_ppm_spec(active as int, total as int),
        ppm is Some ==> ppm->Some_0 <= FULL_SCALE_PPM,
{
    if total == 0 {
        return None;
    }
    if active >= total {
        proof {
            assert(active * FULL_SCALE_PPM >= total * FULL_SCALE_PPM) by (nonlinear_arith)
                requires
                    active >= total,
            ;
            lemma_quotient_at_least(active * FULL_SCALE_PPM, total as int, FULL_SCALE_PPM as int);
        }
        return Some(FULL_SCALE_PPM);
    }
    let mut quotient: u32 = 0;
    let mut remainder: u128 = active;
    let mut scale: u32 = 1;
    while scale < FULL_SCALE_PPM
        invariant
            active < total,
            remainder < total,
            quotient < scale,
            quotient * total + remainder == active * scale,
            scale == 1 || scale == 10 || scale == 100 || scale == 1_000 || scale == 10_000
                || scale == 100_000 || scale == 1_000_000,
        decreases FULL_SCALE_PPM - scale,
    {
        let (digit, rest) = times_ten_divided(remainder, total);
        proof {
            assert((quotient * 10 + digit) * total + rest == active * (scale * 10))
                by (nonlinear_arith)
                requires
                    quotient * total + remainder == active * scale,
                    digit * total + rest == 10 * remainder,
            ;
        }
        quotient = quotient * 10 + digit;
        remainder = rest;
        scale = scale * 10;
    }
    proof {
        lemma_fundamental_div_mod_converse(
            active * FULL_SCALE_PPM,
            total as int,
            quotient as int,
            remainder as int,
        );
    }
    Some(quotient)
}

/// The patterns that readings are classified by, as characters.
struct Patterns {
    cpu_stats: String,
    energy_model: String,
    performance_states: Vec<char>,
    ecpu: Vec<char>,
    e_cluster: Vec<char>,
    pcpu: Vec<char>,
    p_cluster: Vec<char>,
    idle: Vec<char>,
    cpu: Vec<char>,
    gpu: Vec<char>,
    ane: Vec<char>,
    dram: Vec<char>,
}

impl Patterns {
    spec fn well_formed(&self) -> bool {
        &&& self.cpu_stats@ == "CPU Stats"@
        &&& self.energy_model@ == "Energy Model"@
        &&& self.performance_states@ == "Performance States"@
        &&& self.ecpu@ == "ECPU"@
        &&& self.e_cluster@ == "E-Cluster"@
        &&& self.pcpu@ == "PCPU"@
        &&& self.p_cluster@ == "P-Cluster"@
        &&& self.idle@ == "IDLE"@
        &&& self.cpu@ == "CPU"@
        &&& self.gpu@ == "GPU"@
        &&& self.ane@ == "ANE"@
        &&& self.dram@ == "DRAM"@
    }

    fn new() -> (patterns: Patterns)
        ensures
            patterns.well_formed(),
    {
        Patterns {
            cpu_stats: "CPU Stats".to_owned(),
            energy_model: "Energy Model".to_owned(),
            performance_states: to_chars("Performance States"),
            ecpu: to_chars("ECPU"),
            e_cluster: to_chars("E-Cluster"),
            pcpu: to_chars("PCPU"),
            p_cluster: to_chars("P-Cluster"),
            idle: to_chars("IDLE"),
            cpu: to_chars("CPU"),
            gpu: to_chars("GPU"),
            ane: to_chars("ANE"),
            dram: to_chars("DRAM"),
        }
    }

    fn cluster_of_channel(&self, channel: &Vec<char>) -> (cluster: Option<Cluster>)
        requires
            self.well_formed(),
        ensures
            cluster == cluster_of_channel(channel@),
    {
        if contains_chars(channel, &self.ecpu) || contains_chars(channel, &self.e_cluster) {
            Some(Cluster::Efficiency)
        } else if contains_chars(channel, &self.pcpu) || contains_chars(channel, &self.p_cluster) {
            Some(Cluster::Performance)
        } else {
            None
        }
    }

    fn domain_of_channel(&self, channel: &Vec<char>) -> (domain: Option<PowerDomain>)
        requires
            self.well_formed(),
        ensures
            domain == domain_of_channel(channel@),
    {
        if contains_chars(channel, &self.cpu) {
            Some(PowerDomain::Cpu)
        } else if contains_chars(channel, &self.gpu) {
            Some(PowerDomain::Gpu)
        } else if contains_chars(channel, &self.ane) {
            Some(PowerDomain::Ane)
        } else if contains_chars(channel, &self.dram) {
            Some(PowerDomain::Dram)
        } else {
            None
        }
    }
}

/// How one reading is booked.
#[derive(Debug, Clone, Copy, PartialEq, Eq, Structural)]
pub enum Booking {
    /// Residency of a cluster, in an idle state or not.
    Residency { cluster: Cluster, idle: bool },
    /// Energy of a power domain.
    Energy { domain: PowerDomain },
    /// Not a reading that the aggregator knows.
    Ignored,
}

/// How a reading is booked: by its group first, then by its channel name.
pub open spec fn booking_of(sample: IOReportSampleView) -> Booking {
    match residency_cluster(sample) {
        Some(cluster) => Booking::Residency { cluster, idle: is_idle_channel(sample.channel) },
        None => match energy_domain(sample) {
            Some(domain) => Booking::Energy { domain },
            None => Booking::Ignored,
        },
    }
}

/// Classifies one reading.
pub fn classify(sample: &IOReportSample) -> (booking: Booking)
    ensures
        booking == booking_of(sample@),
{
    let patterns = Patterns::new();
    classify_with(&patterns, sample)
}

fn classify_with(patterns: &Patterns, sample: &IOReportSample) -> (booking: Booking)
    requires
        patterns.well_formed(),
    ensures
        booking == booking_of(sample@),
{
    proof {
        lemma_groups_differ();
    }
    if sample.group == patterns.cpu_stats {
        let subgroup = to_chars(sample.subgroup.as_str());
        if !contains_chars(&subgroup, &patterns.performance_states) {
            return Booking::Ignored;
        }
        let channel = to_chars(sample.channel.as_str());
        match patterns.cluster_of_channel(&channel) {
            Some(cluster) => Booking::Residency {
                cluster,
                idle: contains_chars(&channel, &patterns.idle),
            },
            None => Booking::Ignored,
        }
    } else if sample.group == patterns.energy_model {
        let channel = to_chars(sample.channel.as_str());
        match patterns.domain_of_channel(&channel) {
            Some(domain) => Booking::Energy { domain },
            None => Booking::Ignored,
        }
    } else {
        Booking::Ignored
    }
}

/// What the readings of one interval add up to.
#[derive(Debug, Clone, Copy, PartialEq, Eq, Structural)]
pub struct ChannelTotals {
    /// Residency of the efficiency cluster over all its states.
    pub efficiency_total: u128,
    /// Residency of the efficiency cluster out of idle.
    pub efficiency_active: u128,
    /// Residency of the performance cluster over all its states.
    pub performance_total: u128,
    /// Residency of the performance cluster out of idle.
    pub performance_active: u128,
    pub cpu_microwatts: i128,
    pub gpu_microwatts: i128,
    pub ane_microwatts: i128,
    pub dram_microwatts: i128,
    /// The four domains together.
    pub total_microwatts: i128,
}

impl ChannelTotals {
    /// The totals are those of `samples`.
    pub open spec fn summarises(self, samples: Seq<IOReportSampleView>) -> bool {
        &&& self.efficiency_total == residency_total(samples, Cluster::Efficiency)
        &&& self.efficiency_active == residency_active(samples, Cluster::Efficiency)
        &&& self.performance_total == residency_total(samples, Cluster::Performance)
        &&& self.performance_active == residency_active(samples, Cluster::Performance)
        &&& self.cpu_microwatts == domain_power(samples, PowerDomain::Cpu)
        &&& self.gpu_microwatts == domain_power(samples, PowerDomain::Gpu)
        &&& self.ane_microwatts == domain_power(samples, PowerDomain::Ane)
        &&& self.dram_microwatts == domain_power(samples, PowerDomain::Dram)
        &&& self.total_microwatts == total_power(samples)
    }
}

/// The magnitude of an integer.
pub open spec fn magnitude(x: int) -> int {
    if x < 0 {
        -x
    } else {
        x
    }
}

/// Adds up the readings of one interval in a single pass.
///
/// Readings that belong to no known group, cluster or domain are passed over. The sums
/// are exact: no number of `i64` readings that a vector can hold leaves the range of
/// the 128-bit totals.
pub fn aggregate_channels(samples: &Vec<IOReportSample>) -> (totals: ChannelTotals)
    ensures
        totals.summarises(samples.deep_view()),
        totals.efficiency_active <= totals.efficiency_total,
        totals.performance_active <= totals.performance_total,
        totals.total_microwatts == totals.cpu_microwatts + totals.gpu_microwatts
            + totals.ane_microwatts + totals.dram_microwatts,
{
    let patterns = Patterns::new();
    let ghost views = samples.deep_view();
    let mut efficiency_total: u128 = 0;
    let mut efficiency_active: u128 = 0;
    let mut performance_total: u128 = 0;
    let mut performance_active: u128 = 0;
    let mut cpu: i128 = 0;
    let mut gpu: i128 = 0;
    let mut ane: i128 = 0;
    let mut dram: i128 = 0;
    let n: usize = samples.len();
    let mut i: usize = 0;
    proof {
        assert(views.take(0) =~= Seq::<IOReportSampleView>::empty());
    }
    while i < n
        invariant
            patterns.well_formed(),
            views == samples.deep_view(),
            n == samples.len(),
            i <= n,
            efficiency_total == residency_total(views.take(i as int), Cluster::Efficiency),
            efficiency_active == residency_active(views.take(i as int), Cluster::Efficiency),
            performance_total == residency_total(views.take(i as int), Cluster::Performance),
            performance_active == residency_active(views.take(i as int), Cluster::Performance),
            cpu == domain_power(views.take(i as int), PowerDomain::Cpu),
            gpu == domain_power(views.take(i as int), PowerDomain::Gpu),
            ane == domain_power(views.take(i as int), PowerDomain::Ane),
            dram == domain_power(views.take(i as int), PowerDomain::Dram),
        decreases n - i,
    {
        let sample = &samples[i];
        proof {
            let counted = views.take(i + 1);
            lemma_groups_differ();
            assert(counted.drop_last() =~= views.take(i as int));
            assert(counted.last() == sample@);
            lemma_residency_bounded(counted, Cluster::Efficiency);
            lemma_residency_bounded(counted, Cluster::Performance);
            lemma_residency_fits(counted, Cluster::Efficiency);
            lemma_residency_fits(counted, Cluster::Performance);
            lemma_power_fits(counted);
        }
        match classify_with(&patterns, sample) {
            Booking::Residency { cluster, idle } => {
                let amount: u128 = if sample.value > 0 {
                    sample.value as u128
                } else {
                    0
                };
                match cluster {
                    Cluster::Efficiency => {
                        efficiency_total = efficiency_total + amount;
                        if !idle {
                            efficiency_active = efficiency_active + amount;
                        }
                    },
                    Cluster::Performance => {
                        performance_total = performance_total + amount;
                        if !idle {
                            performance_active = performance_active + amount;
                        }
                    },
                }
            },
            Booking::Energy { domain } => {
                let value: i128 = sample.value as i128;
                match domain {
                    PowerDomain::Cpu => {
                        cpu = cpu + value;
                    },
                    PowerDomain::Gpu => {
                        gpu = gpu + value;
                    },
                    PowerDomain::Ane => {
                        ane = ane + value;
                    },
                    PowerDomain::Dram => {
                        dram = dram + value;
                    },
                }
            },
            Booking::Ignored => {},
        }
        i = i + 1;
    }
    proof {
        assert(views.take(n as int) =~= views);
        lemma_residency_bounded(views, Cluster::Efficiency);
        lemma_residency_bounded(views, Cluster::Performance);
        lemma_power_fits(views);
    }
    ChannelTotals {
        efficiency_total,
        efficiency_active,
        performance_total,
        performance_active,
        cpu_microwatts: cpu,
        gpu_microwatts: gpu,
        ane_microwatts: ane,
        dram_microwatts: dram,
        total_microwatts: cpu + gpu + ane + dram,
    }
}

/// The entry of a cluster that was active for `active_ppm` of the interval.
///
/// A share above the whole counts as the whole, and the idle share is what is left.
/// Neither frequency nor power is known per cluster: both read zero.
pub open spec fn cluster_view(cluster: Cluster, active_ppm: u32) -> CpuClusterMetricsView {
    let active = if active_ppm <= FULL_SCALE_PPM {
        active_ppm
    } else {
        FULL_SCALE_PPM
    };
    CpuClusterMetricsView {
        name: cluster.label(),
        freq_mhz: 0,
        freq_max_mhz: 0,
        active_ppm: active,
        idle_ppm: (FULL_SCALE_PPM - active) as u32,
        power_microwatts: 0,
    }
}

/// What a cluster contributes to the list: one entry where it has any residency, and
/// none where it has not. No data means no entry, never an entry of zeros.
pub open spec fn cluster_entry(cluster: Cluster, active: nat, total: nat) -> Seq<
    CpuClusterMetricsView,
> {
    if total > 0 {
        seq![cluster_view(cluster, ratio_ppm_spec(active as int, total as int) as u32)]
    } else {
        Seq::empty()
    }
}

/// The clusters measured in one interval: efficiency first, then performance.
pub open spec fn measured_clusters(samples: Seq<IOReportSampleView>) -> Seq<CpuClusterMetricsView> {
    cluster_entry(
        Cluster::Efficiency,
        residency_active(samples, Cluster::Efficiency),
        residency_total(samples, Cluster::Efficiency),
    ) + cluster_entry(
        Cluster::Performance,
        residency_active(samples, Cluster::Performance),
        residency_total(samples, Cluster::Performance),
    )
}

/// Builds the entry of a cluster that was active for `active_ppm` of the interval.
pub fn cluster_metrics(cluster: Cluster, active_ppm: u32) -> (metrics: CpuClusterMetrics)
    ensures
        metrics@ == cluster_view(cluster, active_ppm),
        metrics@.shares_complement(),
{
    let active: u32 = if active_ppm <= FULL_SCALE_PPM {
        active_ppm
    } else {
        FULL_SCALE_PPM
    };
    CpuClusterMetrics {
        name: cluster.name().to_owned(),
        freq_mhz: 0,
        freq_max_mhz: 0,
        active_ppm: active,
        idle_ppm: FULL_SCALE_PPM - active,
        power_microwatts: 0,
    }
}

/// Lists the clusters that have residency, with their active and idle shares.
pub fn measured_cluster_list(totals: &ChannelTotals) -> (clusters: Vec<CpuClusterMetrics>)
    ensures
        clusters.deep_view() == cluster_entry(
            Cluster::Efficiency,
            totals.efficiency_active as nat,
            totals.efficiency_total as nat,
        ) + cluster_entry(
            Cluster::Performance,
            totals.performance_active as nat,
            totals.performance_total as nat,
        ),
{
    let mut clusters: Vec<CpuClusterMetrics> = Vec::new();
    match ratio_ppm(totals.efficiency_active, totals.efficiency_total) {
        Some(active_ppm) => {
            clusters.push(cluster_metrics(Cluster::Efficiency, active_ppm));
        },
        None => {},
    }
    let ghost efficiency = clusters.deep_view();
    match ratio_ppm(totals.performance_active, totals.performance_total) {
        Some(active_ppm) => {
            clusters.push(cluster_metrics(Cluster::Performance, active_ppm));
        },
        None => {},
    }
    proof {
        let efficiency_entry = cluster_entry(
            Cluster::Efficiency,
            totals.efficiency_active as nat,
            totals.efficiency_total as nat,
        );
        let performance_entry = cluster_entry(
            Cluster::Performance,
            totals.performance_active as nat,
            totals.performance_total as nat,
        );
        assert(efficiency =~= efficiency_entry);
        assert(clusters.deep_view() =~= efficiency_entry + performance_entry);
    }
    clusters
}

/// The share of a counter in a total is never negative and never above the whole.
pub proof fn lemma_ratio_within_scale(active: int, total: int)
    requires
        0 <= active,
        0 < total,
    ensures
        0 <= ratio_ppm_spec(active, total) <= FULL_SCALE_PPM,
{
    assert(active * FULL_SCALE_PPM >= 0) by (nonlinear_arith)
        requires
            active >= 0,
    ;
    lemma_quotient_at_least(active * FULL_SCALE_PPM, total, 0);
}

/// In every entry of a cluster the active share is within the scale, and the idle
/// share is what is left of the whole.
pub proof fn lemma_cluster_entry_shares(cluster: Cluster, active: nat, total: nat)
    ensures
        forall|i: int|
            0 <= i < cluster_entry(cluster, active, total).len() ==> (#[trigger] cluster_entry(
                cluster,
                active,
                total,
            )[i]).shares_complement(),
{
    if total > 0 {
        lemma_ratio_within_scale(active as int, total as int);
    }
}

/// In every measured cluster the active and idle shares add up to the whole.
pub proof fn lemma_measured_clusters_shares(samples: Seq<IOReportSampleView>)
    ensures
        forall|i: int|
            0 <= i < measured_clusters(samples).len() ==> (#[trigger] measured_clusters(
                samples,
            )[i]).shares_complement(),
{
    lemma_cluster_entry_shares(
        Cluster::Efficiency,
        residency_active(samples, Cluster::Efficiency),
        residency_total(samples, Cluster::Efficiency),
    );
    lemma_cluster_entry_shares(
        Cluster::Performance,
        residency_active(samples, Cluster::Performance),
        residency_total(samples, Cluster::Performance),
    );
}

/// The residency out of idle is part of the residency over all states, and no reading
/// adds more than the largest `i64`.
pub proof fn lemma_residency_bounded(samples: Seq<IOReportSampleView>, cluster: Cluster)
    ensures
        residency_active(samples, cluster) <= residency_total(samples, cluster) <= samples.len()
            * 0x7fff_ffff_ffff_ffff,
    decreases samples.len(),
{
    if samples.len() > 0 {
        lemma_residency_bounded(samples.drop_last(), cluster);
        assert(samples.len() * 0x7fff_ffff_ffff_ffff == (samples.len() - 1) * 0x7fff_ffff_ffff_ffff
            + 0x7fff_ffff_ffff_ffff) by (nonlinear_arith);
    }
}

/// The residency of as many readings as a vector can hold is within the range of `u128`.
pub proof fn lemma_residency_fits(samples: Seq<IOReportSampleView>, cluster: Cluster)
    requires
        samples.len() <= usize::MAX,
    ensures
        residency_active(samples, cluster) <= residency_total(samples, cluster) <= u128::MAX,
{
    lemma_residency_bounded(samples, cluster);
    assert(samples.len() * 0x7fff_ffff_ffff_ffff <= 0xffff_ffff_ffff_ffff * 0x7fff_ffff_ffff_ffff)
        by (nonlinear_arith)
        requires
            samples.len() <= 0xffff_ffff_ffff_ffff,
    ;
}

/// The magnitudes of the four domains together grow by at most the magnitude of the
/// smallest `i64` with each reading: a reading is booked to one domain at most.
pub proof fn lemma_power_bounded(samples: Seq<IOReportSampleView>)
    ensures
        magnitude(domain_power(samples, PowerDomain::Cpu)) + magnitude(
            domain_power(samples, PowerDomain::Gpu),
        ) + magnitude(domain_power(samples, PowerDomain::Ane)) + magnitude(
            domain_power(samples, PowerDomain::Dram),
        ) <= samples.len() * 0x8000_0000_0000_0000,
        magnitude(total_power(samples)) <= samples.len() * 0x8000_0000_0000_0000,
    decreases samples.len(),
{
    if samples.len() > 0 {
        lemma_power_bounded(samples.drop_last());
        assert(samples.len() * 0x8000_0000_0000_0000 == (samples.len() - 1) * 0x8000_0000_0000_0000
            + 0x8000_0000_0000_0000) by (nonlinear_arith);
    }
}

/// The totals of as many readings as a vector can hold are within the range of `i128`,
/// and so is every sum of some of the four domains.
pub proof fn lemma_power_fits(samples: Seq<IOReportSampleView>)
    requires
        samples.len() <= usize::MAX,
    ensures
        magnitude(domain_power(samples, PowerDomain::Cpu)) + magnitude(
            domain_power(samples, PowerDomain::Gpu),
        ) + magnitude(domain_power(samples, PowerDomain::Ane)) + magnitude(
            domain_power(samples, PowerDomain::Dram),
        ) <= i128::MAX,
        i128::MIN <= domain_power(samples, PowerDomain::Cpu) <= i128::MAX,
        i128::MIN <= domain_power(samples, PowerDomain::Gpu) <= i128::MAX,
        i128::MIN <= domain_power(samples, PowerDomain::Ane) <= i128::MAX,
        i128::MIN <= domain_power(samples, PowerDomain::Dram) <= i128::MAX,
        i128::MIN <= total_power(samples) <= i128::MAX,
{
    lemma_power_bounded(samples);
    assert(samples.len() * 0x8000_0000_0000_0000 <= 0xffff_ffff_ffff_ffff * 0x8000_0000_0000_0000)
        by (nonlinear_arith)
        requires
            samples.len() <= 0xffff_ffff_ffff_ffff,
    ;
}

/// A reading that the aggregator does not know adds nothing, wherever it stands among
/// the others: without it every residency and every power figure is the same.
pub proof fn lemma_ignored_reading_adds_nothing(samples: Seq<IOReportSampleView>, index: int)
    requires
        0 <= index < samples.len(),
        booking_of(samples[index]) == Booking::Ignored,
    ensures
        forall|cluster: Cluster|
            residency_total(samples.remove(index), cluster) == #[trigger] residency_total(
                samples,
                cluster,
            ),
        forall|cluster: Cluster|
            residency_active(samples.remove(index), cluster) == #[trigger] residency_active(
                samples,
                cluster,
            ),
        forall|domain: PowerDomain|
            domain_power(samples.remove(index), domain) == #[trigger] domain_power(samples, domain),
        total_power(samples.remove(index)) == total_power(samples),
        measured_clusters(samples.remove(index)) == measured_clusters(samples),
    decreases samples.len(),
{
    let without = samples.remove(index);
    assert(residency_cluster(samples[index]) is None);
    assert(energy_domain(samples[index]) is None);
    if index == samples.len() - 1 {
        assert(without =~= samples.drop_last());
    } else {
        lemma_ignored_reading_adds_nothing(samples.drop_last(), index);
        assert(without.drop_last() =~= samples.drop_last().remove(index));
        assert(without.last() == samples.last());
    }
    assert(domain_power(without, PowerDomain::Cpu) == domain_power(samples, PowerDomain::Cpu));
    assert(domain_power(without, PowerDomain::Gpu) == domain_power(samples, PowerDomain::Gpu));
    assert(domain_power(without, PowerDomain::Ane) == domain_power(samples, PowerDomain::Ane));
    assert(domain_power(without, PowerDomain::Dram) == domain_power(samples, PowerDomain::Dram));
    assert(residency_total(without, Cluster::Efficiency) == residency_total(
        samples,
        Cluster::Efficiency,
    ));
    assert(residency_total(without, Cluster::Performance) == residency_total(
        samples,
        Cluster::Performance,
    ));
    assert(residency_active(without, Cluster::Efficiency) == residency_active(
        samples,
        Cluster::Efficiency,
    ));
    assert(residency_active(without, Cluster::Performance) == residency_active(
        samples,
        Cluster::Performance,
    ));
}

/// Every reading has the value zero.
pub open spec fn all_quiet(samples: Seq<IOReportSampleView>) -> bool {
    forall|i: int| 0 <= i < samples.len() ==> (#[trigger] samples[i]).value == 0
}

/// Readings that are all zero add up to nothing: no residency in either cluster and
/// no power in any domain.
pub proof fn lemma_quiet_channels(samples: Seq<IOReportSampleView>)
    requires
        all_quiet(samples),
    ensures
        forall|cluster: Cluster| #[trigger] residency_total(samples, cluster) == 0,
        forall|cluster: Cluster| #[trigger] residency_active(samples, cluster) == 0,
        forall|domain: PowerDomain| #[trigger] domain_power(samples, domain) == 0,
        total_power(samples) == 0,
        measured_clusters(samples).len() == 0,
    decreases samples.len(),
{
    if samples.len() > 0 {
        let before = samples.drop_last();
        assert(all_quiet(before)) by {
            assert forall|i: int| 0 <= i < before.len() implies (#[trigger] before[i]).value
                == 0 by {
                assert(samples[i].value == 0);
            }
        }
        lemma_quiet_channels(before);
        assert(samples[samples.len() - 1].value == 0);
    }
}

/// The two group names are different texts.
proof fn lemma_groups_differ()
    ensures
        "CPU Stats"@ != "Energy Model"@,
{
    reveal_strlit("CPU Stats");
    reveal_strlit("Energy Model");
    assert("CPU Stats"@.len() == 9);
    assert("Energy Model"@.len() == 12);
}

/// A dividend of at least `floor * divisor` has a quotient of at least `floor`.
proof fn lemma_quotient_at_least(dividend: int, divisor: int, floor: int)
    requires
        divisor > 0,
        dividend >= floor * divisor,
    ensures
        dividend / divisor >= floor,
{
    vstd::arithmetic::div_mod::lemma_fundamental_div_mod(dividend, divisor);
    vstd::arithmetic::div_mod::lemma_mod_bound(dividend, divisor);
    let q = dividend / divisor;
    if q < floor {
        assert(divisor * q + dividend % divisor < floor * divisor) by (nonlinear_arith)
            requires
                q < floor,
                0 <= dividend % divisor < divisor,
        ;
    }
}

} // verus!
