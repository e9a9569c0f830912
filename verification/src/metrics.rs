//! The sampling engine: one snapshot per tick from the readings of that tick and
//! what the engine remembers of the tick before.

use vstd::prelude::*;
use crate::channels::{
    aggregate_channels, all_quiet, cluster_metrics, cluster_view, domain_power,
    lemma_measured_clusters_shares, lemma_power_fits, lemma_quiet_channels,
    measured_cluster_list, measured_clusters, total_power, Cluster, PowerDomain,
};
use crate::sources::disk::{
    disk_metrics, lemma_first_sample_lists_nothing, lemma_repeated_sample_has_no_rate,
    snapshot_map, DiskReading, DiskReadingView, DiskSnapshot, DiskStats,
};
use crate::sources::ioreport::{IOReportSample, IOReportSampleView};
use crate::sources::memory::{
    memory_metrics, memory_state_after, MemoryStats, MemoryStatsView, VmCounters,
};
use crate::sources::sysctl::{SysctlInfo, SysctlInfoView};
use crate::types::{
    AllMetrics, AllMetricsView, AneMetrics, CpuClusterMetrics, CpuClusterMetricsView, GpuMetrics,
    SystemMetrics, ThermalPressure,
};

verus! {

/// Nanoseconds in one millisecond.
pub const NANOS_PER_MILLI: u64 = 1_000_000;

/// Everything that is read from the machine for one tick.
#[derive(Debug, Clone)]
pub struct RawReadings {
    /// A monotonic clock, in nanoseconds since any fixed moment.
    pub now_ns: u64,
    /// The wall clock, in milliseconds since the Unix epoch.
    pub timestamp_ms: u64,
    pub vm: VmCounters,
    /// Swap space in use, in bytes.
    pub swap_used_bytes: u64,
    /// Swap space in total, in bytes.
    pub swap_total_bytes: u64,
    /// The kernel's memory pressure level, where it could be read.
    pub memory_pressure_level: Option<i32>,
    /// The cumulative counters of every disk device found.
    pub disks: Vec<DiskReading>,
    /// The channel readings of the interval, or `None` where there is no channel source.
    pub channels: Option<Vec<IOReportSample>>,
    /// The kernel's thermal pressure level, where it could be read.
    pub thermal_level: Option<i32>,
}

/// The mathematical content of a [`RawReadings`].
pub ghost struct RawReadingsView {
    pub now_ns: u64,
    pub timestamp_ms: u64,
    pub vm: VmCounters,
    pub swap_used_bytes: u64,
    pub swap_total_bytes: u64,
    pub memory_pressure_level: Option<i32>,
    pub disks: Seq<DiskReadingView>,
    pub channels: Option<Seq<IOReportSampleView>>,
    pub thermal_level: Option<i32>,
}

/// The channel readings as mathematical values.
pub open spec fn channels_view(channels: Option<Vec<IOReportSample>>) -> Option<
    Seq<IOReportSampleView>,
> {
    match channels {
        Some(samples) => Some(samples.deep_view()),
        None => None,
    }
}

impl View for RawReadings {
    type V = RawReadingsView;

    open spec fn view(&self) -> RawReadingsView {
        RawReadingsView {
            now_ns: self.now_ns,
            timestamp_ms: self.timestamp_ms,
            vm: self.vm,
            swap_used_bytes: self.swap_used_bytes,
            swap_total_bytes: self.swap_total_bytes,
            memory_pressure_level: self.memory_pressure_level,
            disks: self.disks.deep_view(),
            channels: channels_view(self.channels),
            thermal_level: self.thermal_level,
        }
    }
}

/// The thermal state that a reading of the kernel's level variable stands for.
///
/// No reading, or a value that is not a known level, reads as nominal.
pub open spec fn thermal_of_level(level: Option<i32>) -> ThermalPressure {
    match level {
        Some(1) => ThermalPressure::Moderate,
        Some(2) => ThermalPressure::Heavy,
        Some(3) => ThermalPressure::Critical,
        Some(4) => ThermalPressure::Sleeping,
        _ => ThermalPressure::Nominal,
    }
}

/// The entry that stands for a tier of cores of which nothing was measured: present
/// where the machine has such cores, idle throughout.
pub open spec fn placeholder_entry(cluster: Cluster, cores: u32) -> Seq<CpuClusterMetricsView> {
    if cores > 0 {
        seq![cluster_view(cluster, 0)]
    } else {
        Seq::empty()
    }
}

/// The cluster list where no residency was measured: its shape is that of the host.
pub open spec fn placeholder_clusters(info: SysctlInfoView) -> Seq<CpuClusterMetricsView> {
    placeholder_entry(Cluster::Efficiency, info.cpu_cores_eff) + placeholder_entry(
        Cluster::Performance,
        info.cpu_cores_perf,
    )
}

/// The cluster list of a tick: the measured clusters, or placeholders where there are
/// none.
pub open spec fn cpu_clusters(
    channels: Option<Seq<IOReportSampleView>>,
    info: SysctlInfoView,
) -> Seq<CpuClusterMetricsView> {
    let measured = match channels {
        Some(samples) => measured_clusters(samples),
        None => Seq::empty(),
    };
    if measured.len() > 0 {
        measured
    } else {
        placeholder_clusters(info)
    }
}

/// The GPU figures of a tick. Its power is the sum of the readings booked to it, the
/// same figure that the system section gives for the domain.
pub open spec fn gpu_metrics(channels: Option<Seq<IOReportSampleView>>) -> GpuMetrics {
    match channels {
        Some(samples) => GpuMetrics {
            freq_mhz: 0,
            freq_max_mhz: 0,
            active_ppm: 0,
            power_microwatts: domain_power(samples, PowerDomain::Gpu) as i128,
        },
        None => GpuMetrics::zero(),
    }
}

/// The neural engine's figures of a tick. Its power is the sum of the readings booked
/// to it, the same figure that the system section gives for the domain.
pub open spec fn ane_metrics(channels: Option<Seq<IOReportSampleView>>) -> AneMetrics {
    match channels {
        Some(samples) => AneMetrics {
            power_microwatts: domain_power(samples, PowerDomain::Ane) as i128,
        },
        None => AneMetrics { power_microwatts: 0 },
    }
}

/// The system figures of a tick: power per domain, their sum, and the thermal state.
pub open spec fn system_metrics(
    channels: Option<Seq<IOReportSampleView>>,
    thermal_level: Option<i32>,
) -> SystemMetrics {
    match channels {
        Some(samples) => SystemMetrics {
            total_power_microwatts: total_power(samples) as i128,
            cpu_power_microwatts: domain_power(samples, PowerDomain::Cpu) as i128,
            gpu_power_microwatts: domain_power(samples, PowerDomain::Gpu) as i128,
            ane_power_microwatts: domain_power(samples, PowerDomain::Ane) as i128,
            dram_power_microwatts: domain_power(samples, PowerDomain::Dram) as i128,
            thermal_pressure: thermal_of_level(thermal_level),
        },
        None => SystemMetrics {
            total_power_microwatts: 0,
            cpu_power_microwatts: 0,
            gpu_power_microwatts: 0,
            ane_power_microwatts: 0,
            dram_power_microwatts: 0,
            thermal_pressure: thermal_of_level(thermal_level),
        },
    }
}

/// The time between two readings of the monotonic clock; none if it ran backwards.
pub open spec fn elapsed_ns(last_ns: u64, now_ns: u64) -> u64 {
    if now_ns >= last_ns {
        (now_ns - last_ns) as u64
    } else {
        0
    }
}

/// The engine: the state of each source and the time of the last tick.
pub struct MetricsCollector {
    memory_stats: MemoryStats,
    disk_stats: DiskStats,
    sysctl_info: SysctlInfo,
    last_sample_ns: u64,
    interval_ms: u64,
    first: bool,
}

/// The mathematical content of a [`MetricsCollector`].
pub ghost struct MetricsCollectorView {
    pub memory: MemoryStatsView,
    pub disks: Map<Seq<char>, DiskSnapshot>,
    pub info: SysctlInfoView,
    pub last_sample_ns: u64,
    /// The interval that the caller means to tick at. No figure depends on it.
    pub interval_ms: u64,
    /// No tick was taken yet: the next snapshot has nothing to compare with.
    pub first: bool,
}

impl View for MetricsCollector {
    type V = MetricsCollectorView;

    closed spec fn view(&self) -> MetricsCollectorView {
        MetricsCollectorView {
            memory: self.memory_stats@,
            disks: self.disk_stats@,
            info: self.sysctl_info@,
            last_sample_ns: self.last_sample_ns,
            interval_ms: self.interval_ms,
            first: self.first,
        }
    }
}

/// The engine as it is right after construction at time `now_ns`.
pub open spec fn initial_state(
    interval_ms: u64,
    info: SysctlInfoView,
    now_ns: u64,
) -> MetricsCollectorView {
    MetricsCollectorView {
        memory: MemoryStatsView {
            page_size: info.page_size,
            total_memory: info.physical_memory,
            prev_pageins: 0,
            prev_pageouts: 0,
            prev_faults: 0,
        },
        disks: Map::empty(),
        info,
        last_sample_ns: now_ns,
        interval_ms,
        first: true,
    }
}

/// The snapshot of a tick, from the engine's state before it and the tick's readings.
///
/// Every rate is over the time that really passed since the tick before.
pub open spec fn snapshot(
    state: MetricsCollectorView,
    readings: RawReadingsView,
) -> AllMetricsView {
    let elapsed = elapsed_ns(state.last_sample_ns, readings.now_ns);
    AllMetricsView {
        timestamp_ms: readings.timestamp_ms,
        interval_ms: elapsed / NANOS_PER_MILLI,
        memory: memory_metrics(
            state.memory,
            readings.vm,
            (readings.swap_used_bytes, readings.swap_total_bytes),
            readings.memory_pressure_level,
        ),
        cpu_clusters: cpu_clusters(readings.channels, state.info),
        gpu: gpu_metrics(readings.channels),
        ane: ane_metrics(readings.channels),
        disks: disk_metrics(state.disks, readings.disks, elapsed),
        system: system_metrics(readings.channels, readings.thermal_level),
    }
}

/// The engine's state after a tick.
pub open spec fn state_after(
    state: MetricsCollectorView,
    readings: RawReadingsView,
) -> MetricsCollectorView {
    MetricsCollectorView {
        memory: memory_state_after(state.memory, readings.vm),
        disks: snapshot_map(readings.disks),
        info: state.info,
        last_sample_ns: readings.now_ns,
        interval_ms: state.interval_ms,
        first: false,
    }
}

impl MetricsCollector {
    /// Builds the engine from the static machine information, read at time `now_ns`.
    ///
    /// Without that information there is no engine: its error is handed on unchanged.
    pub fn new(
        interval_ms: u64,
        static_info: Result<SysctlInfo, String>,
        now_ns: u64,
    ) -> (collector: Result<Self, String>)
        ensures
            static_info is Ok <==> collector is Ok,
            static_info is Ok ==> collector->Ok_0@ == initial_state(
                interval_ms,
                static_info->Ok_0@,
                now_ns,
            ),
            static_info is Err ==> collector->Err_0 == static_info->Err_0,
    {
        match static_info {
            Ok(sysctl_info) => {
                let memory_stats = MemoryStats::new(
                    sysctl_info.page_size,
                    sysctl_info.physical_memory,
                );
                let disk_stats = DiskStats::new();
                Ok(
                    Self {
                        memory_stats,
                        disk_stats,
                        sysctl_info,
                        last_sample_ns: now_ns,
                        interval_ms,
                        first: true,
                    },
                )
            },
            Err(reason) => Err(reason),
        }
    }

    /// Takes the readings of one tick and returns its snapshot.
    ///
    /// Never fails: a source that gave nothing leaves its part of the snapshot empty
    /// or zero.
    pub fn collect(&mut self, readings: RawReadings) -> (metrics: AllMetrics)
        ensures
            metrics@ == snapshot(old(self)@, readings@),
            final(self)@ == state_after(old(self)@, readings@),
            metrics.memory.used_bytes <= metrics.memory.total_bytes,
            forall|i: int|
                0 <= i < metrics@.cpu_clusters.len() ==> (
                #[trigger] metrics@.cpu_clusters[i]).shares_complement(),
            metrics.system.total_is_sum(),
            metrics.gpu.power_microwatts == metrics.system.gpu_power_microwatts,
            metrics.ane.power_microwatts == metrics.system.ane_power_microwatts,
    {
        let elapsed: u64 = if readings.now_ns >= self.last_sample_ns {
            readings.now_ns - self.last_sample_ns
        } else {
            0
        };
        self.last_sample_ns = readings.now_ns;
        self.first = false;

        let memory = self.memory_stats.get_metrics(
            &readings.vm,
            (readings.swap_used_bytes, readings.swap_total_bytes),
            readings.memory_pressure_level,
        );
        let (cpu_clusters, gpu, ane, system) = self.collect_ioreport_metrics(
            &readings.channels,
            readings.thermal_level,
        );
        let disks = self.disk_stats.get_metrics(readings.disks, elapsed);

        AllMetrics {
            timestamp_ms: readings.timestamp_ms,
            interval_ms: elapsed / NANOS_PER_MILLI,
            memory,
            cpu_clusters,
            gpu,
            ane,
            disks,
            system,
        }
    }

    /// Aggregates the channel readings of one tick into clusters, GPU, neural engine
    /// and system figures.
    ///
    /// With no channel source, or where no cluster has any residency, the cluster list
    /// holds one idle placeholder for each tier of cores that the machine has.
    pub fn collect_ioreport_metrics(
        &self,
        channels: &Option<Vec<IOReportSample>>,
        thermal_level: Option<i32>,
    ) -> (figures: (Vec<CpuClusterMetrics>, GpuMetrics, AneMetrics, SystemMetrics))
        ensures
            figures.0.deep_view() == cpu_clusters(channels_view(*channels), self@.info),
            figures.1 == gpu_metrics(channels_view(*channels)),
            figures.2 == ane_metrics(channels_view(*channels)),
            figures.3 == system_metrics(channels_view(*channels), thermal_level),
            figures.3.total_is_sum(),
            figures.1.power_microwatts == figures.3.gpu_power_microwatts,
            figures.2.power_microwatts == figures.3.ane_power_microwatts,
            forall|i: int|
                0 <= i < figures.0.len() ==> (
                #[trigger] figures.0.deep_view()[i]).shares_complement(),
    {
        let mut cpu_clusters: Vec<CpuClusterMetrics> = Vec::new();
        let mut gpu = GpuMetrics::default();
        let mut ane = AneMetrics::default();
        let mut system = SystemMetrics::default();

        match channels {
            Some(samples) => {
                let totals = aggregate_channels(samples);
                cpu_clusters = measured_cluster_list(&totals);
                gpu.power_microwatts = totals.gpu_microwatts;
                ane.power_microwatts = totals.ane_microwatts;
                system.cpu_power_microwatts = totals.cpu_microwatts;
                system.gpu_power_microwatts = totals.gpu_microwatts;
                system.ane_power_microwatts = totals.ane_microwatts;
                system.dram_power_microwatts = totals.dram_microwatts;
                system.total_power_microwatts = totals.total_microwatts;
            },
            None => {
                assert(cpu_clusters.deep_view() =~= Seq::<CpuClusterMetricsView>::empty());
            },
        }

        if cpu_clusters.len() == 0 {
            if self.sysctl_info.cpu_cores_eff > 0 {
                cpu_clusters.push(cluster_metrics(Cluster::Efficiency, 0));
            }
            let ghost efficiency = cpu_clusters.deep_view();
            if self.sysctl_info.cpu_cores_perf > 0 {
                cpu_clusters.push(cluster_metrics(Cluster::Performance, 0));
            }
            proof {
                let info = self@.info;
                assert(efficiency =~= placeholder_entry(Cluster::Efficiency, info.cpu_cores_eff));
                assert(cpu_clusters.deep_view() =~= placeholder_clusters(info));
            }
        }
        system.thermal_pressure = Self::get_thermal_pressure(thermal_level);

        (cpu_clusters, gpu, ane, system)
    }

    /// The thermal state that a reading of the kernel's level variable stands for.
    pub fn get_thermal_pressure(level: Option<i32>) -> (pressure: ThermalPressure)
        ensures
            pressure == thermal_of_level(level),
    {
        match level {
            Some(1) => ThermalPressure::Moderate,
            Some(2) => ThermalPressure::Heavy,
            Some(3) => ThermalPressure::Critical,
            Some(4) => ThermalPressure::Sleeping,
            _ => ThermalPressure::Nominal,
        }
    }

    /// Tells whether the next snapshot is the first of this engine.
    ///
    /// The first snapshot has no sample before it: its disk list is empty, its page
    /// activity is the whole of the counters, and its interval is the time since the
    /// engine was built. A caller shows it as a sample being taken, not as figures.
    pub fn is_first(&self) -> (first: bool)
        ensures
            first == self@.first,
    {
        self.first
    }

    /// The CPU's brand, as a description of the host.
    pub fn cpu_brand(&self) -> (brand: &str)
        ensures
            brand@ == self@.info.cpu_brand,
    {
        self.sysctl_info.cpu_brand.as_str()
    }
}

/// The first tick of an engine has nothing to compare with: its disk list is empty,
/// its page activity is all that the counters hold, and its interval is the time since
/// the engine was built.
pub proof fn lemma_first_tick(
    interval_ms: u64,
    info: SysctlInfoView,
    built_ns: u64,
    readings: RawReadingsView,
)
    ensures
        ({
            let first = snapshot(initial_state(interval_ms, info, built_ns), readings);
            &&& first.disks.len() == 0
            &&& first.memory.page_ins == readings.vm.pageins
            &&& first.memory.page_outs == readings.vm.pageouts
            &&& first.memory.page_faults == readings.vm.faults
            &&& first.interval_ms == elapsed_ns(built_ns, readings.now_ns) / NANOS_PER_MILLI
        }),
{
    lemma_first_sample_lists_nothing(readings.disks, elapsed_ns(built_ns, readings.now_ns));
}

/// Memory in use never exceeds the size of physical memory, whatever the counters say.
pub proof fn lemma_used_memory_within_total(state: MetricsCollectorView, readings: RawReadingsView)
    ensures
        0 <= snapshot(state, readings).memory.used_bytes <= snapshot(
            state,
            readings,
        ).memory.total_bytes,
{
}

/// In every cluster of a snapshot the active share is between nothing and the whole,
/// and the idle share is the rest of the whole.
pub proof fn lemma_cluster_shares_complement(state: MetricsCollectorView, readings: RawReadingsView)
    ensures
        forall|i: int|
            0 <= i < snapshot(state, readings).cpu_clusters.len() ==> (#[trigger] snapshot(
                state,
                readings,
            ).cpu_clusters[i]).shares_complement(),
{
    match readings.channels {
        Some(samples) => {
            lemma_measured_clusters_shares(samples);
        },
        None => {},
    }
}

/// The total power of a snapshot is the sum of the power of its four domains, with a
/// channel source and without one.
pub proof fn lemma_total_power_is_sum(state: MetricsCollectorView, readings: RawReadingsView)
    requires
        readings.channels is Some ==> readings.channels->Some_0.len() <= usize::MAX,
    ensures
        snapshot(state, readings).system.total_is_sum(),
{
    match readings.channels {
        Some(samples) => {
            lemma_power_fits(samples);
        },
        None => {},
    }
}

/// The GPU and the neural engine have one power figure each: their own sections give
/// what the system section gives for their domains, the sum of all their readings.
pub proof fn lemma_sections_give_domain_power(
    state: MetricsCollectorView,
    readings: RawReadingsView,
)
    ensures
        snapshot(state, readings).gpu.power_microwatts == snapshot(
            state,
            readings,
        ).system.gpu_power_microwatts,
        snapshot(state, readings).ane.power_microwatts == snapshot(
            state,
            readings,
        ).system.ane_power_microwatts,
        readings.channels is Some ==> snapshot(state, readings).gpu.power_microwatts
            == domain_power(readings.channels->Some_0, PowerDomain::Gpu) as i128,
        readings.channels is Some ==> snapshot(state, readings).ane.power_microwatts
            == domain_power(readings.channels->Some_0, PowerDomain::Ane) as i128,
{
}

/// Without a channel source no power is reported anywhere, and the cluster list holds
/// the idle placeholders that the core counts of the host call for.
pub proof fn lemma_without_channel_source(state: MetricsCollectorView, readings: RawReadingsView)
    requires
        readings.channels is None,
    ensures
        snapshot(state, readings).cpu_clusters == placeholder_clusters(state.info),
        snapshot(state, readings).cpu_clusters.len() == (if state.info.cpu_cores_eff > 0 {
            1int
        } else {
            0int
        }) + (if state.info.cpu_cores_perf > 0 {
            1int
        } else {
            0int
        }),
        forall|i: int|
            0 <= i < snapshot(state, readings).cpu_clusters.len() ==> {
                let cluster = #[trigger] snapshot(state, readings).cpu_clusters[i];
                cluster.power_microwatts == 0 && cluster.active_ppm == 0
            },
        snapshot(state, readings).system.total_power_microwatts == 0,
        snapshot(state, readings).system.cpu_power_microwatts == 0,
        snapshot(state, readings).system.gpu_power_microwatts == 0,
        snapshot(state, readings).system.ane_power_microwatts == 0,
        snapshot(state, readings).system.dram_power_microwatts == 0,
        snapshot(state, readings).gpu.power_microwatts == 0,
        snapshot(state, readings).ane.power_microwatts == 0,
{
}

/// A tick whose counters are those of the tick before shows no activity: no page
/// events, no disk rate, no power, and no cluster out of idle. Only the timestamp and
/// the interval tell the two snapshots apart.
///
/// The counters of memory and disks are cumulative, so no change means equal
/// readings; the channel readings are activity per interval, so no change means
/// readings of zero.
pub proof fn lemma_repeated_tick_is_quiet(
    state: MetricsCollectorView,
    first: RawReadingsView,
    second: RawReadingsView,
)
    requires
        second.vm == first.vm,
        second.disks == first.disks,
        second.channels is Some ==> all_quiet(second.channels->Some_0),
    ensures
        ({
            let repeated = snapshot(state_after(state, first), second);
            &&& repeated.memory.page_ins == 0
            &&& repeated.memory.page_outs == 0
            &&& repeated.memory.page_faults == 0
            &&& forall|k: int|
                0 <= k < repeated.disks.len() ==> {
                    let disk = #[trigger] repeated.disks[k];
                    &&& disk.read_bytes_per_sec == 0
                    &&& disk.write_bytes_per_sec == 0
                    &&& disk.read_ops_per_sec == 0
                    &&& disk.write_ops_per_sec == 0
                }
            &&& forall|i: int|
                0 <= i < repeated.cpu_clusters.len() ==> {
                    let cluster = #[trigger] repeated.cpu_clusters[i];
                    cluster.active_ppm == 0 && cluster.power_microwatts == 0
                }
            &&& repeated.gpu.power_microwatts == 0
            &&& repeated.ane.power_microwatts == 0
            &&& repeated.system.total_power_microwatts == 0
            &&& repeated.system.cpu_power_microwatts == 0
            &&& repeated.system.gpu_power_microwatts == 0
            &&& repeated.system.ane_power_microwatts == 0
            &&& repeated.system.dram_power_microwatts == 0
        }),
{
    let elapsed = elapsed_ns(first.now_ns, second.now_ns);
    lemma_repeated_sample_has_no_rate(first.disks, elapsed);
    match second.channels {
        Some(samples) => {
            lemma_quiet_channels(samples);
            assert(domain_power(samples, PowerDomain::Cpu) == 0);
            assert(domain_power(samples, PowerDomain::Gpu) == 0);
            assert(domain_power(samples, PowerDomain::Ane) == 0);
            assert(domain_power(samples, PowerDomain::Dram) == 0);
        },
        None => {},
    }
}

} // verus!
