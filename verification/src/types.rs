//! The snapshot data model: one value of [`AllMetrics`] per sampling tick.
//!
//! Every quantity is an integer in a fixed unit. Sizes are in bytes, rates are per
//! second, power is in microwatts (the unit of the raw energy readings; a watt is a
//! thousand milliwatts, a milliwatt a thousand microwatts) and shares of an interval
//! are in parts per million, so that a fully busy cluster reads [`FULL_SCALE_PPM`].

use vstd::prelude::*;

verus! {

/// The parts-per-million value that stands for the whole: 100 percent.
pub const FULL_SCALE_PPM: u32 = 1_000_000;

/// Microwatts in one watt.
pub const MICROWATTS_PER_WATT: u32 = 1_000_000;

/// Virtual-memory pressure as the kernel reports it.
#[derive(Debug, Clone, Copy, PartialEq, Eq, Structural)]
pub enum MemoryPressure {
    Normal,
    Warn,
    Critical,
}

impl MemoryPressure {
    /// The lower-case name of the level.
    pub open spec fn label(self) -> Seq<char> {
        match self {
            MemoryPressure::Normal => "normal"@,
            MemoryPressure::Warn => "warn"@,
            MemoryPressure::Critical => "critical"@,
        }
    }

    /// The lower-case name of the level, as it is shown and exported.
    pub fn as_str(&self) -> (name: &'static str)
        ensures
            name@ == self.label(),
    {
        match self {
            MemoryPressure::Normal => "normal",
            MemoryPressure::Warn => "warn",
            MemoryPressure::Critical => "critical",
        }
    }
}

impl Default for MemoryPressure {
    fn default() -> (level: Self)
        ensures
            level == MemoryPressure::Normal,
    {
        MemoryPressure::Normal
    }
}

/// Thermal pressure as the kernel reports it.
#[derive(Debug, Clone, Copy, PartialEq, Eq, Structural)]
pub enum ThermalPressure {
    Nominal,
    Moderate,
    Heavy,
    Critical,
    Sleeping,
}

impl ThermalPressure {
    /// The lower-case name of the level.
    pub open spec fn label(self) -> Seq<char> {
        match self {
            ThermalPressure::Nominal => "nominal"@,
            ThermalPressure::Moderate => "moderate"@,
            ThermalPressure::Heavy => "heavy"@,
            ThermalPressure::Critical => "critical"@,
            ThermalPressure::Sleeping => "sleeping"@,
        }
    }

    /// The lower-case name of the level, as it is shown and exported.
    pub fn as_str(&self) -> (name: &'static str)
        ensures
            name@ == self.label(),
    {
        match self {
            ThermalPressure::Nominal => "nominal",
            ThermalPressure::Moderate => "moderate",
            ThermalPressure::Heavy => "heavy",
            ThermalPressure::Critical => "critical",
            ThermalPressure::Sleeping => "sleeping",
        }
    }
}

impl Default for ThermalPressure {
    fn default() -> (level: Self)
        ensures
            level == ThermalPressure::Nominal,
    {
        ThermalPressure::Nominal
    }
}

/// Memory figures of one tick. The page counts are activity within the interval.
#[derive(Debug, Clone, Copy, PartialEq, Eq, Structural)]
pub struct MemoryMetrics {
    pub total_bytes: u64,
    pub used_bytes: u64,
    pub free_bytes: u64,
    pub active_bytes: u64,
    pub wired_bytes: u64,
    pub compressed_bytes: u64,
    pub swap_used_bytes: u64,
    pub swap_total_bytes: u64,
    pub page_ins: u64,
    pub page_outs: u64,
    pub page_faults: u64,
    pub pressure: MemoryPressure,
}

impl MemoryMetrics {
    /// The all-zero figures with normal pressure.
    pub open spec fn zero() -> MemoryMetrics {
        MemoryMetrics {
            total_bytes: 0,
            used_bytes: 0,
            free_bytes: 0,
            active_bytes: 0,
            wired_bytes: 0,
            compressed_bytes: 0,
            swap_used_bytes: 0,
            swap_total_bytes: 0,
            page_ins: 0,
            page_outs: 0,
            page_faults: 0,
            pressure: MemoryPressure::Normal,
        }
    }
}

impl Default for MemoryMetrics {
    fn default() -> (metrics: Self)
        ensures
            metrics == MemoryMetrics::zero(),
    {
        MemoryMetrics {
            total_bytes: 0,
            used_bytes: 0,
            free_bytes: 0,
            active_bytes: 0,
            wired_bytes: 0,
            compressed_bytes: 0,
            swap_used_bytes: 0,
            swap_total_bytes: 0,
            page_ins: 0,
            page_outs: 0,
            page_faults: 0,
            pressure: MemoryPressure::Normal,
        }
    }
}

/// One CPU cluster over one interval.
#[derive(Debug, Clone)]
pub struct CpuClusterMetrics {
    pub name: String,
    /// Zero where the frequency is not known.
    pub freq_mhz: u32,
    pub freq_max_mhz: u32,
    /// Share of the interval spent out of idle, in parts per million.
    pub active_ppm: u32,
    /// What is left of the interval: never measured on its own.
    pub idle_ppm: u32,
    pub power_microwatts: i128,
}

/// The mathematical content of a [`CpuClusterMetrics`].
pub ghost struct CpuClusterMetricsView {
    pub name: Seq<char>,
    pub freq_mhz: u32,
    pub freq_max_mhz: u32,
    pub active_ppm: u32,
    pub idle_ppm: u32,
    pub power_microwatts: i128,
}

impl View for CpuClusterMetrics {
    type V = CpuClusterMetricsView;

    open spec fn view(&self) -> CpuClusterMetricsView {
        CpuClusterMetricsView {
            name: self.name@,
            freq_mhz: self.freq_mhz,
            freq_max_mhz: self.freq_max_mhz,
            active_ppm: self.active_ppm,
            idle_ppm: self.idle_ppm,
            power_microwatts: self.power_microwatts,
        }
    }
}

impl DeepView for CpuClusterMetrics {
    type V = CpuClusterMetricsView;

    open spec fn deep_view(&self) -> CpuClusterMetricsView {
        self@
    }
}

impl CpuClusterMetricsView {
    /// Active and idle shares are within the scale and add up to the whole.
    pub open spec fn shares_complement(self) -> bool {
        &&& 0 <= self.active_ppm <= FULL_SCALE_PPM
        &&& self.active_ppm + self.idle_ppm == FULL_SCALE_PPM
    }
}

impl Default for CpuClusterMetrics {
    fn default() -> (metrics: Self)
        ensures
            metrics@ == (CpuClusterMetricsView {
                name: Seq::<char>::empty(),
                freq_mhz: 0,
                freq_max_mhz: 0,
                active_ppm: 0,
                idle_ppm: 0,
                power_microwatts: 0,
            }),
    {
        CpuClusterMetrics {
            name: String::new(),
            freq_mhz: 0,
            freq_max_mhz: 0,
            active_ppm: 0,
            idle_ppm: 0,
            power_microwatts: 0,
        }
    }
}

/// The GPU over one interval.
#[derive(Debug, Clone, Copy, PartialEq, Eq, Structural)]
pub struct GpuMetrics {
    pub freq_mhz: u32,
    pub freq_max_mhz: u32,
    pub active_ppm: u32,
    pub power_microwatts: i128,
}

impl GpuMetrics {
    /// A GPU of which nothing was measured.
    pub open spec fn zero() -> GpuMetrics {
        GpuMetrics { freq_mhz: 0, freq_max_mhz: 0, active_ppm: 0, power_microwatts: 0 }
    }
}

impl Default for GpuMetrics {
    fn default() -> (metrics: Self)
        ensures
            metrics == GpuMetrics::zero(),
    {
        GpuMetrics { freq_mhz: 0, freq_max_mhz: 0, active_ppm: 0, power_microwatts: 0 }
    }
}

/// The neural engine over one interval.
#[derive(Debug, Clone, Copy, PartialEq, Eq, Structural)]
pub struct AneMetrics {
    pub power_microwatts: i128,
}

impl Default for AneMetrics {
    fn default() -> (metrics: Self)
        ensures
            metrics == (AneMetrics { power_microwatts: 0 }),
    {
        AneMetrics { power_microwatts: 0 }
    }
}

/// Throughput of one disk device over one interval.
#[derive(Debug, Clone)]
pub struct DiskMetrics {
    pub name: String,
    pub read_bytes_per_sec: u64,
    pub write_bytes_per_sec: u64,
    pub read_ops_per_sec: u64,
    pub write_ops_per_sec: u64,
}

/// The mathematical content of a [`DiskMetrics`].
pub ghost struct DiskMetricsView {
    pub name: Seq<char>,
    pub read_bytes_per_sec: u64,
    pub write_bytes_per_sec: u64,
    pub read_ops_per_sec: u64,
    pub write_ops_per_sec: u64,
}

impl View for DiskMetrics {
    type V = DiskMetricsView;

    open spec fn view(&self) -> DiskMetricsView {
        DiskMetricsView {
            name: self.name@,
            read_bytes_per_sec: self.read_bytes_per_sec,
            write_bytes_per_sec: self.write_bytes_per_sec,
            read_ops_per_sec: self.read_ops_per_sec,
            write_ops_per_sec: self.write_ops_per_sec,
        }
    }
}

impl DeepView for DiskMetrics {
    type V = DiskMetricsView;

    open spec fn deep_view(&self) -> DiskMetricsView {
        self@
    }
}

impl Default for DiskMetrics {
    fn default() -> (metrics: Self)
        ensures
            metrics@ == (DiskMetricsView {
                name: Seq::<char>::empty(),
                read_bytes_per_sec: 0,
                write_bytes_per_sec: 0,
                read_ops_per_sec: 0,
                write_ops_per_sec: 0,
            }),
    {
        DiskMetrics {
            name: String::new(),
            read_bytes_per_sec: 0,
            write_bytes_per_sec: 0,
            read_ops_per_sec: 0,
            write_ops_per_sec: 0,
        }
    }
}

/// Power per domain and the thermal state of the whole machine.
#[derive(Debug, Clone, Copy, PartialEq, Eq, Structural)]
pub struct SystemMetrics {
    pub total_power_microwatts: i128,
    pub cpu_power_microwatts: i128,
    pub gpu_power_microwatts: i128,
    pub ane_power_microwatts: i128,
    pub dram_power_microwatts: i128,
    pub thermal_pressure: ThermalPressure,
}

impl SystemMetrics {
    /// No power measured, nominal thermal state.
    pub open spec fn zero() -> SystemMetrics {
        SystemMetrics {
            total_power_microwatts: 0,
            cpu_power_microwatts: 0,
            gpu_power_microwatts: 0,
            ane_power_microwatts: 0,
            dram_power_microwatts: 0,
            thermal_pressure: ThermalPressure::Nominal,
        }
    }

    /// The total is the sum of the four domains.
    pub open spec fn total_is_sum(self) -> bool {
        self.total_power_microwatts == self.cpu_power_microwatts + self.gpu_power_microwatts
            + self.ane_power_microwatts + self.dram_power_microwatts
    }
}

impl Default for SystemMetrics {
    fn default() -> (metrics: Self)
        ensures
            metrics == SystemMetrics::zero(),
    {
        SystemMetrics {
            total_power_microwatts: 0,
            cpu_power_microwatts: 0,
            gpu_power_microwatts: 0,
            ane_power_microwatts: 0,
            dram_power_microwatts: 0,
            thermal_pressure: ThermalPressure::Nominal,
        }
    }
}

/// The snapshot of one tick.
#[derive(Debug, Clone)]
pub struct AllMetrics {
    /// Wall-clock capture time.
    pub timestamp_ms: u64,
    /// Time that really passed since the previous tick: the divisor of every rate.
    pub interval_ms: u64,
    pub memory: MemoryMetrics,
    pub cpu_clusters: Vec<CpuClusterMetrics>,
    pub gpu: GpuMetrics,
    pub ane: AneMetrics,
    pub disks: Vec<DiskMetrics>,
    pub system: SystemMetrics,
}

/// The mathematical content of an [`AllMetrics`].
pub ghost struct AllMetricsView {
    pub timestamp_ms: u64,
    pub interval_ms: u64,
    pub memory: MemoryMetrics,
    pub cpu_clusters: Seq<CpuClusterMetricsView>,
    pub gpu: GpuMetrics,
    pub ane: AneMetrics,
    pub disks: Seq<DiskMetricsView>,
    pub system: SystemMetrics,
}

impl View for AllMetrics {
    type V = AllMetricsView;

    open spec fn view(&self) -> AllMetricsView {
        AllMetricsView {
            timestamp_ms: self.timestamp_ms,
            interval_ms: self.interval_ms,
            memory: self.memory,
            cpu_clusters: self.cpu_clusters.deep_view(),
            gpu: self.gpu,
            ane: self.ane,
            disks: self.disks.deep_view(),
            system: self.system,
        }
    }
}

impl Default for AllMetrics {
    fn default() -> (metrics: Self)
        ensures
            metrics@ == (AllMetricsView {
                timestamp_ms: 0,
                interval_ms: 0,
                memory: MemoryMetrics::zero(),
                cpu_clusters: Seq::<CpuClusterMetricsView>::empty(),
                gpu: GpuMetrics::zero(),
                ane: AneMetrics { power_microwatts: 0 },
                disks: Seq::<DiskMetricsView>::empty(),
                system: SystemMetrics::zero(),
            }),
    {
        let metrics = AllMetrics {
            timestamp_ms: 0,
            interval_ms: 0,
            memory: MemoryMetrics::default(),
            cpu_clusters: Vec::new(),
            gpu: GpuMetrics::default(),
            ane: AneMetrics::default(),
            disks: Vec::new(),
            system: SystemMetrics::default(),
        };
        assert(metrics.cpu_clusters.deep_view() =~= Seq::<CpuClusterMetricsView>::empty());
        assert(metrics.disks.deep_view() =~= Seq::<DiskMetricsView>::empty());
        metrics
    }
}

} // verus!
