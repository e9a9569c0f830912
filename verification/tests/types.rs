use bustop::types::{
    AllMetrics, AneMetrics, CpuClusterMetrics, DiskMetrics, GpuMetrics, MemoryMetrics,
    MemoryPressure, SystemMetrics, ThermalPressure, FULL_SCALE_PPM, MICROWATTS_PER_WATT,
};

#[test]
fn memory_pressure_names() {
    assert_eq!(MemoryPressure::Normal.as_str(), "normal");
    assert_eq!(MemoryPressure::Warn.as_str(), "warn");
    assert_eq!(MemoryPressure::Critical.as_str(), "critical");
}

#[test]
fn thermal_pressure_names() {
    assert_eq!(ThermalPressure::Nominal.as_str(), "nominal");
    assert_eq!(ThermalPressure::Moderate.as_str(), "moderate");
    assert_eq!(ThermalPressure::Heavy.as_str(), "heavy");
    assert_eq!(ThermalPressure::Critical.as_str(), "critical");
    assert_eq!(ThermalPressure::Sleeping.as_str(), "sleeping");
}

#[test]
fn default_levels() {
    assert_eq!(MemoryPressure::default(), MemoryPressure::Normal);
    assert_eq!(ThermalPressure::default(), ThermalPressure::Nominal);
}

#[test]
fn scales() {
    assert_eq!(FULL_SCALE_PPM, 1_000_000);
    assert_eq!(MICROWATTS_PER_WATT, 1_000_000);
}

#[test]
fn default_memory_metrics_are_zero() {
    let m = MemoryMetrics::default();
    assert_eq!(m.total_bytes, 0);
    assert_eq!(m.used_bytes, 0);
    assert_eq!(m.free_bytes, 0);
    assert_eq!(m.active_bytes, 0);
    assert_eq!(m.wired_bytes, 0);
    assert_eq!(m.compressed_bytes, 0);
    assert_eq!(m.swap_used_bytes, 0);
    assert_eq!(m.swap_total_bytes, 0);
    assert_eq!(m.page_ins, 0);
    assert_eq!(m.page_outs, 0);
    assert_eq!(m.page_faults, 0);
    assert_eq!(m.pressure, MemoryPressure::Normal);
}

#[test]
fn default_cluster_and_disk_metrics_are_empty() {
    let c = CpuClusterMetrics::default();
    assert_eq!(c.name, "");
    assert_eq!(c.freq_mhz, 0);
    assert_eq!(c.freq_max_mhz, 0);
    assert_eq!(c.active_ppm, 0);
    assert_eq!(c.idle_ppm, 0);
    assert_eq!(c.power_microwatts, 0);
    let d = DiskMetrics::default();
    assert_eq!(d.name, "");
    assert_eq!(d.read_bytes_per_sec, 0);
    assert_eq!(d.write_bytes_per_sec, 0);
    assert_eq!(d.read_ops_per_sec, 0);
    assert_eq!(d.write_ops_per_sec, 0);
}

#[test]
fn default_power_figures_are_zero() {
    assert_eq!(
        GpuMetrics::default(),
        GpuMetrics { freq_mhz: 0, freq_max_mhz: 0, active_ppm: 0, power_microwatts: 0 }
    );
    assert_eq!(AneMetrics::default(), AneMetrics { power_microwatts: 0 });
    let s = SystemMetrics::default();
    assert_eq!(s.total_power_microwatts, 0);
    assert_eq!(s.cpu_power_microwatts, 0);
    assert_eq!(s.gpu_power_microwatts, 0);
    assert_eq!(s.ane_power_microwatts, 0);
    assert_eq!(s.dram_power_microwatts, 0);
    assert_eq!(s.thermal_pressure, ThermalPressure::Nominal);
}

#[test]
fn default_snapshot_is_empty() {
    let a = AllMetrics::default();
    assert_eq!(a.timestamp_ms, 0);
    assert_eq!(a.interval_ms, 0);
    assert_eq!(a.memory, MemoryMetrics::default());
    assert!(a.cpu_clusters.is_empty());
    assert_eq!(a.gpu, GpuMetrics::default());
    assert_eq!(a.ane, AneMetrics::default());
    assert!(a.disks.is_empty());
    assert_eq!(a.system, SystemMetrics::default());
}
