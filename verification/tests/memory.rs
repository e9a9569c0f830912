use bustop::sources::memory::{MemoryStats, VmCounters};
use bustop::types::MemoryPressure;

const PAGE: u64 = 16_384;
const GIB: u64 = 1 << 30;

fn counters() -> VmCounters {
    VmCounters {
        free_count: 1000,
        active_count: 2000,
        inactive_count: 1500,
        wire_count: 800,
        compressor_page_count: 300,
        speculative_count: 100,
        pageins: 10,
        pageouts: 20,
        faults: 30,
    }
}

#[test]
fn sizes_are_pages_times_page_size() {
    let mut stats = MemoryStats::new(PAGE, 16 * GIB);
    let m = stats.get_metrics(&counters(), (5, 9), Some(1));
    assert_eq!(m.total_bytes, 16 * GIB);
    assert_eq!(m.free_bytes, 1000 * PAGE);
    assert_eq!(m.active_bytes, 2000 * PAGE);
    assert_eq!(m.wired_bytes, 800 * PAGE);
    assert_eq!(m.compressed_bytes, 300 * PAGE);
    assert_eq!(m.swap_used_bytes, 5);
    assert_eq!(m.swap_total_bytes, 9);
    assert_eq!(m.pressure, MemoryPressure::Normal);
}

#[test]
fn used_memory_follows_the_formula() {
    let mut stats = MemoryStats::new(PAGE, 16 * GIB);
    let m = stats.get_metrics(&counters(), (0, 0), None);
    // active + wired + compressed + inactive - speculative
    assert_eq!(m.used_bytes, (2000 + 800 + 300 + 1500 - 100) * PAGE);
    assert_eq!(m.used_bytes, 73_728_000);
    assert!(m.used_bytes <= m.total_bytes);
}

#[test]
fn used_memory_is_not_negative() {
    let mut stats = MemoryStats::new(PAGE, 16 * GIB);
    let c = VmCounters { speculative_count: 1_000_000, ..counters() };
    let m = stats.get_metrics(&c, (0, 0), None);
    assert_eq!(m.used_bytes, 0);
    let c = VmCounters {
        active_count: 1,
        inactive_count: 1,
        wire_count: 1,
        compressor_page_count: 1,
        speculative_count: 4,
        ..counters()
    };
    let m = stats.get_metrics(&c, (0, 0), None);
    assert_eq!(m.used_bytes, 0);
    let c = VmCounters { speculative_count: 5, ..c };
    let m = stats.get_metrics(&c, (0, 0), None);
    assert_eq!(m.used_bytes, 0);
    let c = VmCounters { speculative_count: 3, ..c };
    let m = stats.get_metrics(&c, (0, 0), None);
    assert_eq!(m.used_bytes, PAGE);
}

#[test]
fn used_memory_is_not_above_total() {
    let mut stats = MemoryStats::new(PAGE, 1_000_000);
    let m = stats.get_metrics(&counters(), (0, 0), None);
    assert_eq!(m.used_bytes, 1_000_000);
    assert_eq!(m.total_bytes, 1_000_000);

    let mut stats = MemoryStats::new(PAGE, 0);
    let m = stats.get_metrics(&counters(), (0, 0), None);
    assert_eq!(m.used_bytes, 0);

    let mut stats = MemoryStats::new(PAGE, 73_728_000);
    let m = stats.get_metrics(&counters(), (0, 0), None);
    assert_eq!(m.used_bytes, 73_728_000);
    let mut stats = MemoryStats::new(PAGE, 73_727_999);
    let m = stats.get_metrics(&counters(), (0, 0), None);
    assert_eq!(m.used_bytes, 73_727_999);
}

#[test]
fn sizes_that_do_not_fit_are_held_at_the_largest_value() {
    let mut stats = MemoryStats::new(u64::MAX, u64::MAX);
    let c = VmCounters {
        free_count: 2,
        active_count: u32::MAX,
        inactive_count: u32::MAX,
        wire_count: 1,
        compressor_page_count: 0,
        speculative_count: 0,
        ..counters()
    };
    let m = stats.get_metrics(&c, (0, 0), None);
    assert_eq!(m.free_bytes, u64::MAX);
    assert_eq!(m.active_bytes, u64::MAX);
    assert_eq!(m.wired_bytes, u64::MAX);
    assert_eq!(m.compressed_bytes, 0);
    assert_eq!(m.used_bytes, u64::MAX);

    // The products are taken exactly before they are clamped.
    let c = VmCounters { speculative_count: u32::MAX, ..c };
    let mut stats = MemoryStats::new(u64::MAX, u64::MAX);
    let m = stats.get_metrics(&c, (0, 0), None);
    assert_eq!(m.used_bytes, u64::MAX);
    let c = VmCounters { inactive_count: 0, wire_count: 0, ..c };
    let m = stats.get_metrics(&c, (0, 0), None);
    assert_eq!(m.used_bytes, 0);
}

#[test]
fn first_tick_counts_from_zero() {
    let mut stats = MemoryStats::new(PAGE, GIB);
    let m = stats.get_metrics(&counters(), (0, 0), None);
    assert_eq!(m.page_ins, 10);
    assert_eq!(m.page_outs, 20);
    assert_eq!(m.page_faults, 30);
}

#[test]
fn page_activity_is_the_difference_between_ticks() {
    let mut stats = MemoryStats::new(PAGE, GIB);
    stats.get_metrics(&counters(), (0, 0), None);
    let next = VmCounters { pageins: 15, pageouts: 20, faults: 1030, ..counters() };
    let m = stats.get_metrics(&next, (0, 0), None);
    assert_eq!(m.page_ins, 5);
    assert_eq!(m.page_outs, 0);
    assert_eq!(m.page_faults, 1000);
    let m = stats.get_metrics(&next, (0, 0), None);
    assert_eq!(m.page_ins, 0);
    assert_eq!(m.page_outs, 0);
    assert_eq!(m.page_faults, 0);
}

#[test]
fn page_fault_counter_reset() {
    let mut stats = MemoryStats::new(PAGE, GIB);
    let before = VmCounters { faults: 50_000, pageins: 700, pageouts: 9, ..counters() };
    stats.get_metrics(&before, (0, 0), None);
    let after = VmCounters { faults: 120, pageins: 3, pageouts: 9, ..counters() };
    let m = stats.get_metrics(&after, (0, 0), None);
    assert_eq!(m.page_faults, 120);
    assert_eq!(m.page_ins, 3);
    assert_eq!(m.page_outs, 0);
    // The reset reading is what the next tick counts from.
    let later = VmCounters { faults: 150, pageins: 3, pageouts: 10, ..counters() };
    let m = stats.get_metrics(&later, (0, 0), None);
    assert_eq!(m.page_faults, 30);
    assert_eq!(m.page_ins, 0);
    assert_eq!(m.page_outs, 1);
}

#[test]
fn failed_read_is_all_zero() {
    let mut stats = MemoryStats::new(PAGE, GIB);
    stats.get_metrics(&counters(), (0, 0), None);
    let m = stats.get_metrics(&VmCounters::default(), (0, 0), None);
    assert_eq!(m.used_bytes, 0);
    assert_eq!(m.free_bytes, 0);
    assert_eq!(m.page_ins, 0);
    assert_eq!(m.page_outs, 0);
    assert_eq!(m.page_faults, 0);
    assert_eq!(m.total_bytes, GIB);
}

#[test]
fn pressure_levels() {
    assert_eq!(MemoryStats::get_memory_pressure(Some(1)), MemoryPressure::Normal);
    assert_eq!(MemoryStats::get_memory_pressure(Some(2)), MemoryPressure::Warn);
    assert_eq!(MemoryStats::get_memory_pressure(Some(4)), MemoryPressure::Critical);
    assert_eq!(MemoryStats::get_memory_pressure(Some(0)), MemoryPressure::Normal);
    assert_eq!(MemoryStats::get_memory_pressure(Some(3)), MemoryPressure::Normal);
    assert_eq!(MemoryStats::get_memory_pressure(Some(-1)), MemoryPressure::Normal);
    assert_eq!(MemoryStats::get_memory_pressure(Some(i32::MAX)), MemoryPressure::Normal);
    assert_eq!(MemoryStats::get_memory_pressure(None), MemoryPressure::Normal);
    let mut stats = MemoryStats::new(PAGE, GIB);
    assert_eq!(stats.get_metrics(&counters(), (0, 0), Some(2)).pressure, MemoryPressure::Warn);
    assert_eq!(stats.get_metrics(&counters(), (0, 0), Some(4)).pressure, MemoryPressure::Critical);
}
