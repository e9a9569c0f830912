//! Virtual-memory counters: sizes in bytes and page activity per interval.

use vstd::prelude::*;
use crate::delta::{delta, delta_spec};
use crate::types::{MemoryMetrics, MemoryPressure};

verus! {

/// One reading of the kernel's virtual-memory counters.
///
/// The first six are numbers of pages at the moment of the reading; the last three
/// count events since boot. A reading that failed is all zero.
#[derive(Debug, Clone, Copy, PartialEq, Eq, Structural)]
pub struct VmCounters {
    pub free_count: u32,
    pub active_count: u32,
    pub inactive_count: u32,
    pub wire_count: u32,
    pub compressor_page_count: u32,
    pub speculative_count: u32,
    pub pageins: u64,
    pub pageouts: u64,
    pub faults: u64,
}

impl VmCounters {
    /// The reading that stands for a failed read.
    pub open spec fn zero() -> VmCounters {
        VmCounters {
            free_count: 0,
            active_count: 0,
            inactive_count: 0,
            wire_count: 0,
            compressor_page_count: 0,
            speculative_count: 0,
            pageins: 0,
            pageouts: 0,
            faults: 0,
        }
    }
}

impl Default for VmCounters {
    fn default() -> (counters: Self)
        ensures
            counters == VmCounters::zero(),
    {
        VmCounters {
            free_count: 0,
            active_count: 0,
            inactive_count: 0,
            wire_count: 0,
            compressor_page_count: 0,
            speculative_count: 0,
            pageins: 0,
            pageouts: 0,
            faults: 0,
        }
    }
}

/// The size of `pages` pages in bytes, held at `u64::MAX` where it would not fit.
pub open spec fn pages_to_bytes(pages: u32, page_size: u64) -> u64 {
    if pages * page_size <= u64::MAX {
        (pages * page_size) as u64
    } else {
        u64::MAX
    }
}

/// Memory in use, in bytes, before any clamping: the active, wired, compressed and
/// inactive pages, less the speculative ones.
///
/// This is one accounting convention among several: other tools leave the inactive
/// pages out, or count the speculative ones in.
pub open spec fn bytes_in_use(counters: VmCounters, page_size: u64) -> int {
    counters.active_count * page_size + counters.wire_count * page_size
        + counters.compressor_page_count * page_size + counters.inactive_count * page_size
        - counters.speculative_count * page_size
}

/// Memory in use, clamped into the range from zero to the size of physical memory:
/// counters that disagree for a moment give neither a negative figure nor one above
/// what the machine has.
pub open spec fn used_bytes(counters: VmCounters, page_size: u64, total_memory: u64) -> u64 {
    let in_use = bytes_in_use(counters, page_size);
    if in_use < 0 {
        0
    } else if in_use > total_memory {
        total_memory
    } else {
        in_use as u64
    }
}

/// The pressure level that a reading of the kernel's level variable stands for.
///
/// No reading, or a value that is not a known level, reads as normal.
pub open spec fn pressure_of_level(level: Option<i32>) -> MemoryPressure {
    match level {
        Some(2) => MemoryPressure::Warn,
        Some(4) => MemoryPressure::Critical,
        _ => MemoryPressure::Normal,
    }
}

/// The state that the memory source keeps between ticks.
pub struct MemoryStats {
    page_size: u64,
    total_memory: u64,
    prev_pageins: u64,
    prev_pageouts: u64,
    prev_faults: u64,
}

/// The mathematical content of a [`MemoryStats`].
pub ghost struct MemoryStatsView {
    pub page_size: u64,
    pub total_memory: u64,
    pub prev_pageins: u64,
    pub prev_pageouts: u64,
    pub prev_faults: u64,
}

impl View for MemoryStats {
    type V = MemoryStatsView;

    closed spec fn view(&self) -> MemoryStatsView {
        MemoryStatsView {
            page_size: self.page_size,
            total_memory: self.total_memory,
            prev_pageins: self.prev_pageins,
            prev_pageouts: self.prev_pageouts,
            prev_faults: self.prev_faults,
        }
    }
}

/// The figures of one tick, from the state before it and the readings of the tick.
pub open spec fn memory_metrics(
    state: MemoryStatsView,
    counters: VmCounters,
    swap: (u64, u64),
    pressure_level: Option<i32>,
) -> MemoryMetrics {
    MemoryMetrics {
        total_bytes: state.total_memory,
        used_bytes: used_bytes(counters, state.page_size, state.total_memory),
        free_bytes: pages_to_bytes(counters.free_count, state.page_size),
        active_bytes: pages_to_bytes(counters.active_count, state.page_size),
        wired_bytes: pages_to_bytes(counters.wire_count, state.page_size),
        compressed_bytes: pages_to_bytes(counters.compressor_page_count, state.page_size),
        swap_used_bytes: swap.0,
        swap_total_bytes: swap.1,
        page_ins: delta_spec(state.prev_pageins, counters.pageins),
        page_outs: delta_spec(state.prev_pageouts, counters.pageouts),
        page_faults: delta_spec(state.prev_faults, counters.faults),
        pressure: pressure_of_level(pressure_level),
    }
}

/// The state after a tick: the cumulative counters of the tick replace the old ones.
pub open spec fn memory_state_after(
    state: MemoryStatsView,
    counters: VmCounters,
) -> MemoryStatsView {
    MemoryStatsView {
        page_size: state.page_size,
        total_memory: state.total_memory,
        prev_pageins: counters.pageins,
        prev_pageouts: counters.pageouts,
        prev_faults: counters.faults,
    }
}

fn bytes_of_pages(pages: u32, page_size: u64) -> (bytes: u64)
    ensures
        bytes == pages_to_bytes(pages, page_size),
{
    let wide: u128 = widen_product(pages, page_size);
    if wide <= u64::MAX as u128 {
        wide as u64
    } else {
        u64::MAX
    }
}

fn widen_product(pages: u32, page_size: u64) -> (wide: u128)
    ensures
        wide == pages * page_size,
        wide <= 0xffff_ffff * 0xffff_ffff_ffff_ffff,
{
    assert(pages * page_size <= 0xffff_ffff * 0xffff_ffff_ffff_ffff) by (nonlinear_arith)
        requires
            pages <= 0xffff_ffff,
            page_size <= 0xffff_ffff_ffff_ffff,
    ;
    (pages as u128) * (page_size as u128)
}

impl MemoryStats {
    /// A source that has seen no reading yet.
    pub fn new(page_size: u64, total_memory: u64) -> (stats: Self)
        ensures
            stats@ == (MemoryStatsView {
                page_size,
                total_memory,
                prev_pageins: 0,
                prev_pageouts: 0,
                prev_faults: 0,
            }),
    {
        Self { page_size, total_memory, prev_pageins: 0, prev_pageouts: 0, prev_faults: 0 }
    }

    /// Turns the readings of one tick into memory figures and remembers the counters.
    ///
    /// `swap` is the swap space in use and in total, in bytes; `pressure_level` is the
    /// kernel's pressure level, or `None` where it could not be read.
    pub fn get_metrics(
        &mut self,
        counters: &VmCounters,
        swap: (u64, u64),
        pressure_level: Option<i32>,
    ) -> (metrics: MemoryMetrics)
        ensures
            metrics == memory_metrics(old(self)@, *counters, swap, pressure_level),
            final(self)@ == memory_state_after(old(self)@, *counters),
            metrics.used_bytes <= metrics.total_bytes,
    {
        let page_size = self.page_size;
        let active: u128 = widen_product(counters.active_count, page_size);
        let wired: u128 = widen_product(counters.wire_count, page_size);
        let compressed: u128 = widen_product(counters.compressor_page_count, page_size);
        let inactive: u128 = widen_product(counters.inactive_count, page_size);
        let speculative: u128 = widen_product(counters.speculative_count, page_size);
        let counted: u128 = active + wired + compressed + inactive;
        let used: u64 = if counted <= speculative {
            0
        } else if counted - speculative > self.total_memory as u128 {
            self.total_memory
        } else {
            (counted - speculative) as u64
        };

        let page_ins = delta(self.prev_pageins, counters.pageins);
        let page_outs = delta(self.prev_pageouts, counters.pageouts);
        let page_faults = delta(self.prev_faults, counters.faults);

        self.prev_pageins = counters.pageins;
        self.prev_pageouts = counters.pageouts;
        self.prev_faults = counters.faults;

        MemoryMetrics {
            total_bytes: self.total_memory,
            used_bytes: used,
            free_bytes: bytes_of_pages(counters.free_count, page_size),
            active_bytes: bytes_of_pages(counters.active_count, page_size),
            wired_bytes: bytes_of_pages(counters.wire_count, page_size),
            compressed_bytes: bytes_of_pages(counters.compressor_page_count, page_size),
            swap_used_bytes: swap.0,
            swap_total_bytes: swap.1,
            page_ins,
            page_outs,
            page_faults,
            pressure: Self::get_memory_pressure(pressure_level),
        }
    }

    /// The pressure level that a reading of the kernel's level variable stands for.
    pub fn get_memory_pressure(level: Option<i32>) -> (pressure: MemoryPressure)
        ensures
            pressure == pressure_of_level(level),
    {
        match level {
            Some(2) => MemoryPressure::Warn,
            Some(4) => MemoryPressure::Critical,
            _ => MemoryPressure::Normal,
        }
    }
}

} // verus!
