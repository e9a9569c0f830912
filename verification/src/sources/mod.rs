//! What the raw counter sources hand to the engine, and the state kept per source.

pub mod disk;
pub mod ioreport;
pub mod memory;
pub mod smc;
pub mod sysctl;

pub use disk::DiskStats;
pub use ioreport::IOReportSample;
pub use memory::MemoryStats;
pub use sysctl::SysctlInfo;
