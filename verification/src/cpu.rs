use vstd::prelude::*;

verus! {

/// The processor whose load the tray icon shows. Sampling it reads the
/// operating system's counters over a one-second interval, which the
/// application does; the library is handed the resulting percentage.
pub struct Cpu;

} // verus!
