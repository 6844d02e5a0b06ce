//! What a driver needs to know about the bench: where the toolchain and the
//! board are, and what ends a benchmark.

use vstd::prelude::*;
use vstd::string::*;

verus! {

/// The text a benchmark prints when it is over.
pub const SENTINEL: &'static str = "Benchmark Over";

/// The script that loads the toolchain's environment.
pub const EXPORT_SCRIPT: &'static str = "/media/pi/pi_external/esp/esp-idf/export.sh";

/// The device the board's serial port shows up as.
pub const SERIAL_DEVICE: &'static str = "/dev/ttyACM0";

/// The speed of the serial port, in baud.
pub const BAUD_RATE: u32 = 115_200;

/// How long one read may wait for data, in seconds.
pub const READ_TIMEOUT_SECS: u64 = 120;

/// The settings of one bench.
#[derive(Debug, PartialEq, Eq)]
pub struct Settings {
    /// The script that loads the toolchain's environment.
    pub export_script: String,
    /// The device to read the board's output from.
    pub serial_device: String,
    /// The speed of the serial port, in baud.
    pub baud_rate: u32,
    /// How long one read may wait for data, in seconds.
    pub read_timeout_secs: u64,
    /// The text that ends a benchmark.
    pub sentinel: String,
}

impl Default for Settings {
    /// The bench as it is wired up by default.
    fn default() -> (settings: Settings)
        ensures
            settings.export_script@ == EXPORT_SCRIPT@,
            settings.serial_device@ == SERIAL_DEVICE@,
            settings.baud_rate == BAUD_RATE,
            settings.read_timeout_secs == READ_TIMEOUT_SECS,
            settings.sentinel@ == SENTINEL@,
    {
        Settings {
            export_script: String::from_str(EXPORT_SCRIPT),
            serial_device: String::from_str(SERIAL_DEVICE),
            baud_rate: BAUD_RATE,
            read_timeout_secs: READ_TIMEOUT_SECS,
            sentinel: String::from_str(SENTINEL),
        }
    }
}

} // verus!
