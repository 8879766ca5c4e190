//! The resolved configuration the bridge runs with: serial device path and
//! baud rate, the poll-on-failure flag, and the TCP address and port to bind.
//! It is constructed and validated before the core starts and is read-only
//! for the process lifetime — no ambient global lookups.

use vstd::prelude::*;

verus! {

/// The IP address to bind, v4 or v6, held as plain values: four octets, or
/// eight 16-bit segments.
#[derive(Clone, Copy, PartialEq, Eq, Structural, Debug)]
pub enum IpAddress {
    V4(u8, u8, u8, u8),
    V6(u16, u16, u16, u16, u16, u16, u16, u16),
}

/// The fixed read-only record the core is given. A port of 0 asks the
/// operating system to pick a free port.
pub struct Config {
    pub serial_device_path: String,
    pub serial_baud_rate: u32,
    pub poll_serial: bool,
    pub bind_address: IpAddress,
    pub bind_port: u16,
}

impl Config {
    /// An explicitly constructed configuration record. The baud rate must be
    /// a positive integer.
    pub fn new(
        serial_device_path: String,
        serial_baud_rate: u32,
        poll_serial: bool,
        bind_address: IpAddress,
        bind_port: u16,
    ) -> (r: Config)
        requires
            serial_baud_rate > 0,
        ensures
            r.serial_device_path == serial_device_path,
            r.serial_baud_rate == serial_baud_rate,
            r.poll_serial == poll_serial,
            r.bind_address == bind_address,
            r.bind_port == bind_port,
    {
        Config { serial_device_path, serial_baud_rate, poll_serial, bind_address, bind_port }
    }
}

impl Default for Config {
    /// The defaults: poll a common USB serial adapter at 115200 baud and
    /// listen on every interface.
    fn default() -> (r: Config)
        ensures
            r.serial_device_path@ == "/dev/ttyUSB1"@,
            r.serial_baud_rate == 115200,
            r.poll_serial,
            r.bind_address == IpAddress::V4(0, 0, 0, 0),
            r.bind_port == 2022,
    {
        Config {
            serial_device_path: "/dev/ttyUSB1".to_owned(),
            serial_baud_rate: 115200,
            poll_serial: true,
            bind_address: IpAddress::V4(0, 0, 0, 0),
            bind_port: 2022,
        }
    }
}

} // verus!
