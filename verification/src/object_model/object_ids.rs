//! Object indices of standard objects.
use vstd::prelude::*;

verus! {

/// The Device Name object index
pub const DEVICE_NAME: u16 = 0x1008;
/// The hardware version object index
pub const HARDWARE_VERSION: u16 = 0x1009;
/// Save objects command object index
pub const SAVE_OBJECTS: u16 = 0x1010;
/// The software version object index
pub const SOFTWARE_VERSION: u16 = 0x100A;
/// The heartbeat producer time object index
pub const HEARTBEAT_PRODUCER_TIME: u16 = 0x1017;
/// The identity object index
pub const IDENTITY: u16 = 0x1018;
/// The first RPDO communication parameter index; they run from 0x1400 to 0x15FF
pub const RPDO_COMM_BASE: u16 = 0x1400;
/// The first RPDO mapping parameter index; they run from 0x1600 to 0x17FF
pub const RPDO_MAP_BASE: u16 = 0x1600;
/// The first TPDO communication parameter index; they run from 0x1800 to 0x19FF
pub const TPDO_COMM_BASE: u16 = 0x1800;
/// The first TPDO mapping parameter index; they run from 0x1A00 to 0x1BFF
pub const TPDO_MAP_BASE: u16 = 0x1A00;
/// The auto start object index
pub const AUTO_START: u16 = 0x5000;

} // verus!
