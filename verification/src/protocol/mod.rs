//! CANopen protocol messages and their encodings.
pub mod cob_id;
pub mod errors;
pub mod heartbeat;
pub mod lss;
pub mod nmt;
pub mod sdo;
pub mod node_id;
pub mod sync;
pub mod zencan_message;
