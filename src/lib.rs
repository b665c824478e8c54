//! Non-blocking RFCOMM connection set-up for Bluetooth devices: device
//! addresses, an SDP lookup of the serial port channel, and the connect
//! state machine that a readiness-based event loop drives.

mod addr;
mod connect;
mod device;
mod error;
mod sdp;

pub use crate::addr::{host_is_little_endian, BtAddr};
pub use crate::connect::{BtAsync, BtSocketConnect, BtSocketConnectState, Interest, PendingIo};
pub use crate::device::{decimal_string, inquiry_length, BtDevice, BtProtocol};
pub use crate::error::{create_error_from_desc, create_error_from_errno, BtError};
pub use crate::sdp::{IoEvent, QueryRFCOMMChannel, QueryRFCOMMChannelStatus, QueryState};
