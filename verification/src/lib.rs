//! Protocol core for BlinkStick USB LED devices.
//!
//! The library decides and computes; it performs no transfer itself. A
//! command gives the control transfer that carries it, and what the device
//! returned is handed back to be read.

pub mod color;
pub mod directory;
pub mod effect;
pub mod error;
pub mod hex;
pub mod listing;
pub mod palette;
pub mod report;
pub mod session;
pub mod text;
pub mod transfer;

pub use color::{parse_color, NamedColor, RgbColor};
pub use directory::{find_blinksticks, find_first_blinkstick, DeviceIds};
pub use effect::{PulseFrame, PulsePhase, PulseProgress};
pub use error::{BlinkStickError, UsbFault};
pub use listing::{color_names, columns};
pub use report::FeatureReport;
pub use session::{BlinkStick, OpenAction, OpenProgress};
pub use transfer::{ControlTransfer, Direction};
