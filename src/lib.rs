//! Bridge between a host application and a session bus object that publishes
//! a muted and a deafened flag and forwards two toggle requests to the host.

pub mod bridge;
pub mod flag;
pub mod remote;

pub use bridge::{ActionKind, JsVenbus, Phase, SetOutcome, VenbusError, INTERFACE_NAME, OBJECT_PATH};
pub use flag::{BoolFlag, FlagUpdate};
pub use remote::{method_reply, MethodError, Venbus};
