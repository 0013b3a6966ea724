//! An Objective-C runtime wrapper: value handles onto runtime entities, the
//! choice of message-send entry point for each kind of result, and the
//! lifecycle of a class pair defined at run time.
pub mod dispatch;
pub mod handle;
pub mod native;
pub mod pair;

pub use dispatch::{msg_send, msg_send_super, Arch, EntryPoint, ReturnType};
pub use handle::{Class, Id, InstanceVariable, Method, NSObject, Selector, Super, NIL_ADDRESS};
pub use native::{alignment_exponent, bool_from_native, c_string, NO, YES};
pub use pair::{ClassPair, PairOp, PairState};
