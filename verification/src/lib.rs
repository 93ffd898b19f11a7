//! Decision core of a bidirectional byte relay between a character-device
//! endpoint (a serial port) and a byte-stream IPC channel endpoint (a named
//! pipe).
//!
//! Every policy decision of the relay is made here and verified: how the
//! outcome of an asynchronous transfer is classified (success, timeout, hard
//! failure), how a relay direction advances its read/drain state machine
//! without dropping or reordering bytes, how the connect-retry loop honours
//! its deadline, and how endpoint resources are acquired, duplicated and
//! released without leaks or double closes. The unverified binary performs
//! the actual OS calls and feeds their reports into these functions.

pub mod completion;
pub mod config;
pub mod handles;
pub mod pair;
pub mod relay;
pub mod retry;
