//! The verified core of the Myrica browser.
//!
//! Everything the browser decides or computes on plain values lives here:
//! addresses, history, input routing, cookies, charset decoding, the mailbox
//! between the user interface and the engine, and the bookkeeping of the
//! scene renderer.  Threads, sockets, windows and floating point stay in the
//! program around it.

pub mod backend;
pub mod cookies;
pub mod location;
pub mod markup;
pub mod network;
pub mod platform;
pub mod scalar;
pub mod scene;
pub mod shell;
pub mod text;
