//! Client side of an administrative control protocol: one command goes out as
//! a length-prefixed JSON frame, and a stream of responses comes back until a
//! terminal `Success` or `Error`.

pub mod frame;
pub mod protocol;
pub mod session;
