//! I/O-free coroutines: state machines that describe a buffered read or
//! write, hand the request to a driver, and finish once the driver feeds the
//! outcome back. None of them ever touches a file, a socket or a stream.
pub mod io;
pub mod read;
pub mod write;

pub use io::{Io, Output};
pub use read::Read;
pub use write::Write;
