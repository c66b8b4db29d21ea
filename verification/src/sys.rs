//! Platform descriptor shapes for vectored I/O.
//!
//! Each submodule models one family of the OS scatter/gather descriptor
//! (`iovec` on POSIX-like systems, `WSABUF` on Windows, and a portable
//! fallback pair). A descriptor holds the borrowed byte region itself —
//! the borrow carries the address — together with an explicit length
//! field in the width the OS struct uses, and the well-formedness
//! invariant says that the stored length field never disagrees with the
//! real length of the region: a disagreement is exactly the silent
//! truncation that would corrupt the count an OS call relies on.
//!
//! The POSIX shape is the one this build targets; the public span types
//! wrap it through the re-exports below.

pub mod unix;
pub mod unknown;
pub mod windows;

pub use self::unix::IoVec;
pub use self::unix::MAX_LENGTH;
