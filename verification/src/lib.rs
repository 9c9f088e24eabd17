//! # Memory-mapped files, Rust-style
//!
//! Inter-process communication over a named, pagefile-backed shared memory
//! region, in the style of the Win32 memory-mapping API. Two or more
//! cooperating processes exchange binary payloads of a fixed size through a
//! shared region; concurrent readers and a single exclusive writer coordinate
//! through a 32-bit control word placed at the head of the region itself, so
//! no external synchronization broker is needed.
//!
//! The [`states`] module holds the control word and the reader–writer
//! protocol over it; the [`mmf`] module holds the mapping object with its
//! byte-oriented read and write surface; the [`err`] module holds the error
//! taxonomy shared by both.
//!
//! The shared region itself is modelled by [`mmf::MemoryMappedView`]: the
//! control word followed by the payload bytes. The OS hands every peer a view
//! of the same memory; here the callers of the library borrow the region in
//! turn and hand it to whichever mapping object performs an operation. The
//! code that asks the OS for a real mapping, projects it into an address
//! space and tears it down again stays outside this crate.

pub mod err;
pub mod mmf;
pub mod states;

pub use err::Error;
pub use err::MMFResult;
pub use mmf::MemoryMappedFile;
pub use mmf::MemoryMappedView;
pub use mmf::Namespace;
pub use states::RWLock;
