//! Decoding of NVIDIA GPU binaries: the `.nv.info.*` metadata sections of
//! compiled kernel objects (cubins) and the fatbinary containers that bundle
//! them per target architecture.

pub mod bytes;
pub mod cubin;
pub mod elf;
pub mod error;
pub mod fatbin;

pub use error::ParseError;
