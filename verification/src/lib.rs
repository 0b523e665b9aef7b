//! Reading of the nested atom structure of MPEG-4 style container files, and a
//! codec for the typed metadata values that are stored inside it.
//!
//! A file is a sequence of atoms. An atom is a head, which holds the size and
//! the four byte type code of the atom, and a content, which for the atoms
//! that make up the structure is a sequence of atoms again. The modules:
//!
//! - [`stream`]: a run of bytes with a read position, and the reads on it;
//! - [`atom::head`]: heads of atoms, sizes and bounds;
//! - [`atom::walk`]: the way through the content of an atom, from atom to
//!   atom;
//! - [`atom::mvhd`], [`atom::trak`], [`atom::mdia`]: the kinds of atoms that
//!   are read, each with what is kept of it and, for those that hold atoms
//!   themselves, with the bounds it is found at;
//! - [`atom::data`]: the typed values of metadata atoms;
//! - [`endian`], [`text`], [`time`]: big-endian integers, UTF-16 and
//!   durations;
//! - [`error`]: the failures.
//!
//! Every function states in its contract what it returns and how it leaves
//! the stream, over the bytes of the stream and the position in it.
pub mod atom;
pub mod endian;
pub mod error;
pub mod stream;
pub mod text;
pub mod time;

pub use crate::atom::data::Data;
pub use crate::error::{Error, ErrorKind};
pub use crate::stream::Stream;
