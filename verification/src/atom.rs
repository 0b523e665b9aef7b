//! The atoms of a container file: their heads, the kinds that are read, and
//! the typed values of metadata atoms.
pub mod data;
pub mod head;
pub mod mdia;
pub mod mvhd;
pub mod trak;
pub mod walk;
