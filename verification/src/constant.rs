//! Bit masks and tags of the ROOT object-serialization stream.

use vstd::prelude::*;

verus! {

/// High bit of a framing word that signals a 30-bit byte count.
pub const K_HAS_BYTECOUNT: u32 = 0x4000_0000;

/// High bit of a class tag that marks a back-reference into the class-name
/// table.
pub const K_NEW_CLASSBIT: u32 = 0x8000_0000;

/// Mask selecting the low 30 bits of a framing word or tag.
pub const K_BYTECOUNTMASK: u32 = 0x3FFF_FFFF;

/// Class tag announcing that a new class name follows in the stream.
pub const K_NEWCLASSTAG: u32 = 0xFFFF_FFFF;

/// Class tag of a null object.
pub const K_NULLTAG: u32 = 0x0000_0000;

/// Fixed correction between a class-name table position and the tag value
/// that references it.
pub const K_MAP_OFFSET: u32 = 2;

/// `TObject` bit that announces a trailing 16-bit PID index.
pub const K_IS_REFERENCED: u32 = 0x10;

} // verus!
