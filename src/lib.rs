//! A record store for movie reviews kept in fixed-size account slots.
//!
//! Each review lives in a slot whose address is derived from the author's key
//! and the movie title. The library decodes instructions, validates every
//! request against the slot it names, and encodes the record into the slot.

pub mod address;
pub mod error;
pub mod guarantees;
pub mod instruction;
pub mod processor;
pub mod state;
