//! Reading the variables of a running GameMaker game (built for the game
//! Mondealy): the runtime's hash maps, its MurmurHash3 name hashing, the
//! memory layout of its instances and the values a variable can hold.
//!
//! Everything here is verified logic over plain values; reading another
//! process's memory is left to the caller, which hands the bytes and words
//! it read to the functions of this crate and performs the reads they ask for.

pub mod engine;
pub mod hash_map;
pub mod instance;
pub mod offset;
pub mod small_str;
pub mod variable;
