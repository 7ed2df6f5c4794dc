//! Data model and step scheduling for an N-body gravitational simulation.
//!
//! Every real quantity is carried as the bit pattern of an IEEE-754 binary32
//! value. The library arranges, stores and hands out these patterns; it never
//! performs arithmetic on them.
pub mod compute;
pub mod outcome;
pub mod particle;
pub mod scenedata;
pub mod schedule;
