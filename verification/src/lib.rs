use vstd::prelude::*;

pub mod enums;
pub mod text;
pub mod error;
pub mod numtext;
pub mod pattern;
pub mod models;
pub mod client;
pub mod session_manager;

verus! {

} // verus!
