//! Small collections whose contents the contracts can speak of.

pub mod id_set;
pub mod vec_map;
