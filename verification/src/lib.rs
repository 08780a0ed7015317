//! Turn-based combat engine core: timed status effects, kit registries and
//! counter keys, and the combinatorics and decisions of the team optimizer.

pub mod characters;
pub mod damage;
pub mod effects;
pub mod enemies;
pub mod ids;
pub mod lightcones;
pub mod models;
pub mod optimizer;
pub mod search;
pub mod text;
pub mod weakness;
