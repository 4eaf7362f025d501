//! Ranked-match bookkeeping for a Discord challenge ladder: player ranks and
//! points, streak bonuses, match settlement, challenge scheduling and the
//! classification of database failures.

pub mod decimal;
pub mod errors;
pub mod matches;
pub mod player;
pub mod rank;
pub mod rank_order;
pub mod schedule;
pub mod text;
