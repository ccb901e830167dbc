//! Verified decision and arithmetic core of the token-conditional-swap
//! liquidator and of a few mango-v4 program instructions.

pub mod fixed_point;
pub mod liqee;
pub mod prepare;
pub mod schedule;
pub mod selection;
pub mod scan;
pub mod program;
