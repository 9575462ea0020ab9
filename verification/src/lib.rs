//! Wage normalization and cross-product expansion.
//!
//! A wage is an amount of money stated per pay period (an hour, a day or a
//! month), under an assumed workday length (4, 6 or 8 hours). Every such
//! wage can be reduced to an hourly base rate by dividing it by the number
//! of hours in its own period, and re-expanded to any other period/workday
//! combination by multiplying the base rate by the hours in the target
//! period. This crate holds the closed enumerations, the hour coefficients
//! and the ordered enumeration of all nine period/workday combinations;
//! the caller applies the base rate to each cell's coefficient.

pub mod args;
pub mod enumit;
pub mod wage;
