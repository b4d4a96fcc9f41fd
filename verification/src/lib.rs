//! A small rule-resolution engine.
//!
//! Three booleans are classified into a class code, and the class code selects
//! the formula by which a score is computed. Both stages walk an ordered list
//! of custom rules and then one default rule; the first rule that answers wins.

pub mod rules;
pub mod business_logic;
pub mod tables;
pub mod api;
