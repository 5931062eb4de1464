//! The execution core of a small relational store that lives in memory.
//!
//! A statement arrives parsed. The store keeps a catalog of tables, holds
//! each literal to the type its column declares, keeps the rows, and answers
//! plain reads.

pub mod ast;
pub mod data_descriptor;
pub mod error;
pub mod executor;
pub mod laws;
pub mod outside;
pub mod raw_inner_value;
pub mod text;
pub mod text_map;
pub mod validators;
