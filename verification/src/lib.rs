//! A SQL front end for `SELECT` queries: a recursive-descent parser that turns
//! query text into a syntax tree, and an unparser that renders a tree back
//! into canonical SQL.
//!
//! Every tree type has a mathematical model (its view); rendering and parsing
//! are specified over those models and over plain character sequences.
pub mod ast;
pub mod text;
pub mod parser;
pub mod roundtrip;
