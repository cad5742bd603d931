//! Data layouts shared with firmware written in other languages.

pub mod firmware;
