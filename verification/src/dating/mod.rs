//! Dates: what is shown of a character, and the course of a date.

pub mod fish;
pub mod scene;
