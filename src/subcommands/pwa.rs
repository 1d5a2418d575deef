//! Commands for progressive web apps.

pub mod create;
