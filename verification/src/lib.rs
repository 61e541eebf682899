//! A collection of small verified modules, each centred on one language
//! feature: string search, struct methods, enums and matching, closures,
//! hand-rolled iteration, and simple input validation.

pub mod basics;
pub mod closures;
pub mod coins;
pub mod functions;
pub mod generics;
pub mod hashmaps;
pub mod iterators;
pub mod lifetimes;
pub mod minigrep;
pub mod minigrep2;
pub mod references;
pub mod restaurant;
pub mod shapes;
pub mod slices;
pub mod strings;
pub mod text;
pub mod traits;
