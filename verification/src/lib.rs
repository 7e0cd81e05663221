//! A chaos game that draws fractal flames, and a collection of small
//! programs' logic, with contracts that are proved.
//!
//! The flame lives in `simulator`, `histogram`, `tone`, `color`, `random` and
//! `render`: a state steps through randomly chosen maps of the plane and
//! counts where the point falls, and on demand the counts are reduced to the
//! size of the output and turned into pixels. Real-number arithmetic is left
//! to the caller, who hands it in as functions.

pub mod advanced;
pub mod basics;
pub mod blog;
pub mod closures;
pub mod coins;
pub mod collections;
pub mod color;
pub mod generics;
pub mod guess;
pub mod gui;
pub mod histogram;
pub mod life;
pub mod limit_tracker;
pub mod lists;
pub mod minigrep;
pub mod ownership;
pub mod patterns;
pub mod random;
pub mod render;
pub mod simulator;
pub mod summary;
pub mod text;
pub mod thread_pool;
pub mod tone;
pub mod users;
pub mod utils;
pub mod web;
