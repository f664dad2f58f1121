//! A verified core of a 2D graphics and immediate-mode GUI engine: pixels and colors, images,
//! points and vectors, keyboard and mouse state, UI layout and widget decisions, and themes.

pub mod approx;
pub mod arith;
pub mod color;
pub mod elementwise;
pub mod engine;
pub mod error;
pub mod event;
pub mod gui;
pub mod image;
pub mod input;
pub mod laws;
pub mod lighting;
pub mod num;
pub mod ops;
pub mod pixel;
pub mod random;
pub mod shape;
pub mod vector;
