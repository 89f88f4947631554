//! A small real-time rendering demo, modelled as verifiable state:
//! a static scene (a ground plane, twelve glowing orbs each carrying a
//! point light, and an orbit camera) together with a runtime toggle
//! between deferred and forward shading, driven by edge-triggered
//! keyboard input.

pub mod geometry;
pub mod material;
pub mod controller;
pub mod demo;
pub mod scene;
