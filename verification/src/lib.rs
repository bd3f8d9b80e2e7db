//! An orbit camera, its input router and the decisions of its frame loop.
//!
//! All numbers are fixed-point integers (see [`fixed`]); nothing here reads
//! a clock, a window or a GPU. A viewer feeds events in and carries out what
//! comes back.
pub mod camera;
pub mod camera_controller;
pub mod fixed;
pub mod frame;
pub mod orbit_camera;
