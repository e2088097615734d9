pub mod camera_controller;
pub mod camera_uniform;
