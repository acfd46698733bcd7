pub mod ecs;
pub mod geometry;
pub mod scene;
pub mod scenes;
pub mod ui;
pub mod utility;
