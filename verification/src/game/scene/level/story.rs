pub mod data;
pub mod world;
pub mod modal;
