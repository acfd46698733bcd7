pub mod level;
pub mod menu;
