pub mod hud;
pub mod menu;
