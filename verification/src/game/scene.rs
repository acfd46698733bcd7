pub mod credits;
pub mod level;
pub mod main_menu;
pub mod menu;
