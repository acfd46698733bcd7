pub mod controls;
pub mod direction;
pub mod path;
pub mod text;
