pub mod collision;
pub mod transform;
