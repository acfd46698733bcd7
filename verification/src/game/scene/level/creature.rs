pub mod buzz;
pub mod spiky;
pub mod grunt;
pub mod ripper;
