pub mod modal;
