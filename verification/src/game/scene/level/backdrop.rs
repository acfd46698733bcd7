pub mod backdrop;
