pub mod cursor;
pub mod selection;
pub mod iterative_text;
