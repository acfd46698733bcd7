pub mod tiled;
