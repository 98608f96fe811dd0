pub mod vector;
pub mod form;
pub mod body;
pub mod scenes;
pub mod color;
pub mod setup;
pub mod theme;
