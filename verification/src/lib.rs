pub mod canvas;
pub mod ops;
pub mod decode;
pub mod pen;
pub mod sim;
