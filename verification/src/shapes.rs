pub mod cube;
