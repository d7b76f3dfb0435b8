pub mod aggregate;
pub mod bus;
pub mod error;
pub mod event;
pub mod infra;
pub mod projection;
pub mod repository;
pub mod sequence;
pub mod store;
pub mod stream;
pub mod text;
