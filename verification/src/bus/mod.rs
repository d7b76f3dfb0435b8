pub mod notifying;
pub mod persistent;
pub mod projection;
pub mod subscription;
