pub mod claims;
pub mod dto;
pub mod exif;
pub mod storable;
