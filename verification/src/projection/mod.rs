pub mod linking;
