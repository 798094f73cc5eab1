pub mod spectrum;
