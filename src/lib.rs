//! A collection of small developer utilities: a constrained password
//! generator, number base conversion, colour codes, dates, hashes, base64
//! and UUIDs.

pub mod app;
pub mod base64_encoder;
pub mod color_converter;
pub mod date_converter;
pub mod hash_generator;
pub mod number_base_converter;
pub mod password_generator;
pub mod qr_code_generator;
pub mod text;
pub mod tool;
pub mod uuid_generator;
