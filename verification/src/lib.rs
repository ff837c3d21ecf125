//! Type-safe builders for Dockerfile instructions, with the text that each
//! instruction renders to stated and proved.

pub mod text;
pub mod instruction;
pub mod error;
pub mod url_check;
pub mod duration;
pub mod instruction_builder;
pub mod laws;
pub mod rendering_laws;
