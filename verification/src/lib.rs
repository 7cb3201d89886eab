pub mod api;
pub mod base64_codec;
pub mod documents;
pub mod docx_render;
pub mod graph;
pub mod json;
pub mod json_codec;
pub mod laws;
pub mod pptx_parts;
pub mod text;
pub mod types;
pub mod zip_archive;
