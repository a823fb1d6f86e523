//! A TrueType (sfnt) font decoder: a big-endian byte cursor, the table
//! directory, the `head`, `maxp`, `hhea` and `hmtx` tables, the `loca`
//! glyph index, the `glyf` bounding boxes and the format-4 `cmap`, with
//! the loader that sequences them. Beside it stand the small value types of
//! the rendering front end that uses the decoder.
#![allow(non_camel_case_types)]

pub mod error;
pub mod reader;
pub mod directory;
pub mod tables;
pub mod glyphs;
pub mod cmap;
pub mod font;
pub mod gui;
pub mod camera;
pub mod texture;
