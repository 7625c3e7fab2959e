//! Lists the font family and style names of a system font catalog, with
//! contracts that tie each listing to what the catalog holds.

pub mod font;
pub mod catalog;
pub mod laws;
