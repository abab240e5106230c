//! A backend-agnostic description of what a user interface draws, with the
//! text contract and the multisample target that a GPU backend builds on.
pub mod alignment;
pub mod color;
pub mod convert;
pub mod damage;
pub mod font;
pub mod geometry;
pub mod image;
pub mod layer;
pub mod length;
pub mod mesh;
pub mod msaa;
pub mod primitive;
pub mod renderer;
pub mod rich_text;
pub mod scalar;
pub mod svg;
pub mod text;
pub mod traversal;
pub mod window;
