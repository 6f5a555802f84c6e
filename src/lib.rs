//! Rainbow colouring of a character stream for true-colour terminals.

pub mod escape;
pub mod gray;
pub mod lemmas;
pub mod light;
pub mod piece;
pub mod render;
pub mod stream;
pub mod whitespace;
