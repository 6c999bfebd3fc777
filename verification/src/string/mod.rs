//! Text: character sequences, decimal numerals and the library's fixed messages.

pub mod decimal;
pub mod fraction;
pub mod text;
pub mod error;
