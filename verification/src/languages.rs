//! What each stack's workspace starts from.

pub mod csharp;
pub mod rust;
pub mod typescript;
