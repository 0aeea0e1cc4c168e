//! The Pelorus Marine website: response validation, Markdown link rewriting,
//! the architecture-document cache policy, page rendering and request routing.

pub mod cache;
pub mod fetch;
pub mod links;
pub mod pages;
pub mod site;
pub mod text;
