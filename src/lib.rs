//! Resolves LaTeX class files and templates from a local mirror or a remote
//! repository, decides whether cached copies are stale, inlines `\input{...}`
//! directives, and stamps documents with the revision they came from.
use vstd::prelude::*;

pub mod config;
pub mod text;
pub mod resource;
pub mod sync;
pub mod input;
pub mod freeze;
pub mod file;

verus! {

} // verus!
