//! Verified core of a small directory web server: URL and path handling,
//! file classification, request parsing and routing, review and gallery
//! comment documents, favourites ordering and image grouping.
use vstd::prelude::*;

pub mod text;
pub mod url;
pub mod paths;
pub mod kinds;
pub mod http;
pub mod review;
pub mod markup;
pub mod order;
pub mod gallery;
pub mod cli;
pub mod respond;
pub mod pages;
pub mod routing;
pub mod assets;
pub mod scripts;
pub mod sizes;
pub mod groups;
pub mod favourites;
pub mod digest;
pub mod syntax;
pub mod directory;
pub mod sharing;
pub mod similarity;
pub mod markdown;
pub mod thumbnail;
pub mod viewer;
pub mod likeness;

verus! {
} // verus!
