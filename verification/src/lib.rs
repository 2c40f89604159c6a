//! Resolution of named application assets.
//!
//! A request names an asset and its category: a sound, handed back as the
//! bytes of its file, or a model, handed back as the first `.fbx` entry of a
//! zip archive. The asset is looked for at a short list of locations in a
//! fixed order, and the first location that holds a file settles the request.
//!
//! The library decides and the caller looks: [`resolver::begin`] and
//! [`resolver::advance`] say which location to look at next and what the
//! request gives in the end, and the caller reports what it found there.
//! Nothing here touches the file system.
//!
//! - [`candidates`]: the locations and their order
//! - [`resolver`]: the search for one asset, and what holds of every search
//! - [`archive`]: the first `.fbx` entry of a zip archive held in memory
//! - [`zip_reader`]: the calls into the `zip` crate, and what is believed of them
//! - [`error`]: the failures and their messages
//! - [`category`], [`greeting`], [`text`]: small parts used by the others

pub mod archive;
pub mod candidates;
pub mod category;
pub mod error;
pub mod greeting;
pub mod resolver;
pub mod text;
pub mod zip_reader;
