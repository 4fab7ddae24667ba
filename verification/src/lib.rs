//! Core library of a text-source selection and merge pipeline: it classifies
//! files as text or binary by extension, matches simplified ignore rules,
//! derives file indexes for a local directory tree or a GitHub repository,
//! concatenates selected files into one labeled blob, and drives the
//! single-flight reload/merge controller of the interactive front end.

pub mod classifier;
pub mod controller;
pub mod factory;
pub mod filters;
pub mod fs_source;
pub mod github;
pub mod ignore;
pub mod merge;
pub mod output_panel;
pub mod selection;
pub mod sets;
pub mod keys;
pub mod sorting;
pub mod source_files;
pub mod source_path;
pub mod source;
pub mod strutil;
pub mod tokenizer;

use vstd::prelude::*;

verus! {

} // verus!
