//! Loading components from files.

use vstd::prelude::*;

pub mod file;

verus! {

/// What can go wrong while a component is loaded.
#[allow(non_camel_case_types)]
#[derive(Debug)]
pub enum ELoader {
    /// The file could not be used.
    FILE_ERROR { source: file::EFile },
}

} // verus!
