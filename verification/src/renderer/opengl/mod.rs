//! The OpenGL rendering path.

use vstd::prelude::*;

pub mod api;
pub mod buffer;
pub mod shader;

verus! {

/// What can go wrong on the OpenGL rendering path.
#[allow(non_camel_case_types)]
#[derive(Debug)]
pub enum EOpenGL {
    /// The call, and what OpenGL found wrong with it.
    API_CALL(String, String),
    /// The kind of buffer, and what was wrong with it.
    BUFFER(String, String),
    /// The shader did not compile; the text is the compiler's log.
    COMPILE_SHADER(String),
}

} // verus!
