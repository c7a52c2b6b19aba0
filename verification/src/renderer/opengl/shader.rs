//! Shader sources and shader programs of OpenGL.

use vstd::prelude::*;
use super::api;
use super::api::GlErrTypes;
use super::EOpenGL;

verus! {

pub const FRAGMENT_SHADER: u32 = 0x8B30;

pub const VERTEX_SHADER: u32 = 0x8B31;

pub const COMPILE_STATUS: u32 = 0x8B81;

pub const INFO_LOG_LENGTH: u32 = 0x8B84;

/// What the driver answered while a shader was compiled. The calls are made in
/// the order of the fields, and a call is only made where every call before it
/// succeeded; the log is only asked for where the shader did not compile.
#[derive(Debug)]
pub struct CompileReport {
    /// What the driver flagged after `glCompileShader`.
    pub compile: Option<GlErrTypes>,
    /// What the driver flagged after the compile status was asked for.
    pub status_query: Option<GlErrTypes>,
    /// The compile status; zero where the shader did not compile.
    pub compile_status: i32,
    /// What the driver flagged after the length of the log was asked for.
    pub length_query: Option<GlErrTypes>,
    /// What the driver flagged after the log was asked for.
    pub log_query: Option<GlErrTypes>,
    /// The log of the compiler.
    pub info_log: String,
}

/// The shader compiled: every call succeeded and the status is not zero.
pub open spec fn compiled_well(report: CompileReport) -> bool {
    report.compile is None && report.status_query is None && report.compile_status != 0
}

/// Each call that was needed to learn why the shader did not compile succeeded.
pub open spec fn log_fetched(report: CompileReport) -> bool {
    report.compile is None && report.status_query is None && report.compile_status == 0
        && report.length_query is None && report.log_query is None
}

/// A shader source object.
#[derive(Debug)]
pub struct Source {
    id: u32,
    compiled: bool,
}

impl Source {
    /// The name of the shader object.
    pub closed spec fn name(self) -> u32 {
        self.id
    }

    /// The shader was compiled.
    pub closed spec fn ready(self) -> bool {
        self.compiled
    }

    /// Takes over the shader object that the driver created under the name `id`
    /// and gave the source to: `created` is what it flagged after creating it,
    /// `sourced` after taking the source. The shader is not compiled yet.
    pub fn new(id: u32, created: Option<GlErrTypes>, sourced: Option<GlErrTypes>) -> (r: Result<
        Source,
        EOpenGL,
    >)
        ensures
            r is Ok <==> created is None && sourced is None,
            r matches Ok(source) ==> source.name() == id && !source.ready(),
            r matches Err(e) ==> if created is Some {
                api::create_shader_outcome(Err(e), created)
            } else {
                api::shader_source_outcome(Err(e), sourced)
            },
    {
        match api::create_shader(created) {
            Ok(()) => {},
            Err(e) => {
                return Err(e);
            },
        }
        match api::shader_source(sourced) {
            Ok(()) => {},
            Err(e) => {
                return Err(e);
            },
        }
        Ok(Source { id, compiled: false })
    }

    /// Takes note of how compiling the shader went. The shader counts as compiled
    /// exactly where every call succeeded and the compile status is not zero.
    /// Where the shader did not compile and its log could be fetched, the error
    /// holds the log.
    pub fn compile(&mut self, report: CompileReport) -> (r: Result<(), EOpenGL>)
        ensures
            final(self).name() == old(self).name(),
            r is Ok <==> compiled_well(report),
            final(self).ready() == (old(self).ready() || compiled_well(report)),
            log_fetched(report) ==> (r matches Err(EOpenGL::COMPILE_SHADER(log)) && log
                == report.info_log),
            report.compile is Some ==> api::compile_shader_outcome(r, report.compile),
            report.compile is None && report.status_query is Some ==> api::get_shader_iv_outcome(
                r,
                report.status_query,
            ),
            report.compile is None && report.status_query is None && report.compile_status == 0
                && report.length_query is Some ==> api::get_shader_iv_outcome(
                r,
                report.length_query,
            ),
            report.compile is None && report.status_query is None && report.compile_status == 0
                && report.length_query is None && report.log_query is Some
                ==> api::get_shader_info_log_outcome(r, report.log_query),
    {
        match api::compile_shader(report.compile) {
            Ok(()) => {},
            Err(e) => {
                return Err(e);
            },
        }
        match Self::check_compile_status(report) {
            Ok(()) => {},
            Err(e) => {
                return Err(e);
            },
        }
        self.compiled = true;
        Ok(())
    }

    /// Tells from the answers of the driver whether the shader compiled.
    fn check_compile_status(report: CompileReport) -> (r: Result<(), EOpenGL>)
        ensures
            r is Ok <==> report.status_query is None && report.compile_status != 0,
            report.status_query is None && report.compile_status == 0 && report.length_query
                is None && report.log_query is None ==> (r matches Err(
                EOpenGL::COMPILE_SHADER(log),
            ) && log == report.info_log),
            report.status_query is Some ==> api::get_shader_iv_outcome(r, report.status_query),
            report.status_query is None && report.compile_status == 0 && report.length_query
                is Some ==> api::get_shader_iv_outcome(r, report.length_query),
            report.status_query is None && report.compile_status == 0 && report.length_query
                is None && report.log_query is Some ==> api::get_shader_info_log_outcome(
                r,
                report.log_query,
            ),
    {
        match api::get_shader_iv(report.status_query) {
            Ok(()) => {},
            Err(e) => {
                return Err(e);
            },
        }
        if report.compile_status == 0 {
            match api::get_shader_iv(report.length_query) {
                Ok(()) => {},
                Err(e) => {
                    return Err(e);
                },
            }
            match api::get_shader_info_log(report.log_query) {
                Ok(()) => {},
                Err(e) => {
                    return Err(e);
                },
            }
            return Err(EOpenGL::COMPILE_SHADER(report.info_log));
        }
        Ok(())
    }

    /// What became of the call that deletes the shader object.
    pub fn delete(&self, status: Option<GlErrTypes>) -> (r: Result<(), EOpenGL>)
        ensures
            api::delete_shader_outcome(r, status),
            r is Ok <==> status is None,
    {
        api::delete_shader(status)
    }

    pub fn is_compiled(&self) -> (r: bool)
        ensures
            r == self.ready(),
    {
        self.compiled
    }

    pub fn get_gid(&self) -> (r: u32)
        ensures
            r == self.name(),
    {
        self.id
    }
}

/// A shader program object.
#[derive(Debug)]
pub struct Program {
    id: u32,
}

impl Program {
    /// The name of the program object.
    pub closed spec fn name(self) -> u32 {
        self.id
    }

    /// Takes over the program object that `glCreateProgram` handed back. The name
    /// zero means that the driver made none.
    pub fn new(id: u32) -> (r: Result<Self, EOpenGL>)
        ensures
            r is Ok <==> id != 0,
            r matches Ok(program) ==> program.name() == id,
            id == 0 ==> (r matches Err(EOpenGL::API_CALL(f, m)) && f@ == "glCreateProgram"@ && m@
                == api::CREATE_PROGRAM_NULL@),
    {
        match api::create_program(id) {
            Ok(id) => Ok(Program { id }),
            Err(e) => Err(e),
        }
    }

    /// What became of the call that attaches a shader to the program.
    pub fn attach_shader(&self, shader: &Source, status: Option<GlErrTypes>) -> (r: Result<
        (),
        EOpenGL,
    >)
        ensures
            api::attach_shader_outcome(r, status),
            r is Ok <==> status is None,
    {
        api::attach_shader(status)
    }

    /// What became of the call that links the program.
    pub fn link(&self, status: Option<GlErrTypes>) -> (r: Result<(), EOpenGL>)
        ensures
            api::link_program_outcome(r, status),
            r is Ok <==> status is None,
    {
        api::link_program(status)
    }

    /// What became of the call that makes the program the current one.
    pub fn make_current(&self, status: Option<GlErrTypes>) -> (r: Result<(), EOpenGL>)
        ensures
            api::use_program_outcome(r, status),
            r is Ok <==> status is None,
    {
        api::use_program(status)
    }

    pub fn get_id(&self) -> (r: u32)
        ensures
            r == self.name(),
    {
        self.id
    }

    /// What became of setting an integer variable of the program: of the call
    /// that looks the variable up, and then of the call that sets it.
    pub fn set_int_var(&self, located: Option<GlErrTypes>, set: Option<GlErrTypes>) -> (r: Result<
        (),
        EOpenGL,
    >)
        ensures
            r is Ok <==> located is None && set is None,
            located is Some ==> api::get_uniform_location_outcome(r, located),
            located is None ==> api::uniform_int_1_outcome(r, set),
    {
        match api::get_uniform_location(located) {
            Ok(()) => {},
            Err(e) => {
                return Err(e);
            },
        }
        api::uniform_int_1(set)
    }
}

} // verus!
