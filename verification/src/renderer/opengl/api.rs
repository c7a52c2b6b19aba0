//! What became of a call into the OpenGL driver.
//!
//! The driver keeps one error flag. After each call the caller reads the flag and
//! hands it in here, where it is turned into the error of the engine, with the
//! causes that the OpenGL documentation gives for the call.

use vstd::prelude::*;
use super::EOpenGL;

verus! {

// ------------------------------------------------------------------------------------------------
// Error Management
//
/// The kinds of error that OpenGL can flag.
#[derive(Debug, Clone, Copy, PartialEq, Eq, Structural)]
pub enum GlErrTypes {
    InvalidEnum,
    InvalidValue,
    InvalidOperation,
    StackOverflow,
    StackUnderflow,
    OutOfMemory,
    InvalidFramebufferOperation,
    Unknown,
}

/// Value of the error flag when no error is flagged.
pub const NO_ERROR: u32 = 0;

pub const INVALID_ENUM: u32 = 0x0500;

pub const INVALID_VALUE: u32 = 0x0501;

pub const INVALID_OPERATION: u32 = 0x0502;

pub const STACK_OVERFLOW: u32 = 0x0503;

pub const STACK_UNDERFLOW: u32 = 0x0504;

pub const OUT_OF_MEMORY: u32 = 0x0505;

pub const INVALID_FRAMEBUFFER_OPERATION: u32 = 0x0506;

/// What a message says when no cause is known for the error that was flagged.
pub const UNKNOWN_REASON: &'static str = "unknown reason";

impl GlErrTypes {
    /// The name of the kind of error.
    pub open spec fn name_of(self) -> Seq<char> {
        match self {
            GlErrTypes::InvalidEnum => "INVALID_ENUM"@,
            GlErrTypes::InvalidValue => "INVALID_VALUE"@,
            GlErrTypes::InvalidOperation => "INVALID_OPERATION"@,
            GlErrTypes::StackOverflow => "STACK_OVERFLOW"@,
            GlErrTypes::StackUnderflow => "STACK_UNDERFLOW"@,
            GlErrTypes::OutOfMemory => "OUT_OF_MEMORY"@,
            GlErrTypes::InvalidFramebufferOperation => "INVALID_FRAMEBUFFER_OPERATION"@,
            GlErrTypes::Unknown => "UNKNOWN"@,
        }
    }

    /// Returns the name of the kind of error.
    pub fn to_string(&self) -> (r: String)
        ensures
            r@ == self.name_of(),
    {
        match *self {
            GlErrTypes::InvalidEnum => "INVALID_ENUM".to_owned(),
            GlErrTypes::InvalidValue => "INVALID_VALUE".to_owned(),
            GlErrTypes::InvalidOperation => "INVALID_OPERATION".to_owned(),
            GlErrTypes::StackOverflow => "STACK_OVERFLOW".to_owned(),
            GlErrTypes::StackUnderflow => "STACK_UNDERFLOW".to_owned(),
            GlErrTypes::OutOfMemory => "OUT_OF_MEMORY".to_owned(),
            GlErrTypes::InvalidFramebufferOperation => "INVALID_FRAMEBUFFER_OPERATION".to_owned(),
            GlErrTypes::Unknown => "UNKNOWN".to_owned(),
        }
    }
}

/// The kind of error for a value of the error flag; none where no error is flagged.
pub open spec fn flagged(err_value: u32) -> Option<GlErrTypes> {
    if err_value == NO_ERROR {
        None
    } else if err_value == INVALID_ENUM {
        Some(GlErrTypes::InvalidEnum)
    } else if err_value == INVALID_VALUE {
        Some(GlErrTypes::InvalidValue)
    } else if err_value == INVALID_OPERATION {
        Some(GlErrTypes::InvalidOperation)
    } else if err_value == STACK_OVERFLOW {
        Some(GlErrTypes::StackOverflow)
    } else if err_value == STACK_UNDERFLOW {
        Some(GlErrTypes::StackUnderflow)
    } else if err_value == OUT_OF_MEMORY {
        Some(GlErrTypes::OutOfMemory)
    } else if err_value == INVALID_FRAMEBUFFER_OPERATION {
        Some(GlErrTypes::InvalidFramebufferOperation)
    } else {
        Some(GlErrTypes::Unknown)
    }
}

/// Tells which kind of error the driver flagged, from the value of its error flag.
pub fn check_error_status(err_value: u32) -> (r: Option<GlErrTypes>)
    ensures
        r == flagged(err_value),
{
    if err_value != NO_ERROR {
        return if err_value == INVALID_ENUM {
            Some(GlErrTypes::InvalidEnum)
        } else if err_value == INVALID_VALUE {
            Some(GlErrTypes::InvalidValue)
        } else if err_value == INVALID_OPERATION {
            Some(GlErrTypes::InvalidOperation)
        } else if err_value == STACK_OVERFLOW {
            Some(GlErrTypes::StackOverflow)
        } else if err_value == STACK_UNDERFLOW {
            Some(GlErrTypes::StackUnderflow)
        } else if err_value == OUT_OF_MEMORY {
            Some(GlErrTypes::OutOfMemory)
        } else if err_value == INVALID_FRAMEBUFFER_OPERATION {
            Some(GlErrTypes::InvalidFramebufferOperation)
        } else {
            Some(GlErrTypes::Unknown)
        };
    }
    None
}

/// A possible cause of an error of one kind.
#[derive(Debug)]
pub struct MsgMashingType {
    msg_: String,
    type_: GlErrTypes,
}

impl MsgMashingType {
    /// What the cause says.
    pub closed spec fn message(self) -> Seq<char> {
        self.msg_@
    }

    /// The kind of error the cause belongs to.
    pub closed spec fn kind(self) -> GlErrTypes {
        self.type_
    }

    pub fn new(msg: &str, _type: GlErrTypes) -> (r: Self)
        ensures
            r.message() == msg@,
            r.kind() == _type,
    {
        MsgMashingType { msg_: msg.to_owned(), type_: _type }
    }
}

/// The first cause of a list that belongs to a kind of error.
pub open spec fn is_first_cause(causes: Seq<MsgMashingType>, kind: GlErrTypes, index: int) -> bool {
    &&& 0 <= index < causes.len()
    &&& causes[index].kind() == kind
    &&& forall|j: int| 0 <= j < index ==> (#[trigger] causes[j]).kind() != kind
}

/// `message` is what a list of causes says of an error of a kind: the only cause
/// where the list holds one; else the first cause of that kind; else that the
/// reason is unknown.
pub open spec fn is_explanation(causes: Seq<MsgMashingType>, kind: GlErrTypes, message: Seq<char>)
    -> bool {
    if causes.len() == 1 {
        message == causes[0].message()
    } else if exists|i: int| is_first_cause(causes, kind, i) {
        exists|i: int| is_first_cause(causes, kind, i) && message == causes[i].message()
    } else {
        message == UNKNOWN_REASON@
    }
}

/// `r` is what became of the call of `func_name` after which the driver flagged
/// `status`, where `causes` are the possible causes of its errors.
pub open spec fn is_outcome(
    r: Result<(), EOpenGL>,
    func_name: Seq<char>,
    causes: Seq<MsgMashingType>,
    status: Option<GlErrTypes>,
) -> bool {
    match status {
        None => r is Ok,
        Some(kind) => r matches Err(EOpenGL::API_CALL(f, m)) && f@ == func_name
            && is_explanation(causes, kind, m@),
    }
}

/// Turns what the driver flagged after a call into the result of the call. Where
/// an error is flagged, the message holds the cause that the list gives for it.
pub fn check_for_error(
    func_name: &str,
    possible_msg: Vec<MsgMashingType>,
    status: Option<GlErrTypes>,
) -> (r: Result<(), EOpenGL>)
    requires
        possible_msg@.len() > 0,
    ensures
        is_outcome(r, func_name@, possible_msg@, status),
{
    let err_type = match status {
        Some(e) => e,
        None => {
            return Ok(());
        },
    };
    let mut index: usize = 0;
    if possible_msg.len() > 1 {
        let mut i: usize = 0;
        let mut found = false;
        while i < possible_msg.len() && !found
            invariant
                i <= possible_msg.len(),
                !found ==> forall|j: int|
                    0 <= j < i ==> (#[trigger] possible_msg@[j]).kind() != err_type,
                found ==> is_first_cause(possible_msg@, err_type, index as int),
            decreases possible_msg.len() - i + (if found { 0int } else { 1int }),
        {
            if possible_msg[i].type_ == err_type {
                index = i;
                found = true;
            } else {
                i += 1;
            }
        }
        if !found {
            assert forall|k: int| !is_first_cause(possible_msg@, err_type, k) by {
                if 0 <= k < possible_msg@.len() {
                    assert(possible_msg@[k].kind() != err_type);
                }
            }
            return Err(EOpenGL::API_CALL(func_name.to_owned(), UNKNOWN_REASON.to_owned()));
        }
    }
    Err(EOpenGL::API_CALL(func_name.to_owned(), possible_msg[index].msg_.clone()))
}

/// The list of causes holds exactly the given kinds and messages, in their order.
pub open spec fn is_table_of(causes: Seq<MsgMashingType>, table: Seq<(GlErrTypes, Seq<char>)>)
    -> bool {
    &&& causes.len() == table.len()
    &&& forall|i: int|
        0 <= i < table.len() ==> (#[trigger] causes[i]).kind() == table[i].0 && causes[i].message()
            == table[i].1
}

/// What the message says when the driver made no program.
pub const CREATE_PROGRAM_NULL: &'static str = "The program creation returned an value of 0";

/// Creates a program object: what became of the call of `glCreateProgram`, which
/// hands back zero where it made no program.
pub fn create_program(id: u32) -> (r: Result<u32, EOpenGL>)
    ensures
        id != 0 ==> r == Ok::<u32, EOpenGL>(id),
        id == 0 ==> (r matches Err(EOpenGL::API_CALL(f, m)) && f@ == "glCreateProgram"@ && m@
            == CREATE_PROGRAM_NULL@),
{
    if id == 0 {
        return Err(EOpenGL::API_CALL("glCreateProgram".to_owned(), CREATE_PROGRAM_NULL.to_owned()));
    }
    Ok(id)
}

// ------------------------------------------------------------------------------------------------
// Calls
//
pub const UNIFORM_SPECIFIER_CAUSE_0: &'static str = "Possible error caused:\n
                    -   The program passed does not refer to a program object owned by the GL\n
                    -   The size of the uniform variable declared in the shader does not match
                        the size indicated by the glProgramUniform command\n
                    -   One of the signed or unsigned integer variants of this function is used to
                        load a uniform variable or if one of the floating-point variants of this
                        function is used to load a uniform variable\n
                    -   The parameter 'location' is an invalid uniform location for program and
                        location is not equal to -1\n
                    -   The parameter 'count' is greater than 1 and the indicated uniform variable
                        is not an array variable \n
                    -   A sampler is loaded using a command other than glProgramUniform1i and
                        glProgramUniform1iv\n";

pub const UNIFORM_SPECIFIER_CAUSE_1: &'static str = "the parameter 'count' is less than 0";

/// The possible causes of an error of a call that sets a uniform variable.
pub fn uniform_specifier_causes() -> (r: Vec<MsgMashingType>)
    ensures
        is_table_of(
            r@,
            seq![
                (GlErrTypes::InvalidOperation, UNIFORM_SPECIFIER_CAUSE_0@),
                (GlErrTypes::InvalidValue, UNIFORM_SPECIFIER_CAUSE_1@),
            ],
        ),
{
    let mut r: Vec<MsgMashingType> = Vec::new();
    r.push(MsgMashingType::new(UNIFORM_SPECIFIER_CAUSE_0, GlErrTypes::InvalidOperation));
    r.push(MsgMashingType::new(UNIFORM_SPECIFIER_CAUSE_1, GlErrTypes::InvalidValue));
    r
}

/// `r` is what became of the call of `func_name` after which the driver flagged `status`.
pub open spec fn check_for_uniform_specifier_outcome(r: Result<(), EOpenGL>, func_name: Seq<char>, status: Option<GlErrTypes>) -> bool {
    exists|causes: Seq<MsgMashingType>|
        #[trigger] is_outcome(r, func_name, causes, status) && is_table_of(
            causes,
            seq![
                (GlErrTypes::InvalidOperation, UNIFORM_SPECIFIER_CAUSE_0@),
                (GlErrTypes::InvalidValue, UNIFORM_SPECIFIER_CAUSE_1@),
            ],
        )
}

/// Sets a uniform variable: what became of the call of `func_name`.
pub fn check_for_uniform_specifier(func_name: &str, status: Option<GlErrTypes>) -> (r: Result<(), EOpenGL>)
    ensures
        check_for_uniform_specifier_outcome(r, func_name@, status),
        r is Ok <==> status is None,
{
    let causes = uniform_specifier_causes();
    let r = check_for_error(func_name, causes, status);
    assert(is_outcome(r, func_name@, causes@, status));
    r
}

pub const CREATE_SHADER_CAUSE_0: &'static str = "The parameter `shader_type` is not an accepted value";

/// The possible causes of an error of `glCreateShader`.
pub fn create_shader_causes() -> (r: Vec<MsgMashingType>)
    ensures
        is_table_of(
            r@,
            seq![
                (GlErrTypes::InvalidEnum, CREATE_SHADER_CAUSE_0@),
            ],
        ),
{
    let mut r: Vec<MsgMashingType> = Vec::new();
    r.push(MsgMashingType::new(CREATE_SHADER_CAUSE_0, GlErrTypes::InvalidEnum));
    r
}

/// `r` is what became of the call of `glCreateShader` after which the driver flagged `status`.
pub open spec fn create_shader_outcome(r: Result<(), EOpenGL>, status: Option<GlErrTypes>) -> bool {
    exists|causes: Seq<MsgMashingType>|
        #[trigger] is_outcome(r, "glCreateShader"@, causes, status) && is_table_of(
            causes,
            seq![
                (GlErrTypes::InvalidEnum, CREATE_SHADER_CAUSE_0@),
            ],
        )
}

/// Creates a shader object: what became of the call of `glCreateShader`.
pub fn create_shader(status: Option<GlErrTypes>) -> (r: Result<(), EOpenGL>)
    ensures
        create_shader_outcome(r, status),
        r is Ok <==> status is None,
{
    let causes = create_shader_causes();
    let r = check_for_error("glCreateShader", causes, status);
    assert(is_outcome(r, "glCreateShader"@, causes@, status));
    r
}

pub const SHADER_SOURCE_CAUSE_0: &'static str = "possible cause of error:\n
                     - The parameter 'shader' is not a value generated by Opengl\n
                     - The parameter 'count' is less than 0\n";

pub const SHADER_SOURCE_CAUSE_1: &'static str = "the parameter 'shader' is not a shader object";

/// The possible causes of an error of `glShaderSource`.
pub fn shader_source_causes() -> (r: Vec<MsgMashingType>)
    ensures
        is_table_of(
            r@,
            seq![
                (GlErrTypes::InvalidValue, SHADER_SOURCE_CAUSE_0@),
                (GlErrTypes::InvalidOperation, SHADER_SOURCE_CAUSE_1@),
            ],
        ),
{
    let mut r: Vec<MsgMashingType> = Vec::new();
    r.push(MsgMashingType::new(SHADER_SOURCE_CAUSE_0, GlErrTypes::InvalidValue));
    r.push(MsgMashingType::new(SHADER_SOURCE_CAUSE_1, GlErrTypes::InvalidOperation));
    r
}

/// `r` is what became of the call of `glShaderSource` after which the driver flagged `status`.
pub open spec fn shader_source_outcome(r: Result<(), EOpenGL>, status: Option<GlErrTypes>) -> bool {
    exists|causes: Seq<MsgMashingType>|
        #[trigger] is_outcome(r, "glShaderSource"@, causes, status) && is_table_of(
            causes,
            seq![
                (GlErrTypes::InvalidValue, SHADER_SOURCE_CAUSE_0@),
                (GlErrTypes::InvalidOperation, SHADER_SOURCE_CAUSE_1@),
            ],
        )
}

/// Replaces the source code in a shader object: what became of the call of `glShaderSource`.
pub fn shader_source(status: Option<GlErrTypes>) -> (r: Result<(), EOpenGL>)
    ensures
        shader_source_outcome(r, status),
        r is Ok <==> status is None,
{
    let causes = shader_source_causes();
    let r = check_for_error("glShaderSource", causes, status);
    assert(is_outcome(r, "glShaderSource"@, causes@, status));
    r
}

pub const COMPILE_SHADER_CAUSE_0: &'static str = "The parameter 'shader' is not a value generated by Opengl";

pub const COMPILE_SHADER_CAUSE_1: &'static str = "the parameter 'shader' is not a shader object";

/// The possible causes of an error of `glCompileShader`.
pub fn compile_shader_causes() -> (r: Vec<MsgMashingType>)
    ensures
        is_table_of(
            r@,
            seq![
                (GlErrTypes::InvalidValue, COMPILE_SHADER_CAUSE_0@),
                (GlErrTypes::InvalidOperation, COMPILE_SHADER_CAUSE_1@),
            ],
        ),
{
    let mut r: Vec<MsgMashingType> = Vec::new();
    r.push(MsgMashingType::new(COMPILE_SHADER_CAUSE_0, GlErrTypes::InvalidValue));
    r.push(MsgMashingType::new(COMPILE_SHADER_CAUSE_1, GlErrTypes::InvalidOperation));
    r
}

/// `r` is what became of the call of `glCompileShader` after which the driver flagged `status`.
pub open spec fn compile_shader_outcome(r: Result<(), EOpenGL>, status: Option<GlErrTypes>) -> bool {
    exists|causes: Seq<MsgMashingType>|
        #[trigger] is_outcome(r, "glCompileShader"@, causes, status) && is_table_of(
            causes,
            seq![
                (GlErrTypes::InvalidValue, COMPILE_SHADER_CAUSE_0@),
                (GlErrTypes::InvalidOperation, COMPILE_SHADER_CAUSE_1@),
            ],
        )
}

/// Compiles a shader object: what became of the call of `glCompileShader`.
pub fn compile_shader(status: Option<GlErrTypes>) -> (r: Result<(), EOpenGL>)
    ensures
        compile_shader_outcome(r, status),
        r is Ok <==> status is None,
{
    let causes = compile_shader_causes();
    let r = check_for_error("glCompileShader", causes, status);
    assert(is_outcome(r, "glCompileShader"@, causes@, status));
    r
}

pub const GET_SHADER_IV_CAUSE_0: &'static str = "The parameter 'shader' is not a value generated by Opengl";

pub const GET_SHADER_IV_CAUSE_1: &'static str = "The parameter shader does not refer to a shader object";

pub const GET_SHADER_IV_CAUSE_2: &'static str = "the parameters pname is not an accepted value";

/// The possible causes of an error of `glGetShaderiv`.
pub fn get_shader_iv_causes() -> (r: Vec<MsgMashingType>)
    ensures
        is_table_of(
            r@,
            seq![
                (GlErrTypes::InvalidValue, GET_SHADER_IV_CAUSE_0@),
                (GlErrTypes::InvalidOperation, GET_SHADER_IV_CAUSE_1@),
                (GlErrTypes::InvalidEnum, GET_SHADER_IV_CAUSE_2@),
            ],
        ),
{
    let mut r: Vec<MsgMashingType> = Vec::new();
    r.push(MsgMashingType::new(GET_SHADER_IV_CAUSE_0, GlErrTypes::InvalidValue));
    r.push(MsgMashingType::new(GET_SHADER_IV_CAUSE_1, GlErrTypes::InvalidOperation));
    r.push(MsgMashingType::new(GET_SHADER_IV_CAUSE_2, GlErrTypes::InvalidEnum));
    r
}

/// `r` is what became of the call of `glGetShaderiv` after which the driver flagged `status`.
pub open spec fn get_shader_iv_outcome(r: Result<(), EOpenGL>, status: Option<GlErrTypes>) -> bool {
    exists|causes: Seq<MsgMashingType>|
        #[trigger] is_outcome(r, "glGetShaderiv"@, causes, status) && is_table_of(
            causes,
            seq![
                (GlErrTypes::InvalidValue, GET_SHADER_IV_CAUSE_0@),
                (GlErrTypes::InvalidOperation, GET_SHADER_IV_CAUSE_1@),
                (GlErrTypes::InvalidEnum, GET_SHADER_IV_CAUSE_2@),
            ],
        )
}

/// Returns a parameter from a shader object: what became of the call of `glGetShaderiv`.
pub fn get_shader_iv(status: Option<GlErrTypes>) -> (r: Result<(), EOpenGL>)
    ensures
        get_shader_iv_outcome(r, status),
        r is Ok <==> status is None,
{
    let causes = get_shader_iv_causes();
    let r = check_for_error("glGetShaderiv", causes, status);
    assert(is_outcome(r, "glGetShaderiv"@, causes@, status));
    r
}

pub const GET_SHADER_INFO_LOG_CAUSE_0: &'static str = "possible cause of error:\n
                     - The parameter 'shader' is not a value generated by Opengl\n
                     - The parameter 'maxlength' is less than 0\n";

pub const GET_SHADER_INFO_LOG_CAUSE_1: &'static str = "The parameter 'shader' does not refer to a shader object";

/// The possible causes of an error of `glGetShaderInfoLog`.
pub fn get_shader_info_log_causes() -> (r: Vec<MsgMashingType>)
    ensures
        is_table_of(
            r@,
            seq![
                (GlErrTypes::InvalidValue, GET_SHADER_INFO_LOG_CAUSE_0@),
                (GlErrTypes::InvalidOperation, GET_SHADER_INFO_LOG_CAUSE_1@),
            ],
        ),
{
    let mut r: Vec<MsgMashingType> = Vec::new();
    r.push(MsgMashingType::new(GET_SHADER_INFO_LOG_CAUSE_0, GlErrTypes::InvalidValue));
    r.push(MsgMashingType::new(GET_SHADER_INFO_LOG_CAUSE_1, GlErrTypes::InvalidOperation));
    r
}

/// `r` is what became of the call of `glGetShaderInfoLog` after which the driver flagged `status`.
pub open spec fn get_shader_info_log_outcome(r: Result<(), EOpenGL>, status: Option<GlErrTypes>) -> bool {
    exists|causes: Seq<MsgMashingType>|
        #[trigger] is_outcome(r, "glGetShaderInfoLog"@, causes, status) && is_table_of(
            causes,
            seq![
                (GlErrTypes::InvalidValue, GET_SHADER_INFO_LOG_CAUSE_0@),
                (GlErrTypes::InvalidOperation, GET_SHADER_INFO_LOG_CAUSE_1@),
            ],
        )
}

/// Returns the information log for a shader object: what became of the call of `glGetShaderInfoLog`.
pub fn get_shader_info_log(status: Option<GlErrTypes>) -> (r: Result<(), EOpenGL>)
    ensures
        get_shader_info_log_outcome(r, status),
        r is Ok <==> status is None,
{
    let causes = get_shader_info_log_causes();
    let r = check_for_error("glGetShaderInfoLog", causes, status);
    assert(is_outcome(r, "glGetShaderInfoLog"@, causes@, status));
    r
}

pub const DELETE_SHADER_CAUSE_0: &'static str = "The parameter 'shader' is not a value generated by Opengl";

/// The possible causes of an error of `glDeleteShader`.
pub fn delete_shader_causes() -> (r: Vec<MsgMashingType>)
    ensures
        is_table_of(
            r@,
            seq![
                (GlErrTypes::InvalidValue, DELETE_SHADER_CAUSE_0@),
            ],
        ),
{
    let mut r: Vec<MsgMashingType> = Vec::new();
    r.push(MsgMashingType::new(DELETE_SHADER_CAUSE_0, GlErrTypes::InvalidValue));
    r
}

/// `r` is what became of the call of `glDeleteShader` after which the driver flagged `status`.
pub open spec fn delete_shader_outcome(r: Result<(), EOpenGL>, status: Option<GlErrTypes>) -> bool {
    exists|causes: Seq<MsgMashingType>|
        #[trigger] is_outcome(r, "glDeleteShader"@, causes, status) && is_table_of(
            causes,
            seq![
                (GlErrTypes::InvalidValue, DELETE_SHADER_CAUSE_0@),
            ],
        )
}

/// Deletes a shader object: what became of the call of `glDeleteShader`.
pub fn delete_shader(status: Option<GlErrTypes>) -> (r: Result<(), EOpenGL>)
    ensures
        delete_shader_outcome(r, status),
        r is Ok <==> status is None,
{
    let causes = delete_shader_causes();
    let r = check_for_error("glDeleteShader", causes, status);
    assert(is_outcome(r, "glDeleteShader"@, causes@, status));
    r
}

pub const ATTACH_SHADER_CAUSE_0: &'static str = "the parameter 'program' or 'shader' is not a value generated by \
                     Opengl";

pub const ATTACH_SHADER_CAUSE_1: &'static str = "possible cause of error:\n
                     -  The parameter 'program' is not a program  object\n
                     -  The shader passed is already attached to the program\n
                     -  The parameter shader does not refer to a shader object\n";

/// The possible causes of an error of `glAttachShader`.
pub fn attach_shader_causes() -> (r: Vec<MsgMashingType>)
    ensures
        is_table_of(
            r@,
            seq![
                (GlErrTypes::InvalidValue, ATTACH_SHADER_CAUSE_0@),
                (GlErrTypes::InvalidOperation, ATTACH_SHADER_CAUSE_1@),
            ],
        ),
{
    let mut r: Vec<MsgMashingType> = Vec::new();
    r.push(MsgMashingType::new(ATTACH_SHADER_CAUSE_0, GlErrTypes::InvalidValue));
    r.push(MsgMashingType::new(ATTACH_SHADER_CAUSE_1, GlErrTypes::InvalidOperation));
    r
}

/// `r` is what became of the call of `glAttachShader` after which the driver flagged `status`.
pub open spec fn attach_shader_outcome(r: Result<(), EOpenGL>, status: Option<GlErrTypes>) -> bool {
    exists|causes: Seq<MsgMashingType>|
        #[trigger] is_outcome(r, "glAttachShader"@, causes, status) && is_table_of(
            causes,
            seq![
                (GlErrTypes::InvalidValue, ATTACH_SHADER_CAUSE_0@),
                (GlErrTypes::InvalidOperation, ATTACH_SHADER_CAUSE_1@),
            ],
        )
}

/// Attaches a shader object to a program object: what became of the call of `glAttachShader`.
pub fn attach_shader(status: Option<GlErrTypes>) -> (r: Result<(), EOpenGL>)
    ensures
        attach_shader_outcome(r, status),
        r is Ok <==> status is None,
{
    let causes = attach_shader_causes();
    let r = check_for_error("glAttachShader", causes, status);
    assert(is_outcome(r, "glAttachShader"@, causes@, status));
    r
}

pub const LINK_PROGRAM_CAUSE_0: &'static str = "the parameter 'program' is not a value generated by Opengl";

pub const LINK_PROGRAM_CAUSE_1: &'static str = "possible cause of error:\n
                     -  The parameter 'program' does not refer to a program object\n
                     -  The program object is he currently active and transform feedback mode is \
                        active\n";

/// The possible causes of an error of `glLinkProgram`.
pub fn link_program_causes() -> (r: Vec<MsgMashingType>)
    ensures
        is_table_of(
            r@,
            seq![
                (GlErrTypes::InvalidValue, LINK_PROGRAM_CAUSE_0@),
                (GlErrTypes::InvalidOperation, LINK_PROGRAM_CAUSE_1@),
            ],
        ),
{
    let mut r: Vec<MsgMashingType> = Vec::new();
    r.push(MsgMashingType::new(LINK_PROGRAM_CAUSE_0, GlErrTypes::InvalidValue));
    r.push(MsgMashingType::new(LINK_PROGRAM_CAUSE_1, GlErrTypes::InvalidOperation));
    r
}

/// `r` is what became of the call of `glLinkProgram` after which the driver flagged `status`.
pub open spec fn link_program_outcome(r: Result<(), EOpenGL>, status: Option<GlErrTypes>) -> bool {
    exists|causes: Seq<MsgMashingType>|
        #[trigger] is_outcome(r, "glLinkProgram"@, causes, status) && is_table_of(
            causes,
            seq![
                (GlErrTypes::InvalidValue, LINK_PROGRAM_CAUSE_0@),
                (GlErrTypes::InvalidOperation, LINK_PROGRAM_CAUSE_1@),
            ],
        )
}

/// Links a program object: what became of the call of `glLinkProgram`.
pub fn link_program(status: Option<GlErrTypes>) -> (r: Result<(), EOpenGL>)
    ensures
        link_program_outcome(r, status),
        r is Ok <==> status is None,
{
    let causes = link_program_causes();
    let r = check_for_error("glLinkProgram", causes, status);
    assert(is_outcome(r, "glLinkProgram"@, causes@, status));
    r
}

pub const GET_PROGRAM_IV_CAUSE_0: &'static str = "the parameter 'program' is not a value generated by Opengl";

pub const GET_PROGRAM_IV_CAUSE_1: &'static str = "possible cause of error:\n
                     -  The parameter 'program' does not refer to a program object\n
                     -  The parameter 'pname'  is GL_GEOMETRY_VERTICES_OUT, \
                        GL_GEOMETRY_INPUT_TYPE, or GL_GEOMETRY_OUTPUT_TYPE and program does not \
                        contain a geometry shader \
                        or pname is GL_COMPUTE_WORK_GROUP_SIZE and program does not contain a \
                        binary for the compute shader stage\n";

pub const GET_PROGRAM_IV_CAUSE_2: &'static str = "the parameters program is not an accepted value";

/// The possible causes of an error of `glGetProgramiv`.
pub fn get_program_iv_causes() -> (r: Vec<MsgMashingType>)
    ensures
        is_table_of(
            r@,
            seq![
                (GlErrTypes::InvalidValue, GET_PROGRAM_IV_CAUSE_0@),
                (GlErrTypes::InvalidOperation, GET_PROGRAM_IV_CAUSE_1@),
                (GlErrTypes::InvalidEnum, GET_PROGRAM_IV_CAUSE_2@),
            ],
        ),
{
    let mut r: Vec<MsgMashingType> = Vec::new();
    r.push(MsgMashingType::new(GET_PROGRAM_IV_CAUSE_0, GlErrTypes::InvalidValue));
    r.push(MsgMashingType::new(GET_PROGRAM_IV_CAUSE_1, GlErrTypes::InvalidOperation));
    r.push(MsgMashingType::new(GET_PROGRAM_IV_CAUSE_2, GlErrTypes::InvalidEnum));
    r
}

/// `r` is what became of the call of `glGetProgramiv` after which the driver flagged `status`.
pub open spec fn get_program_iv_outcome(r: Result<(), EOpenGL>, status: Option<GlErrTypes>) -> bool {
    exists|causes: Seq<MsgMashingType>|
        #[trigger] is_outcome(r, "glGetProgramiv"@, causes, status) && is_table_of(
            causes,
            seq![
                (GlErrTypes::InvalidValue, GET_PROGRAM_IV_CAUSE_0@),
                (GlErrTypes::InvalidOperation, GET_PROGRAM_IV_CAUSE_1@),
                (GlErrTypes::InvalidEnum, GET_PROGRAM_IV_CAUSE_2@),
            ],
        )
}

/// Returns value for a parameter from a program object for boolean parameter kind: what became of the call of `glGetProgramiv`.
pub fn get_program_iv(status: Option<GlErrTypes>) -> (r: Result<(), EOpenGL>)
    ensures
        get_program_iv_outcome(r, status),
        r is Ok <==> status is None,
{
    let causes = get_program_iv_causes();
    let r = check_for_error("glGetProgramiv", causes, status);
    assert(is_outcome(r, "glGetProgramiv"@, causes@, status));
    r
}

pub const GET_PROGRAM_IV_BOOL_CAUSE_0: &'static str = "the parameter 'program' is not a value generated by Opengl";

pub const GET_PROGRAM_IV_BOOL_CAUSE_1: &'static str = "possible cause of error:\n
                     -  The parameter 'program' does not refer to a program object\n
                     -  The parameter 'pname'  is GL_GEOMETRY_VERTICES_OUT, \
                        GL_GEOMETRY_INPUT_TYPE, or GL_GEOMETRY_OUTPUT_TYPE and program does not \
                        contain a geometry shader \
                        or pname is GL_COMPUTE_WORK_GROUP_SIZE and program does not contain a \
                        binary for the compute shader stage\n";

pub const GET_PROGRAM_IV_BOOL_CAUSE_2: &'static str = "the parameters program is not an accepted value";

/// The possible causes of an error of `glGetProgramiv`.
pub fn get_program_iv_bool_causes() -> (r: Vec<MsgMashingType>)
    ensures
        is_table_of(
            r@,
            seq![
                (GlErrTypes::InvalidValue, GET_PROGRAM_IV_BOOL_CAUSE_0@),
                (GlErrTypes::InvalidOperation, GET_PROGRAM_IV_BOOL_CAUSE_1@),
                (GlErrTypes::InvalidEnum, GET_PROGRAM_IV_BOOL_CAUSE_2@),
            ],
        ),
{
    let mut r: Vec<MsgMashingType> = Vec::new();
    r.push(MsgMashingType::new(GET_PROGRAM_IV_BOOL_CAUSE_0, GlErrTypes::InvalidValue));
    r.push(MsgMashingType::new(GET_PROGRAM_IV_BOOL_CAUSE_1, GlErrTypes::InvalidOperation));
    r.push(MsgMashingType::new(GET_PROGRAM_IV_BOOL_CAUSE_2, GlErrTypes::InvalidEnum));
    r
}

/// `r` is what became of the call of `glGetProgramiv` after which the driver flagged `status`.
pub open spec fn get_program_iv_bool_outcome(r: Result<(), EOpenGL>, status: Option<GlErrTypes>) -> bool {
    exists|causes: Seq<MsgMashingType>|
        #[trigger] is_outcome(r, "glGetProgramiv"@, causes, status) && is_table_of(
            causes,
            seq![
                (GlErrTypes::InvalidValue, GET_PROGRAM_IV_BOOL_CAUSE_0@),
                (GlErrTypes::InvalidOperation, GET_PROGRAM_IV_BOOL_CAUSE_1@),
                (GlErrTypes::InvalidEnum, GET_PROGRAM_IV_BOOL_CAUSE_2@),
            ],
        )
}

/// Returns value for a parameter from a program object for boolean parameter kind: what became of the call of `glGetProgramiv`.
pub fn get_program_iv_bool(status: Option<GlErrTypes>) -> (r: Result<(), EOpenGL>)
    ensures
        get_program_iv_bool_outcome(r, status),
        r is Ok <==> status is None,
{
    let causes = get_program_iv_bool_causes();
    let r = check_for_error("glGetProgramiv", causes, status);
    assert(is_outcome(r, "glGetProgramiv"@, causes@, status));
    r
}

pub const GET_ACTIVE_UNIFORM_CAUSE_0: &'static str = "possible cause of error:\n\
                     -  the parameter 'program' is not a value generated by Opengl\n
                     -  The parameter 'index' is greater than or equal to the number of active \
                        uniform variables in the parameter program or the parameter 'bufsize' \
                        is less than 0\n";

pub const GET_ACTIVE_UNIFORM_CAUSE_1: &'static str = "The parameter 'program' does not refer to a program object";

/// The possible causes of an error of `glGetActiveUniform`.
pub fn get_active_uniform_causes() -> (r: Vec<MsgMashingType>)
    ensures
        is_table_of(
            r@,
            seq![
                (GlErrTypes::InvalidValue, GET_ACTIVE_UNIFORM_CAUSE_0@),
                (GlErrTypes::InvalidOperation, GET_ACTIVE_UNIFORM_CAUSE_1@),
            ],
        ),
{
    let mut r: Vec<MsgMashingType> = Vec::new();
    r.push(MsgMashingType::new(GET_ACTIVE_UNIFORM_CAUSE_0, GlErrTypes::InvalidValue));
    r.push(MsgMashingType::new(GET_ACTIVE_UNIFORM_CAUSE_1, GlErrTypes::InvalidOperation));
    r
}

/// `r` is what became of the call of `glGetActiveUniform` after which the driver flagged `status`.
pub open spec fn get_active_uniform_outcome(r: Result<(), EOpenGL>, status: Option<GlErrTypes>) -> bool {
    exists|causes: Seq<MsgMashingType>|
        #[trigger] is_outcome(r, "glGetActiveUniform"@, causes, status) && is_table_of(
            causes,
            seq![
                (GlErrTypes::InvalidValue, GET_ACTIVE_UNIFORM_CAUSE_0@),
                (GlErrTypes::InvalidOperation, GET_ACTIVE_UNIFORM_CAUSE_1@),
            ],
        )
}

/// Returns information about an active uniform variable for the specified program object: what became of the call of `glGetActiveUniform`.
pub fn get_active_uniform(status: Option<GlErrTypes>) -> (r: Result<(), EOpenGL>)
    ensures
        get_active_uniform_outcome(r, status),
        r is Ok <==> status is None,
{
    let causes = get_active_uniform_causes();
    let r = check_for_error("glGetActiveUniform", causes, status);
    assert(is_outcome(r, "glGetActiveUniform"@, causes@, status));
    r
}

pub const GET_PROGRAM_INFO_LOG_CAUSE_0: &'static str = "possible cause of error:\n\
                     -  The parameter 'program' is not a value generated by Opengl\n
                     -  The parameter 'maxLength' is less than 0\n";

pub const GET_PROGRAM_INFO_LOG_CAUSE_1: &'static str = "The parameter 'program' does not refer to a program object";

/// The possible causes of an error of `glGetProgramInfoLog`.
pub fn get_program_info_log_causes() -> (r: Vec<MsgMashingType>)
    ensures
        is_table_of(
            r@,
            seq![
                (GlErrTypes::InvalidValue, GET_PROGRAM_INFO_LOG_CAUSE_0@),
                (GlErrTypes::InvalidOperation, GET_PROGRAM_INFO_LOG_CAUSE_1@),
            ],
        ),
{
    let mut r: Vec<MsgMashingType> = Vec::new();
    r.push(MsgMashingType::new(GET_PROGRAM_INFO_LOG_CAUSE_0, GlErrTypes::InvalidValue));
    r.push(MsgMashingType::new(GET_PROGRAM_INFO_LOG_CAUSE_1, GlErrTypes::InvalidOperation));
    r
}

/// `r` is what became of the call of `glGetProgramInfoLog` after which the driver flagged `status`.
pub open spec fn get_program_info_log_outcome(r: Result<(), EOpenGL>, status: Option<GlErrTypes>) -> bool {
    exists|causes: Seq<MsgMashingType>|
        #[trigger] is_outcome(r, "glGetProgramInfoLog"@, causes, status) && is_table_of(
            causes,
            seq![
                (GlErrTypes::InvalidValue, GET_PROGRAM_INFO_LOG_CAUSE_0@),
                (GlErrTypes::InvalidOperation, GET_PROGRAM_INFO_LOG_CAUSE_1@),
            ],
        )
}

/// Returns the information log for a program object: what became of the call of `glGetProgramInfoLog`.
pub fn get_program_info_log(status: Option<GlErrTypes>) -> (r: Result<(), EOpenGL>)
    ensures
        get_program_info_log_outcome(r, status),
        r is Ok <==> status is None,
{
    let causes = get_program_info_log_causes();
    let r = check_for_error("glGetProgramInfoLog", causes, status);
    assert(is_outcome(r, "glGetProgramInfoLog"@, causes@, status));
    r
}

pub const USE_PROGRAM_CAUSE_0: &'static str = "the parameter program is neither 0 nor a value generated by OpenGL";

pub const USE_PROGRAM_CAUSE_1: &'static str = "The parameter 'program' does not refer to a program object";

/// The possible causes of an error of `glUseProgram`.
pub fn use_program_causes() -> (r: Vec<MsgMashingType>)
    ensures
        is_table_of(
            r@,
            seq![
                (GlErrTypes::InvalidValue, USE_PROGRAM_CAUSE_0@),
                (GlErrTypes::InvalidOperation, USE_PROGRAM_CAUSE_1@),
            ],
        ),
{
    let mut r: Vec<MsgMashingType> = Vec::new();
    r.push(MsgMashingType::new(USE_PROGRAM_CAUSE_0, GlErrTypes::InvalidValue));
    r.push(MsgMashingType::new(USE_PROGRAM_CAUSE_1, GlErrTypes::InvalidOperation));
    r
}

/// `r` is what became of the call of `glUseProgram` after which the driver flagged `status`.
pub open spec fn use_program_outcome(r: Result<(), EOpenGL>, status: Option<GlErrTypes>) -> bool {
    exists|causes: Seq<MsgMashingType>|
        #[trigger] is_outcome(r, "glUseProgram"@, causes, status) && is_table_of(
            causes,
            seq![
                (GlErrTypes::InvalidValue, USE_PROGRAM_CAUSE_0@),
                (GlErrTypes::InvalidOperation, USE_PROGRAM_CAUSE_1@),
            ],
        )
}

/// Installs a program object as part of current rendering state: what became of the call of `glUseProgram`.
pub fn use_program(status: Option<GlErrTypes>) -> (r: Result<(), EOpenGL>)
    ensures
        use_program_outcome(r, status),
        r is Ok <==> status is None,
{
    let causes = use_program_causes();
    let r = check_for_error("glUseProgram", causes, status);
    assert(is_outcome(r, "glUseProgram"@, causes@, status));
    r
}

pub const DELETE_PROGRAM_CAUSE_0: &'static str = "The parameter 'program' is not a value generated by Opengl";

/// The possible causes of an error of `glDeleteProgram`.
pub fn delete_program_causes() -> (r: Vec<MsgMashingType>)
    ensures
        is_table_of(
            r@,
            seq![
                (GlErrTypes::InvalidValue, DELETE_PROGRAM_CAUSE_0@),
            ],
        ),
{
    let mut r: Vec<MsgMashingType> = Vec::new();
    r.push(MsgMashingType::new(DELETE_PROGRAM_CAUSE_0, GlErrTypes::InvalidValue));
    r
}

/// `r` is what became of the call of `glDeleteProgram` after which the driver flagged `status`.
pub open spec fn delete_program_outcome(r: Result<(), EOpenGL>, status: Option<GlErrTypes>) -> bool {
    exists|causes: Seq<MsgMashingType>|
        #[trigger] is_outcome(r, "glDeleteProgram"@, causes, status) && is_table_of(
            causes,
            seq![
                (GlErrTypes::InvalidValue, DELETE_PROGRAM_CAUSE_0@),
            ],
        )
}

/// Deletes a program object: what became of the call of `glDeleteProgram`.
pub fn delete_program(status: Option<GlErrTypes>) -> (r: Result<(), EOpenGL>)
    ensures
        delete_program_outcome(r, status),
        r is Ok <==> status is None,
{
    let causes = delete_program_causes();
    let r = check_for_error("glDeleteProgram", causes, status);
    assert(is_outcome(r, "glDeleteProgram"@, causes@, status));
    r
}

pub const GET_UNIFORM_LOCATION_CAUSE_0: &'static str = "The parameter 'program' is not a value generated by Opengl";

pub const GET_UNIFORM_LOCATION_CAUSE_1: &'static str = "possible cause of error:\n
                    - The parameter 'program' does not refer to a program object\n
                    - The parameter 'program' has not been successfully linked\n";

/// The possible causes of an error of `glGetUniformLocation`.
pub fn get_uniform_location_causes() -> (r: Vec<MsgMashingType>)
    ensures
        is_table_of(
            r@,
            seq![
                (GlErrTypes::InvalidValue, GET_UNIFORM_LOCATION_CAUSE_0@),
                (GlErrTypes::InvalidOperation, GET_UNIFORM_LOCATION_CAUSE_1@),
            ],
        ),
{
    let mut r: Vec<MsgMashingType> = Vec::new();
    r.push(MsgMashingType::new(GET_UNIFORM_LOCATION_CAUSE_0, GlErrTypes::InvalidValue));
    r.push(MsgMashingType::new(GET_UNIFORM_LOCATION_CAUSE_1, GlErrTypes::InvalidOperation));
    r
}

/// `r` is what became of the call of `glGetUniformLocation` after which the driver flagged `status`.
pub open spec fn get_uniform_location_outcome(r: Result<(), EOpenGL>, status: Option<GlErrTypes>) -> bool {
    exists|causes: Seq<MsgMashingType>|
        #[trigger] is_outcome(r, "glGetUniformLocation"@, causes, status) && is_table_of(
            causes,
            seq![
                (GlErrTypes::InvalidValue, GET_UNIFORM_LOCATION_CAUSE_0@),
                (GlErrTypes::InvalidOperation, GET_UNIFORM_LOCATION_CAUSE_1@),
            ],
        )
}

/// Returns the location of a uniform variable: what became of the call of `glGetUniformLocation`.
pub fn get_uniform_location(status: Option<GlErrTypes>) -> (r: Result<(), EOpenGL>)
    ensures
        get_uniform_location_outcome(r, status),
        r is Ok <==> status is None,
{
    let causes = get_uniform_location_causes();
    let r = check_for_error("glGetUniformLocation", causes, status);
    assert(is_outcome(r, "glGetUniformLocation"@, causes@, status));
    r
}

/// `r` is what became of the call of `glUniformMatrix4fv` after which the driver flagged `status`.
pub open spec fn uniform_matrix_4fv_outcome(r: Result<(), EOpenGL>, status: Option<GlErrTypes>) -> bool {
    exists|causes: Seq<MsgMashingType>|
        #[trigger] is_outcome(r, "glUniformMatrix4fv"@, causes, status) && is_table_of(
            causes,
            seq![
                (GlErrTypes::InvalidOperation, UNIFORM_SPECIFIER_CAUSE_0@),
                (GlErrTypes::InvalidValue, UNIFORM_SPECIFIER_CAUSE_1@),
            ],
        )
}

/// Specify the value of a uniform variable for a specified program object: what became of the call of `glUniformMatrix4fv`.
pub fn uniform_matrix_4fv(status: Option<GlErrTypes>) -> (r: Result<(), EOpenGL>)
    ensures
        uniform_matrix_4fv_outcome(r, status),
        r is Ok <==> status is None,
{
    let causes = uniform_specifier_causes();
    let r = check_for_error("glUniformMatrix4fv", causes, status);
    assert(is_outcome(r, "glUniformMatrix4fv"@, causes@, status));
    r
}

/// `r` is what became of the call of `glUniform1i` after which the driver flagged `status`.
pub open spec fn uniform_int_1_outcome(r: Result<(), EOpenGL>, status: Option<GlErrTypes>) -> bool {
    exists|causes: Seq<MsgMashingType>|
        #[trigger] is_outcome(r, "glUniform1i"@, causes, status) && is_table_of(
            causes,
            seq![
                (GlErrTypes::InvalidOperation, UNIFORM_SPECIFIER_CAUSE_0@),
                (GlErrTypes::InvalidValue, UNIFORM_SPECIFIER_CAUSE_1@),
            ],
        )
}

/// Specify the value of a uniform variable for a specified program object: what became of the call of `glUniform1i`.
pub fn uniform_int_1(status: Option<GlErrTypes>) -> (r: Result<(), EOpenGL>)
    ensures
        uniform_int_1_outcome(r, status),
        r is Ok <==> status is None,
{
    let causes = uniform_specifier_causes();
    let r = check_for_error("glUniform1i", causes, status);
    assert(is_outcome(r, "glUniform1i"@, causes@, status));
    r
}

/// `r` is what became of the call of `glUniform2i` after which the driver flagged `status`.
pub open spec fn uniform_int_2_outcome(r: Result<(), EOpenGL>, status: Option<GlErrTypes>) -> bool {
    exists|causes: Seq<MsgMashingType>|
        #[trigger] is_outcome(r, "glUniform2i"@, causes, status) && is_table_of(
            causes,
            seq![
                (GlErrTypes::InvalidOperation, UNIFORM_SPECIFIER_CAUSE_0@),
                (GlErrTypes::InvalidValue, UNIFORM_SPECIFIER_CAUSE_1@),
            ],
        )
}

/// Specify the value of a uniform variable for a specified program object: what became of the call of `glUniform2i`.
pub fn uniform_int_2(status: Option<GlErrTypes>) -> (r: Result<(), EOpenGL>)
    ensures
        uniform_int_2_outcome(r, status),
        r is Ok <==> status is None,
{
    let causes = uniform_specifier_causes();
    let r = check_for_error("glUniform2i", causes, status);
    assert(is_outcome(r, "glUniform2i"@, causes@, status));
    r
}

/// `r` is what became of the call of `glUniform3i` after which the driver flagged `status`.
pub open spec fn uniform_int_3_outcome(r: Result<(), EOpenGL>, status: Option<GlErrTypes>) -> bool {
    exists|causes: Seq<MsgMashingType>|
        #[trigger] is_outcome(r, "glUniform3i"@, causes, status) && is_table_of(
            causes,
            seq![
                (GlErrTypes::InvalidOperation, UNIFORM_SPECIFIER_CAUSE_0@),
                (GlErrTypes::InvalidValue, UNIFORM_SPECIFIER_CAUSE_1@),
            ],
        )
}

/// Specify the value of a uniform variable for a specified program object: what became of the call of `glUniform3i`.
pub fn uniform_int_3(status: Option<GlErrTypes>) -> (r: Result<(), EOpenGL>)
    ensures
        uniform_int_3_outcome(r, status),
        r is Ok <==> status is None,
{
    let causes = uniform_specifier_causes();
    let r = check_for_error("glUniform3i", causes, status);
    assert(is_outcome(r, "glUniform3i"@, causes@, status));
    r
}

/// `r` is what became of the call of `glUniform3i` after which the driver flagged `status`.
pub open spec fn uniform_int_4_outcome(r: Result<(), EOpenGL>, status: Option<GlErrTypes>) -> bool {
    exists|causes: Seq<MsgMashingType>|
        #[trigger] is_outcome(r, "glUniform3i"@, causes, status) && is_table_of(
            causes,
            seq![
                (GlErrTypes::InvalidOperation, UNIFORM_SPECIFIER_CAUSE_0@),
                (GlErrTypes::InvalidValue, UNIFORM_SPECIFIER_CAUSE_1@),
            ],
        )
}

/// Specify the value of a uniform variable for a specified program object: what became of the call of `glUniform3i`.
pub fn uniform_int_4(status: Option<GlErrTypes>) -> (r: Result<(), EOpenGL>)
    ensures
        uniform_int_4_outcome(r, status),
        r is Ok <==> status is None,
{
    let causes = uniform_specifier_causes();
    let r = check_for_error("glUniform3i", causes, status);
    assert(is_outcome(r, "glUniform3i"@, causes@, status));
    r
}

pub const GEN_VERTEX_ARRAY_CAUSE_0: &'static str = "The parameter 'n' is negative";

/// The possible causes of an error of `glGenVertexArrays`.
pub fn gen_vertex_array_causes() -> (r: Vec<MsgMashingType>)
    ensures
        is_table_of(
            r@,
            seq![
                (GlErrTypes::InvalidValue, GEN_VERTEX_ARRAY_CAUSE_0@),
            ],
        ),
{
    let mut r: Vec<MsgMashingType> = Vec::new();
    r.push(MsgMashingType::new(GEN_VERTEX_ARRAY_CAUSE_0, GlErrTypes::InvalidValue));
    r
}

/// `r` is what became of the call of `glGenVertexArrays` after which the driver flagged `status`.
pub open spec fn gen_vertex_array_outcome(r: Result<(), EOpenGL>, status: Option<GlErrTypes>) -> bool {
    exists|causes: Seq<MsgMashingType>|
        #[trigger] is_outcome(r, "glGenVertexArrays"@, causes, status) && is_table_of(
            causes,
            seq![
                (GlErrTypes::InvalidValue, GEN_VERTEX_ARRAY_CAUSE_0@),
            ],
        )
}

/// Generate vertex.rs array object names: what became of the call of `glGenVertexArrays`.
pub fn gen_vertex_array(status: Option<GlErrTypes>) -> (r: Result<(), EOpenGL>)
    ensures
        gen_vertex_array_outcome(r, status),
        r is Ok <==> status is None,
{
    let causes = gen_vertex_array_causes();
    let r = check_for_error("glGenVertexArrays", causes, status);
    assert(is_outcome(r, "glGenVertexArrays"@, causes@, status));
    r
}

pub const BIND_VERTEX_ARRAY_CAUSE_0: &'static str = "The parameter 'array' is not zero or the name of a vertex array object \
                    previously returned from a call to glGenVertexArrays";

/// The possible causes of an error of `glBindVertexArray`.
pub fn bind_vertex_array_causes() -> (r: Vec<MsgMashingType>)
    ensures
        is_table_of(
            r@,
            seq![
                (GlErrTypes::InvalidOperation, BIND_VERTEX_ARRAY_CAUSE_0@),
            ],
        ),
{
    let mut r: Vec<MsgMashingType> = Vec::new();
    r.push(MsgMashingType::new(BIND_VERTEX_ARRAY_CAUSE_0, GlErrTypes::InvalidOperation));
    r
}

/// `r` is what became of the call of `glBindVertexArray` after which the driver flagged `status`.
pub open spec fn bind_vertex_array_outcome(r: Result<(), EOpenGL>, status: Option<GlErrTypes>) -> bool {
    exists|causes: Seq<MsgMashingType>|
        #[trigger] is_outcome(r, "glBindVertexArray"@, causes, status) && is_table_of(
            causes,
            seq![
                (GlErrTypes::InvalidOperation, BIND_VERTEX_ARRAY_CAUSE_0@),
            ],
        )
}

/// Bind a vertex.rs array object: what became of the call of `glBindVertexArray`.
pub fn bind_vertex_array(status: Option<GlErrTypes>) -> (r: Result<(), EOpenGL>)
    ensures
        bind_vertex_array_outcome(r, status),
        r is Ok <==> status is None,
{
    let causes = bind_vertex_array_causes();
    let r = check_for_error("glBindVertexArray", causes, status);
    assert(is_outcome(r, "glBindVertexArray"@, causes@, status));
    r
}

pub const GEN_BUFFER_CAUSE_0: &'static str = "The parameter 'n' is negative";

/// The possible causes of an error of `glGenBuffers`.
pub fn gen_buffer_causes() -> (r: Vec<MsgMashingType>)
    ensures
        is_table_of(
            r@,
            seq![
                (GlErrTypes::InvalidValue, GEN_BUFFER_CAUSE_0@),
            ],
        ),
{
    let mut r: Vec<MsgMashingType> = Vec::new();
    r.push(MsgMashingType::new(GEN_BUFFER_CAUSE_0, GlErrTypes::InvalidValue));
    r
}

/// `r` is what became of the call of `glGenBuffers` after which the driver flagged `status`.
pub open spec fn gen_buffer_outcome(r: Result<(), EOpenGL>, status: Option<GlErrTypes>) -> bool {
    exists|causes: Seq<MsgMashingType>|
        #[trigger] is_outcome(r, "glGenBuffers"@, causes, status) && is_table_of(
            causes,
            seq![
                (GlErrTypes::InvalidValue, GEN_BUFFER_CAUSE_0@),
            ],
        )
}

/// Generate buffer object names: what became of the call of `glGenBuffers`.
pub fn gen_buffer(status: Option<GlErrTypes>) -> (r: Result<(), EOpenGL>)
    ensures
        gen_buffer_outcome(r, status),
        r is Ok <==> status is None,
{
    let causes = gen_buffer_causes();
    let r = check_for_error("glGenBuffers", causes, status);
    assert(is_outcome(r, "glGenBuffers"@, causes@, status));
    r
}

pub const BIND_BUFFER_CAUSE_0: &'static str = "The parameter 'target' is not one of the allowable values";

pub const BIND_BUFFER_CAUSE_1: &'static str = "The parameter 'buffer' is not a name previously returned from a call to \
                    glGenBuffers";

/// The possible causes of an error of `glBindBuffer`.
pub fn bind_buffer_causes() -> (r: Vec<MsgMashingType>)
    ensures
        is_table_of(
            r@,
            seq![
                (GlErrTypes::InvalidEnum, BIND_BUFFER_CAUSE_0@),
                (GlErrTypes::InvalidValue, BIND_BUFFER_CAUSE_1@),
            ],
        ),
{
    let mut r: Vec<MsgMashingType> = Vec::new();
    r.push(MsgMashingType::new(BIND_BUFFER_CAUSE_0, GlErrTypes::InvalidEnum));
    r.push(MsgMashingType::new(BIND_BUFFER_CAUSE_1, GlErrTypes::InvalidValue));
    r
}

/// `r` is what became of the call of `glBindBuffer` after which the driver flagged `status`.
pub open spec fn bind_buffer_outcome(r: Result<(), EOpenGL>, status: Option<GlErrTypes>) -> bool {
    exists|causes: Seq<MsgMashingType>|
        #[trigger] is_outcome(r, "glBindBuffer"@, causes, status) && is_table_of(
            causes,
            seq![
                (GlErrTypes::InvalidEnum, BIND_BUFFER_CAUSE_0@),
                (GlErrTypes::InvalidValue, BIND_BUFFER_CAUSE_1@),
            ],
        )
}

/// Bind a named buffer object: what became of the call of `glBindBuffer`.
pub fn bind_buffer(status: Option<GlErrTypes>) -> (r: Result<(), EOpenGL>)
    ensures
        bind_buffer_outcome(r, status),
        r is Ok <==> status is None,
{
    let causes = bind_buffer_causes();
    let r = check_for_error("glBindBuffer", causes, status);
    assert(is_outcome(r, "glBindBuffer"@, causes@, status));
    r
}

pub const BUFFER_DATA_CAUSE_0: &'static str = "possible cause of error:\n
                    \n
                    - The parameter 'target' is not one of the accepted buffer targets\n
                    - The parameter 'usage' is not GL_STREAM_DRAW\n
                    ";

pub const BUFFER_DATA_CAUSE_1: &'static str = "possible cause of error:\n
                     - The reserved buffer object name 0 is bound to targets\n
                     - The GL_BUFFER_IMMUTABLE_STORAGE flag of the buffer object is GL_TRUE\n
                     ";

pub const BUFFER_DATA_CAUSE_2: &'static str = "The parameter 'size' is negative";

pub const BUFFER_DATA_CAUSE_3: &'static str = "Unable to create a data store with the specified by the 'size' parameter";

/// The possible causes of an error of `glBufferData`.
pub fn buffer_data_causes() -> (r: Vec<MsgMashingType>)
    ensures
        is_table_of(
            r@,
            seq![
                (GlErrTypes::InvalidEnum, BUFFER_DATA_CAUSE_0@),
                (GlErrTypes::InvalidOperation, BUFFER_DATA_CAUSE_1@),
                (GlErrTypes::InvalidValue, BUFFER_DATA_CAUSE_2@),
                (GlErrTypes::OutOfMemory, BUFFER_DATA_CAUSE_3@),
            ],
        ),
{
    let mut r: Vec<MsgMashingType> = Vec::new();
    r.push(MsgMashingType::new(BUFFER_DATA_CAUSE_0, GlErrTypes::InvalidEnum));
    r.push(MsgMashingType::new(BUFFER_DATA_CAUSE_1, GlErrTypes::InvalidOperation));
    r.push(MsgMashingType::new(BUFFER_DATA_CAUSE_2, GlErrTypes::InvalidValue));
    r.push(MsgMashingType::new(BUFFER_DATA_CAUSE_3, GlErrTypes::OutOfMemory));
    r
}

/// `r` is what became of the call of `glBufferData` after which the driver flagged `status`.
pub open spec fn buffer_data_outcome(r: Result<(), EOpenGL>, status: Option<GlErrTypes>) -> bool {
    exists|causes: Seq<MsgMashingType>|
        #[trigger] is_outcome(r, "glBufferData"@, causes, status) && is_table_of(
            causes,
            seq![
                (GlErrTypes::InvalidEnum, BUFFER_DATA_CAUSE_0@),
                (GlErrTypes::InvalidOperation, BUFFER_DATA_CAUSE_1@),
                (GlErrTypes::InvalidValue, BUFFER_DATA_CAUSE_2@),
                (GlErrTypes::OutOfMemory, BUFFER_DATA_CAUSE_3@),
            ],
        )
}

/// Creates and initializes a buffer object's data store: what became of the call of `glBufferData`.
pub fn buffer_data(status: Option<GlErrTypes>) -> (r: Result<(), EOpenGL>)
    ensures
        buffer_data_outcome(r, status),
        r is Ok <==> status is None,
{
    let causes = buffer_data_causes();
    let r = check_for_error("glBufferData", causes, status);
    assert(is_outcome(r, "glBufferData"@, causes@, status));
    r
}

pub const VERTEX_ATTRIB_POINTER_CAUSE_0: &'static str = "possible cause of error:\n
                    \n
                    - The parameter 'index' is greater than or equal to GL_MAX_VERTEX_ATTRIBS\n
                    - The parameter 'size' is not 1, 2, 3, 4 or (for glVertexAttribPointer), \
                      GL_BGRA\n
                    - the parameter 'stride' is negative\n";

pub const VERTEX_ATTRIB_POINTER_CAUSE_1: &'static str = "The parameter 'type' is not an accepted value";

pub const VERTEX_ATTRIB_POINTER_CAUSE_2: &'static str = "possible cause of error:\n
                    \n
                     -  The parameter 'size' is GL_BGRA and type is not GL_UNSIGNED_BYTE, \
                        GL_INT_2_10_10_10_REV or GL_UNSIGNED_INT_2_10_10_10_REV\n
                     -  The parameter 'type' is GL_INT_2_10_10_10_REV or \
                        GL_UNSIGNED_INT_2_10_10_10_REV and size is not 4 or GL_BGRA\n
                     -  The parameter 'type'  is GL_UNSIGNED_INT_10F_11F_11F_REV and size is not 3\n
                     -  The parameter 'size' is GL_BGRA and the parameter 'normalized' is GL_FALSE\n
                     -  zero is bound to the GL_ARRAY_BUFFER buffer object binding point and the \
                        pointer argument is not NULL\n";

/// The possible causes of an error of `glVertexAttribPointer`.
pub fn vertex_attrib_pointer_causes() -> (r: Vec<MsgMashingType>)
    ensures
        is_table_of(
            r@,
            seq![
                (GlErrTypes::InvalidValue, VERTEX_ATTRIB_POINTER_CAUSE_0@),
                (GlErrTypes::InvalidEnum, VERTEX_ATTRIB_POINTER_CAUSE_1@),
                (GlErrTypes::InvalidOperation, VERTEX_ATTRIB_POINTER_CAUSE_2@),
            ],
        ),
{
    let mut r: Vec<MsgMashingType> = Vec::new();
    r.push(MsgMashingType::new(VERTEX_ATTRIB_POINTER_CAUSE_0, GlErrTypes::InvalidValue));
    r.push(MsgMashingType::new(VERTEX_ATTRIB_POINTER_CAUSE_1, GlErrTypes::InvalidEnum));
    r.push(MsgMashingType::new(VERTEX_ATTRIB_POINTER_CAUSE_2, GlErrTypes::InvalidOperation));
    r
}

/// `r` is what became of the call of `glVertexAttribPointer` after which the driver flagged `status`.
pub open spec fn vertex_attrib_pointer_outcome(r: Result<(), EOpenGL>, status: Option<GlErrTypes>) -> bool {
    exists|causes: Seq<MsgMashingType>|
        #[trigger] is_outcome(r, "glVertexAttribPointer"@, causes, status) && is_table_of(
            causes,
            seq![
                (GlErrTypes::InvalidValue, VERTEX_ATTRIB_POINTER_CAUSE_0@),
                (GlErrTypes::InvalidEnum, VERTEX_ATTRIB_POINTER_CAUSE_1@),
                (GlErrTypes::InvalidOperation, VERTEX_ATTRIB_POINTER_CAUSE_2@),
            ],
        )
}

/// Define an array of generic vertex.rs attribute data: what became of the call of `glVertexAttribPointer`.
pub fn vertex_attrib_pointer(status: Option<GlErrTypes>) -> (r: Result<(), EOpenGL>)
    ensures
        vertex_attrib_pointer_outcome(r, status),
        r is Ok <==> status is None,
{
    let causes = vertex_attrib_pointer_causes();
    let r = check_for_error("glVertexAttribPointer", causes, status);
    assert(is_outcome(r, "glVertexAttribPointer"@, causes@, status));
    r
}

pub const ENABLE_VERTEX_ATTRIB_ARRAY_CAUSE_0: &'static str = "no vertex.rs array object is bound";

pub const ENABLE_VERTEX_ATTRIB_ARRAY_CAUSE_1: &'static str = "The parameter 'index' is greater than or equal to GL_MAX_VERTEX_ATTRIBS";

/// The possible causes of an error of `glEnableVertexAttribArray`.
pub fn enable_vertex_attrib_array_causes() -> (r: Vec<MsgMashingType>)
    ensures
        is_table_of(
            r@,
            seq![
                (GlErrTypes::InvalidOperation, ENABLE_VERTEX_ATTRIB_ARRAY_CAUSE_0@),
                (GlErrTypes::InvalidValue, ENABLE_VERTEX_ATTRIB_ARRAY_CAUSE_1@),
            ],
        ),
{
    let mut r: Vec<MsgMashingType> = Vec::new();
    r.push(MsgMashingType::new(ENABLE_VERTEX_ATTRIB_ARRAY_CAUSE_0, GlErrTypes::InvalidOperation));
    r.push(MsgMashingType::new(ENABLE_VERTEX_ATTRIB_ARRAY_CAUSE_1, GlErrTypes::InvalidValue));
    r
}

/// `r` is what became of the call of `glEnableVertexAttribArray` after which the driver flagged `status`.
pub open spec fn enable_vertex_attrib_array_outcome(r: Result<(), EOpenGL>, status: Option<GlErrTypes>) -> bool {
    exists|causes: Seq<MsgMashingType>|
        #[trigger] is_outcome(r, "glEnableVertexAttribArray"@, causes, status) && is_table_of(
            causes,
            seq![
                (GlErrTypes::InvalidOperation, ENABLE_VERTEX_ATTRIB_ARRAY_CAUSE_0@),
                (GlErrTypes::InvalidValue, ENABLE_VERTEX_ATTRIB_ARRAY_CAUSE_1@),
            ],
        )
}

/// Enable a generic vertex.rs attribute array: what became of the call of `glEnableVertexAttribArray`.
pub fn enable_vertex_attrib_array(status: Option<GlErrTypes>) -> (r: Result<(), EOpenGL>)
    ensures
        enable_vertex_attrib_array_outcome(r, status),
        r is Ok <==> status is None,
{
    let causes = enable_vertex_attrib_array_causes();
    let r = check_for_error("glEnableVertexAttribArray", causes, status);
    assert(is_outcome(r, "glEnableVertexAttribArray"@, causes@, status));
    r
}

pub const DISABLE_VERTEX_ATTRIB_ARRAY_CAUSE_0: &'static str = "no vertex.rs array object is bound";

pub const DISABLE_VERTEX_ATTRIB_ARRAY_CAUSE_1: &'static str = "The parameter 'index' is greater than or equal to GL_MAX_VERTEX_ATTRIBS";

/// The possible causes of an error of `glDisableVertexAttribArray`.
pub fn disable_vertex_attrib_array_causes() -> (r: Vec<MsgMashingType>)
    ensures
        is_table_of(
            r@,
            seq![
                (GlErrTypes::InvalidOperation, DISABLE_VERTEX_ATTRIB_ARRAY_CAUSE_0@),
                (GlErrTypes::InvalidValue, DISABLE_VERTEX_ATTRIB_ARRAY_CAUSE_1@),
            ],
        ),
{
    let mut r: Vec<MsgMashingType> = Vec::new();
    r.push(MsgMashingType::new(DISABLE_VERTEX_ATTRIB_ARRAY_CAUSE_0, GlErrTypes::InvalidOperation));
    r.push(MsgMashingType::new(DISABLE_VERTEX_ATTRIB_ARRAY_CAUSE_1, GlErrTypes::InvalidValue));
    r
}

/// `r` is what became of the call of `glDisableVertexAttribArray` after which the driver flagged `status`.
pub open spec fn disable_vertex_attrib_array_outcome(r: Result<(), EOpenGL>, status: Option<GlErrTypes>) -> bool {
    exists|causes: Seq<MsgMashingType>|
        #[trigger] is_outcome(r, "glDisableVertexAttribArray"@, causes, status) && is_table_of(
            causes,
            seq![
                (GlErrTypes::InvalidOperation, DISABLE_VERTEX_ATTRIB_ARRAY_CAUSE_0@),
                (GlErrTypes::InvalidValue, DISABLE_VERTEX_ATTRIB_ARRAY_CAUSE_1@),
            ],
        )
}

/// Disable a generic vertex.rs attribute array: what became of the call of `glDisableVertexAttribArray`.
pub fn disable_vertex_attrib_array(status: Option<GlErrTypes>) -> (r: Result<(), EOpenGL>)
    ensures
        disable_vertex_attrib_array_outcome(r, status),
        r is Ok <==> status is None,
{
    let causes = disable_vertex_attrib_array_causes();
    let r = check_for_error("glDisableVertexAttribArray", causes, status);
    assert(is_outcome(r, "glDisableVertexAttribArray"@, causes@, status));
    r
}

pub const GEN_TEXTURES_CAUSE_0: &'static str = "The parameter 'n' is negative";

/// The possible causes of an error of `glGenTextures`.
pub fn gen_textures_causes() -> (r: Vec<MsgMashingType>)
    ensures
        is_table_of(
            r@,
            seq![
                (GlErrTypes::InvalidValue, GEN_TEXTURES_CAUSE_0@),
            ],
        ),
{
    let mut r: Vec<MsgMashingType> = Vec::new();
    r.push(MsgMashingType::new(GEN_TEXTURES_CAUSE_0, GlErrTypes::InvalidValue));
    r
}

/// `r` is what became of the call of `glGenTextures` after which the driver flagged `status`.
pub open spec fn gen_textures_outcome(r: Result<(), EOpenGL>, status: Option<GlErrTypes>) -> bool {
    exists|causes: Seq<MsgMashingType>|
        #[trigger] is_outcome(r, "glGenTextures"@, causes, status) && is_table_of(
            causes,
            seq![
                (GlErrTypes::InvalidValue, GEN_TEXTURES_CAUSE_0@),
            ],
        )
}

/// Generate texture names: what became of the call of `glGenTextures`.
pub fn gen_textures(status: Option<GlErrTypes>) -> (r: Result<(), EOpenGL>)
    ensures
        gen_textures_outcome(r, status),
        r is Ok <==> status is None,
{
    let causes = gen_textures_causes();
    let r = check_for_error("glGenTextures", causes, status);
    assert(is_outcome(r, "glGenTextures"@, causes@, status));
    r
}

pub const BIND_TEXTURES_CAUSE_0: &'static str = "the parameter 'target' is not one of the allowable values";

pub const BIND_TEXTURES_CAUSE_1: &'static str = "The parameter 'texture' is not a name returned from a previous call \
                    to glGenTextures";

pub const BIND_TEXTURES_CAUSE_2: &'static str = "The parameter 'texture'  was previously created with a target that doesn't \
                 match that of the parameter 'target'";

/// The possible causes of an error of `glBindTexture`.
pub fn bind_textures_causes() -> (r: Vec<MsgMashingType>)
    ensures
        is_table_of(
            r@,
            seq![
                (GlErrTypes::InvalidEnum, BIND_TEXTURES_CAUSE_0@),
                (GlErrTypes::InvalidValue, BIND_TEXTURES_CAUSE_1@),
                (GlErrTypes::InvalidOperation, BIND_TEXTURES_CAUSE_2@),
            ],
        ),
{
    let mut r: Vec<MsgMashingType> = Vec::new();
    r.push(MsgMashingType::new(BIND_TEXTURES_CAUSE_0, GlErrTypes::InvalidEnum));
    r.push(MsgMashingType::new(BIND_TEXTURES_CAUSE_1, GlErrTypes::InvalidValue));
    r.push(MsgMashingType::new(BIND_TEXTURES_CAUSE_2, GlErrTypes::InvalidOperation));
    r
}

/// `r` is what became of the call of `glBindTexture` after which the driver flagged `status`.
pub open spec fn bind_textures_outcome(r: Result<(), EOpenGL>, status: Option<GlErrTypes>) -> bool {
    exists|causes: Seq<MsgMashingType>|
        #[trigger] is_outcome(r, "glBindTexture"@, causes, status) && is_table_of(
            causes,
            seq![
                (GlErrTypes::InvalidEnum, BIND_TEXTURES_CAUSE_0@),
                (GlErrTypes::InvalidValue, BIND_TEXTURES_CAUSE_1@),
                (GlErrTypes::InvalidOperation, BIND_TEXTURES_CAUSE_2@),
            ],
        )
}

/// Bind a named texture to a texturing target: what became of the call of `glBindTexture`.
pub fn bind_textures(status: Option<GlErrTypes>) -> (r: Result<(), EOpenGL>)
    ensures
        bind_textures_outcome(r, status),
        r is Ok <==> status is None,
{
    let causes = bind_textures_causes();
    let r = check_for_error("glBindTexture", causes, status);
    assert(is_outcome(r, "glBindTexture"@, causes@, status));
    r
}

pub const TEX_PARAMETER_I_CAUSE_0: &'static str = "possible cause of error:\n
                    \n
                     -  The parameter 'pname' is not one of the accepted defined values\n
                     -  called for a non-scalar parameter (pname GL_TEXTURE_BORDER_COLOR or \
                        GL_TEXTURE_SWIZZLE_RGBA\n
                     -  The parameter 'target' is not one of the accepted defined values\n
                     -  The effective target is either GL_TEXTURE_2D_MULTISAMPLE or \
                        GL_TEXTURE_2D_MULTISAMPLE_ARRAY, and the parameter 'pname' \
                        is any of the sampler states\n
                     -  the effective target is GL_TEXTURE_RECTANGLE and either of the parameter \
                        'pnames' GL_TEXTURE_WRAP_S or GL_TEXTURE_WRAP_T is set to either \
                        GL_MIRROR_CLAMP_TO_EDGE, GL_MIRRORED_REPEAT or GL_REPEAT\n
                     -  he effective target is GL_TEXTURE_RECTANGLE and the parameter 'pname' \
                        GL_TEXTURE_MIN_FILTER is set to a value other than GL_NEAREST or GL_LINEAR \
                        (no mipmap filtering is permitted)";

pub const TEX_PARAMETER_I_CAUSE_1: &'static str = "possible cause of error:\n
                    \n
                    -   The effective target is either GL_TEXTURE_2D_MULTISAMPLE or \
                        GL_TEXTURE_2D_MULTISAMPLE_ARRAY, and the parameter 'pname' \
                        GL_TEXTURE_BASE_LEVEL is set to a value other than zero\n
                    -   The texture is not the name of an existing texture object.\n
                    -   The effective target is GL_TEXTURE_RECTANGLE and the parameter 'pname' \
                        GL_TEXTURE_BASE_LEVEL is set to any value other than zero\n
                    ";

pub const TEX_PARAMETER_I_CAUSE_2: &'static str = "The parameter 'pname' is GL_TEXTURE_BASE_LEVEL or GL_TEXTURE_MAX_LEVEL, \
                      and param or params is negative";

/// The possible causes of an error of `glTexParameteri`.
pub fn tex_parameter_i_causes() -> (r: Vec<MsgMashingType>)
    ensures
        is_table_of(
            r@,
            seq![
                (GlErrTypes::InvalidEnum, TEX_PARAMETER_I_CAUSE_0@),
                (GlErrTypes::InvalidOperation, TEX_PARAMETER_I_CAUSE_1@),
                (GlErrTypes::InvalidValue, TEX_PARAMETER_I_CAUSE_2@),
            ],
        ),
{
    let mut r: Vec<MsgMashingType> = Vec::new();
    r.push(MsgMashingType::new(TEX_PARAMETER_I_CAUSE_0, GlErrTypes::InvalidEnum));
    r.push(MsgMashingType::new(TEX_PARAMETER_I_CAUSE_1, GlErrTypes::InvalidOperation));
    r.push(MsgMashingType::new(TEX_PARAMETER_I_CAUSE_2, GlErrTypes::InvalidValue));
    r
}

/// `r` is what became of the call of `glTexParameteri` after which the driver flagged `status`.
pub open spec fn tex_parameter_i_outcome(r: Result<(), EOpenGL>, status: Option<GlErrTypes>) -> bool {
    exists|causes: Seq<MsgMashingType>|
        #[trigger] is_outcome(r, "glTexParameteri"@, causes, status) && is_table_of(
            causes,
            seq![
                (GlErrTypes::InvalidEnum, TEX_PARAMETER_I_CAUSE_0@),
                (GlErrTypes::InvalidOperation, TEX_PARAMETER_I_CAUSE_1@),
                (GlErrTypes::InvalidValue, TEX_PARAMETER_I_CAUSE_2@),
            ],
        )
}

/// Set texture parameters: what became of the call of `glTexParameteri`.
pub fn tex_parameter_i(status: Option<GlErrTypes>) -> (r: Result<(), EOpenGL>)
    ensures
        tex_parameter_i_outcome(r, status),
        r is Ok <==> status is None,
{
    let causes = tex_parameter_i_causes();
    let r = check_for_error("glTexParameteri", causes, status);
    assert(is_outcome(r, "glTexParameteri"@, causes@, status));
    r
}

pub const TEX_IMAGE_2D_CAUSE_0: &'static str = "possible cause of error:\n
                    \n
                     -  The parameter 'target' is not GL_TEXTURE_2D, GL_TEXTURE_1D_ARRAY, \
                        GL_TEXTURE_RECTANGLE, GL_PROXY_TEXTURE_2D, GL_PROXY_TEXTURE_1D_ARRAY, \
                        GL_PROXY_TEXTURE_RECTANGLE, GL_PROXY_TEXTURE_CUBE_MAP, \
                        GL_TEXTURE_CUBE_MAP_POSITIVE_X, GL_TEXTURE_CUBE_MAP_NEGATIVE_X, \
                        GL_TEXTURE_CUBE_MAP_POSITIVE_Y, GL_TEXTURE_CUBE_MAP_NEGATIVE_Y, \
                        GL_TEXTURE_CUBE_MAP_POSITIVE_Z, or GL_TEXTURE_CUBE_MAP_NEGATIVE_Z\n
                     -  The parameter 'target' is one of the six capsule map 2D image targets and \
                        the width and height parameters are not equal\n
                     -  the parameter 'type' is not a type constant\n
                     -  the parameter 'width' is less than 0 or greater than GL_MAX_TEXTURE_SIZE\n";

pub const TEX_IMAGE_2D_CAUSE_1: &'static str = "possible cause of error:\n
                    \n
                     -  The parameter 'target' is not GL_TEXTURE_1D_ARRAY or \
                        GL_PROXY_TEXTURE_1D_ARRAY and the parameter 'height' is less than 0 \
                        or greater than GL_MAX_TEXTURE_SIZE\n
                     -  The parameter 'target' is GL_TEXTURE_1D_ARRAY or GL_PROXY_TEXTURE_1D_ARRAY \
                        and height is less than 0 or greater than GL_MAX_ARRAY_TEXTURE_LAYERS\n
                     -  The parameter 'level' is less than 0\n
                     -  The parameter 'level' is greater than log2(max), where max is the \
                        returned value of GL_MAX_TEXTURE_SIZE\n
                     -  The parameter 'internalformat'  is not one of the accepted resolution \
                        and format symbolic constants\n
                     -  The parameter 'width' or 'height' s less than 0 or greater than \
                        GL_MAX_TEXTURE_SIZE.\n
                     -  The parameter 'border' is not 0\n
                     -  The parameter 'target'  is GL_TEXTURE_RECTANGLE or \
                        GL_PROXY_TEXTURE_RECTANGLE and the parameter 'level' is not 0\n";

pub const TEX_IMAGE_2D_CAUSE_2: &'static str = "possible cause of error:\n
                    \n
                     -  The parameter 'type' is one of GL_UNSIGNED_BYTE_3_3_2, \
                        GL_UNSIGNED_BYTE_2_3_3_REV, GL_UNSIGNED_SHORT_5_6_5, \
                        GL_UNSIGNED_SHORT_5_6_5_REV, or GL_UNSIGNED_INT_10F_11F_11F_REV, \
                        and format is not GL_RGB\n
                     -  The parameter 'type'  is one of GL_UNSIGNED_SHORT_4_4_4_4, \
                        GL_UNSIGNED_SHORT_4_4_4_4_REV, GL_UNSIGNED_SHORT_5_5_5_1, \
                        GL_UNSIGNED_SHORT_1_5_5_5_REV, GL_UNSIGNED_INT_8_8_8_8, \
                        GL_UNSIGNED_INT_8_8_8_8_REV, GL_UNSIGNED_INT_10_10_10_2, \
                        GL_UNSIGNED_INT_2_10_10_10_REV, or GL_UNSIGNED_INT_5_9_9_9_REV, \
                        and format is neither GL_RGBA nor GL_BGRA.\n
                     -  The parameter 'target' s not GL_TEXTURE_2D, GL_PROXY_TEXTURE_2D, \
                        GL_TEXTURE_RECTANGLE, or GL_PROXY_TEXTURE_RECTANGLE, \
                        and the parameter 'internalformat' is GL_DEPTH_COMPONENT, \
                        GL_DEPTH_COMPONENT16, GL_DEPTH_COMPONENT24, or GL_DEPTH_COMPONENT32F\n
                     -  The parameter 'format' is GL_DEPTH_COMPONENT and the parameter \
                        'internalformat' is not GL_DEPTH_COMPONENT, GL_DEPTH_COMPONENT16,\
                         GL_DEPTH_COMPONENT24, or GL_DEPTH_COMPONENT32F\n
                     -  The parameter 'internalformat' is GL_DEPTH_COMPONENT, \
                        GL_DEPTH_COMPONENT16,GL_DEPTH_COMPONENT24, or GL_DEPTH_COMPONENT32F, \
                         and format is not GL_DEPTH_COMPONENT\n
                     -  non-zero buffer object name is bound to the GL_PIXEL_UNPACK_BUFFER target \
                        and the buffer object's data store is currently mapped\n
                     -  non-zero buffer object name is bound to the GL_PIXEL_UNPACK_BUFFER target \
                        and the data would be unpacked from the buffer object such that the memory \
                        reads required would exceed the data store size\n
                     -  non-zero buffer object name is bound to the GL_PIXEL_UNPACK_BUFFER target \
                        and data is not evenly divisible into the number of bytes needed to store \
                        in memory a datum indicated by type\n";

/// The possible causes of an error of `glTexImage2D`.
pub fn tex_image_2d_causes() -> (r: Vec<MsgMashingType>)
    ensures
        is_table_of(
            r@,
            seq![
                (GlErrTypes::InvalidEnum, TEX_IMAGE_2D_CAUSE_0@),
                (GlErrTypes::InvalidValue, TEX_IMAGE_2D_CAUSE_1@),
                (GlErrTypes::InvalidOperation, TEX_IMAGE_2D_CAUSE_2@),
            ],
        ),
{
    let mut r: Vec<MsgMashingType> = Vec::new();
    r.push(MsgMashingType::new(TEX_IMAGE_2D_CAUSE_0, GlErrTypes::InvalidEnum));
    r.push(MsgMashingType::new(TEX_IMAGE_2D_CAUSE_1, GlErrTypes::InvalidValue));
    r.push(MsgMashingType::new(TEX_IMAGE_2D_CAUSE_2, GlErrTypes::InvalidOperation));
    r
}

/// `r` is what became of the call of `glTexImage2D` after which the driver flagged `status`.
pub open spec fn tex_image_2d_outcome(r: Result<(), EOpenGL>, status: Option<GlErrTypes>) -> bool {
    exists|causes: Seq<MsgMashingType>|
        #[trigger] is_outcome(r, "glTexImage2D"@, causes, status) && is_table_of(
            causes,
            seq![
                (GlErrTypes::InvalidEnum, TEX_IMAGE_2D_CAUSE_0@),
                (GlErrTypes::InvalidValue, TEX_IMAGE_2D_CAUSE_1@),
                (GlErrTypes::InvalidOperation, TEX_IMAGE_2D_CAUSE_2@),
            ],
        )
}

/// Specify a two-dimensional texture image: what became of the call of `glTexImage2D`.
pub fn tex_image_2d(status: Option<GlErrTypes>) -> (r: Result<(), EOpenGL>)
    ensures
        tex_image_2d_outcome(r, status),
        r is Ok <==> status is None,
{
    let causes = tex_image_2d_causes();
    let r = check_for_error("glTexImage2D", causes, status);
    assert(is_outcome(r, "glTexImage2D"@, causes@, status));
    r
}

pub const GEN_MIPMAP_CAUSE_0: &'static str = "The parameter `target` is not one of the accepted texture targets";

pub const GEN_MIPMAP_CAUSE_1: &'static str = "The parameter is GL_TEXTURE_CUBE_MAP or GL_TEXTURE_CUBE_MAP_ARRAY, and the \
                     specified texture object is not capsule complete or capsule array complete,
                     respectively";

/// The possible causes of an error of `glGenerateMipmap`.
pub fn gen_mipmap_causes() -> (r: Vec<MsgMashingType>)
    ensures
        is_table_of(
            r@,
            seq![
                (GlErrTypes::InvalidEnum, GEN_MIPMAP_CAUSE_0@),
                (GlErrTypes::InvalidOperation, GEN_MIPMAP_CAUSE_1@),
            ],
        ),
{
    let mut r: Vec<MsgMashingType> = Vec::new();
    r.push(MsgMashingType::new(GEN_MIPMAP_CAUSE_0, GlErrTypes::InvalidEnum));
    r.push(MsgMashingType::new(GEN_MIPMAP_CAUSE_1, GlErrTypes::InvalidOperation));
    r
}

/// `r` is what became of the call of `glGenerateMipmap` after which the driver flagged `status`.
pub open spec fn gen_mipmap_outcome(r: Result<(), EOpenGL>, status: Option<GlErrTypes>) -> bool {
    exists|causes: Seq<MsgMashingType>|
        #[trigger] is_outcome(r, "glGenerateMipmap"@, causes, status) && is_table_of(
            causes,
            seq![
                (GlErrTypes::InvalidEnum, GEN_MIPMAP_CAUSE_0@),
                (GlErrTypes::InvalidOperation, GEN_MIPMAP_CAUSE_1@),
            ],
        )
}

/// Generate mipmaps for a specified texture object: what became of the call of `glGenerateMipmap`.
pub fn gen_mipmap(status: Option<GlErrTypes>) -> (r: Result<(), EOpenGL>)
    ensures
        gen_mipmap_outcome(r, status),
        r is Ok <==> status is None,
{
    let causes = gen_mipmap_causes();
    let r = check_for_error("glGenerateMipmap", causes, status);
    assert(is_outcome(r, "glGenerateMipmap"@, causes@, status));
    r
}

pub const ACTIVE_TEXTURE_CAUSE_0: &'static str = "the parameter 'texture'  is not one of GL_TEXTUREi, where i ranges from zero \
                    to the value of GL_MAX_COMBINED_TEXTURE_IMAGE_UNITS minus one";

/// The possible causes of an error of `glActiveTexture`.
pub fn active_texture_causes() -> (r: Vec<MsgMashingType>)
    ensures
        is_table_of(
            r@,
            seq![
                (GlErrTypes::InvalidEnum, ACTIVE_TEXTURE_CAUSE_0@),
            ],
        ),
{
    let mut r: Vec<MsgMashingType> = Vec::new();
    r.push(MsgMashingType::new(ACTIVE_TEXTURE_CAUSE_0, GlErrTypes::InvalidEnum));
    r
}

/// `r` is what became of the call of `glActiveTexture` after which the driver flagged `status`.
pub open spec fn active_texture_outcome(r: Result<(), EOpenGL>, status: Option<GlErrTypes>) -> bool {
    exists|causes: Seq<MsgMashingType>|
        #[trigger] is_outcome(r, "glActiveTexture"@, causes, status) && is_table_of(
            causes,
            seq![
                (GlErrTypes::InvalidEnum, ACTIVE_TEXTURE_CAUSE_0@),
            ],
        )
}

/// Select active texture unit: what became of the call of `glActiveTexture`.
pub fn active_texture(status: Option<GlErrTypes>) -> (r: Result<(), EOpenGL>)
    ensures
        active_texture_outcome(r, status),
        r is Ok <==> status is None,
{
    let causes = active_texture_causes();
    let r = check_for_error("glActiveTexture", causes, status);
    assert(is_outcome(r, "glActiveTexture"@, causes@, status));
    r
}

pub const CLEAR_CAUSE_0: &'static str = "any bit other than the three defined bits is set in the parameter 'mask'";

/// The possible causes of an error of `glClear`.
pub fn clear_causes() -> (r: Vec<MsgMashingType>)
    ensures
        is_table_of(
            r@,
            seq![
                (GlErrTypes::InvalidValue, CLEAR_CAUSE_0@),
            ],
        ),
{
    let mut r: Vec<MsgMashingType> = Vec::new();
    r.push(MsgMashingType::new(CLEAR_CAUSE_0, GlErrTypes::InvalidValue));
    r
}

/// `r` is what became of the call of `glClear` after which the driver flagged `status`.
pub open spec fn clear_outcome(r: Result<(), EOpenGL>, status: Option<GlErrTypes>) -> bool {
    exists|causes: Seq<MsgMashingType>|
        #[trigger] is_outcome(r, "glClear"@, causes, status) && is_table_of(
            causes,
            seq![
                (GlErrTypes::InvalidValue, CLEAR_CAUSE_0@),
            ],
        )
}

/// Clear buffers to preset values: what became of the call of `glClear`.
pub fn clear(status: Option<GlErrTypes>) -> (r: Result<(), EOpenGL>)
    ensures
        clear_outcome(r, status),
        r is Ok <==> status is None,
{
    let causes = clear_causes();
    let r = check_for_error("glClear", causes, status);
    assert(is_outcome(r, "glClear"@, causes@, status));
    r
}

pub const DRAW_ELEMENTS_CAUSE_0: &'static str = "The parameter 'mode' is not an accepted value";

pub const DRAW_ELEMENTS_CAUSE_1: &'static str = "The parameter 'count' is negative";

pub const DRAW_ELEMENTS_CAUSE_2: &'static str = "possible cause of error:\n
                     -  Geometry shader is active and the parameter 'mode' is incompatible with \
                        the input primitive type of the geometry shader in the currently installed \
                        program object\n
                    -   non-zero buffer object name is bound to an enabled array or the element \
                        array and the buffer object's data store is currently mapped\n";

/// The possible causes of an error of `glDrawElements`.
pub fn draw_elements_causes() -> (r: Vec<MsgMashingType>)
    ensures
        is_table_of(
            r@,
            seq![
                (GlErrTypes::InvalidEnum, DRAW_ELEMENTS_CAUSE_0@),
                (GlErrTypes::InvalidValue, DRAW_ELEMENTS_CAUSE_1@),
                (GlErrTypes::InvalidOperation, DRAW_ELEMENTS_CAUSE_2@),
            ],
        ),
{
    let mut r: Vec<MsgMashingType> = Vec::new();
    r.push(MsgMashingType::new(DRAW_ELEMENTS_CAUSE_0, GlErrTypes::InvalidEnum));
    r.push(MsgMashingType::new(DRAW_ELEMENTS_CAUSE_1, GlErrTypes::InvalidValue));
    r.push(MsgMashingType::new(DRAW_ELEMENTS_CAUSE_2, GlErrTypes::InvalidOperation));
    r
}

/// `r` is what became of the call of `glDrawElements` after which the driver flagged `status`.
pub open spec fn draw_elements_outcome(r: Result<(), EOpenGL>, status: Option<GlErrTypes>) -> bool {
    exists|causes: Seq<MsgMashingType>|
        #[trigger] is_outcome(r, "glDrawElements"@, causes, status) && is_table_of(
            causes,
            seq![
                (GlErrTypes::InvalidEnum, DRAW_ELEMENTS_CAUSE_0@),
                (GlErrTypes::InvalidValue, DRAW_ELEMENTS_CAUSE_1@),
                (GlErrTypes::InvalidOperation, DRAW_ELEMENTS_CAUSE_2@),
            ],
        )
}

/// Render primitives from array data: what became of the call of `glDrawElements`.
pub fn draw_elements(status: Option<GlErrTypes>) -> (r: Result<(), EOpenGL>)
    ensures
        draw_elements_outcome(r, status),
        r is Ok <==> status is None,
{
    let causes = draw_elements_causes();
    let r = check_for_error("glDrawElements", causes, status);
    assert(is_outcome(r, "glDrawElements"@, causes@, status));
    r
}

pub const DRAW_ARRAYS_CAUSE_0: &'static str = "The parameter 'mode' is not an accepted value";

pub const DRAW_ARRAYS_CAUSE_1: &'static str = "the parameter 'count' is negative";

pub const DRAW_ARRAYS_CAUSE_2: &'static str = "possible cause of error:\n\
                -   a non-zero buffer object name is bound to an enabled array and the buffer \
                    object's data store is currently mapped\n
                -   a geometry shader is active and mode is incompatible with the input primitive \
                    type of the geometry shader in the currently installed program object\n
                ";

/// The possible causes of an error of `glDrawArrays`.
pub fn draw_arrays_causes() -> (r: Vec<MsgMashingType>)
    ensures
        is_table_of(
            r@,
            seq![
                (GlErrTypes::InvalidEnum, DRAW_ARRAYS_CAUSE_0@),
                (GlErrTypes::InvalidValue, DRAW_ARRAYS_CAUSE_1@),
                (GlErrTypes::InvalidOperation, DRAW_ARRAYS_CAUSE_2@),
            ],
        ),
{
    let mut r: Vec<MsgMashingType> = Vec::new();
    r.push(MsgMashingType::new(DRAW_ARRAYS_CAUSE_0, GlErrTypes::InvalidEnum));
    r.push(MsgMashingType::new(DRAW_ARRAYS_CAUSE_1, GlErrTypes::InvalidValue));
    r.push(MsgMashingType::new(DRAW_ARRAYS_CAUSE_2, GlErrTypes::InvalidOperation));
    r
}

/// `r` is what became of the call of `glDrawArrays` after which the driver flagged `status`.
pub open spec fn draw_arrays_outcome(r: Result<(), EOpenGL>, status: Option<GlErrTypes>) -> bool {
    exists|causes: Seq<MsgMashingType>|
        #[trigger] is_outcome(r, "glDrawArrays"@, causes, status) && is_table_of(
            causes,
            seq![
                (GlErrTypes::InvalidEnum, DRAW_ARRAYS_CAUSE_0@),
                (GlErrTypes::InvalidValue, DRAW_ARRAYS_CAUSE_1@),
                (GlErrTypes::InvalidOperation, DRAW_ARRAYS_CAUSE_2@),
            ],
        )
}

/// Render primitives from array data: what became of the call of `glDrawArrays`.
pub fn draw_arrays(status: Option<GlErrTypes>) -> (r: Result<(), EOpenGL>)
    ensures
        draw_arrays_outcome(r, status),
        r is Ok <==> status is None,
{
    let causes = draw_arrays_causes();
    let r = check_for_error("glDrawArrays", causes, status);
    assert(is_outcome(r, "glDrawArrays"@, causes@, status));
    r
}

pub const VIEW_PORT_CAUSE_0: &'static str = "Either the parameter 'width' or 'height' is negative";

/// The possible causes of an error of `glViewport`.
pub fn view_port_causes() -> (r: Vec<MsgMashingType>)
    ensures
        is_table_of(
            r@,
            seq![
                (GlErrTypes::InvalidValue, VIEW_PORT_CAUSE_0@),
            ],
        ),
{
    let mut r: Vec<MsgMashingType> = Vec::new();
    r.push(MsgMashingType::new(VIEW_PORT_CAUSE_0, GlErrTypes::InvalidValue));
    r
}

/// `r` is what became of the call of `glViewport` after which the driver flagged `status`.
pub open spec fn view_port_outcome(r: Result<(), EOpenGL>, status: Option<GlErrTypes>) -> bool {
    exists|causes: Seq<MsgMashingType>|
        #[trigger] is_outcome(r, "glViewport"@, causes, status) && is_table_of(
            causes,
            seq![
                (GlErrTypes::InvalidValue, VIEW_PORT_CAUSE_0@),
            ],
        )
}

/// Set the viewport: what became of the call of `glViewport`.
pub fn view_port(status: Option<GlErrTypes>) -> (r: Result<(), EOpenGL>)
    ensures
        view_port_outcome(r, status),
        r is Ok <==> status is None,
{
    let causes = view_port_causes();
    let r = check_for_error("glViewport", causes, status);
    assert(is_outcome(r, "glViewport"@, causes@, status));
    r
}

pub const ENABLE_CAUSE_0: &'static str = "The parameter 'cap' is not value supported\n see list of supported values at:\
                     https://registry.khronos.org/OpenGL-Refpages/gl4/";

/// The possible causes of an error of `glEnable`.
pub fn enable_causes() -> (r: Vec<MsgMashingType>)
    ensures
        is_table_of(
            r@,
            seq![
                (GlErrTypes::InvalidEnum, ENABLE_CAUSE_0@),
            ],
        ),
{
    let mut r: Vec<MsgMashingType> = Vec::new();
    r.push(MsgMashingType::new(ENABLE_CAUSE_0, GlErrTypes::InvalidEnum));
    r
}

/// `r` is what became of the call of `glEnable` after which the driver flagged `status`.
pub open spec fn enable_outcome(r: Result<(), EOpenGL>, status: Option<GlErrTypes>) -> bool {
    exists|causes: Seq<MsgMashingType>|
        #[trigger] is_outcome(r, "glEnable"@, causes, status) && is_table_of(
            causes,
            seq![
                (GlErrTypes::InvalidEnum, ENABLE_CAUSE_0@),
            ],
        )
}

/// Enable server-side GL capabilities: what became of the call of `glEnable`.
pub fn enable(status: Option<GlErrTypes>) -> (r: Result<(), EOpenGL>)
    ensures
        enable_outcome(r, status),
        r is Ok <==> status is None,
{
    let causes = enable_causes();
    let r = check_for_error("glEnable", causes, status);
    assert(is_outcome(r, "glEnable"@, causes@, status));
    r
}

} // verus!
