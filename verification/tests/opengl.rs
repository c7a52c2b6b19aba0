use cobia::renderer::opengl::api::{
    bind_buffer, check_error_status, check_for_error, create_program, create_shader,
    uniform_int_4, GlErrTypes, MsgMashingType, UNKNOWN_REASON,
};
use cobia::renderer::opengl::buffer::{
    BindCall, Binding, EBO, TBO, VAO, VBO, BAD_DETAILS_LVL, BAD_FORMAT, BAD_INTERNAL_FMT,
    BAD_TARGET, BAD_TYPE,
};
use cobia::renderer::opengl::shader::{CompileReport, Program, Source};
use cobia::renderer::opengl::EOpenGL;

fn api_call(r: Result<(), EOpenGL>) -> (String, String) {
    match r {
        Err(EOpenGL::API_CALL(f, m)) => (f, m),
        other => panic!("an error of the call was expected, got {:?}", other),
    }
}

fn buffer_fault<T: std::fmt::Debug>(r: Result<T, EOpenGL>) -> (String, String) {
    match r {
        Err(EOpenGL::BUFFER(kind, why)) => (kind, why),
        other => panic!("a fault of the buffer was expected, got {:?}", other),
    }
}

#[test]
fn opengl_playfield() {
    let vao = VAO::new(3, None).unwrap();
    let vbo = VBO::new(4, None).unwrap();
    let ebo = EBO::new(5, None).unwrap();
    assert_eq!(vao.bind_call(), BindCall::VertexArray(3));
    assert_eq!(vao.unbind_call(), BindCall::VertexArray(0));
    assert_eq!(vbo.bind_call(), BindCall::Buffer(gl::ARRAY_BUFFER, 4));
    assert_eq!(ebo.bind_call(), BindCall::Buffer(gl::ELEMENT_ARRAY_BUFFER, 5));
    assert_eq!(ebo.unbind_call(), BindCall::Buffer(gl::ELEMENT_ARRAY_BUFFER, 0));
    assert!(vao.bind(None).is_ok());
    assert!(vbo.bind(Some(GlErrTypes::InvalidEnum)).is_err());
    let mut source = Source::new(7, None, None).unwrap();
    assert!(!source.is_compiled());
    let report = CompileReport {
        compile: None,
        status_query: None,
        compile_status: 1,
        length_query: None,
        log_query: None,
        info_log: String::new(),
    };
    assert!(source.compile(report).is_ok());
    assert!(source.is_compiled());
    let program = Program::new(9).unwrap();
    assert_eq!(program.get_id(), 9);
    assert!(program.attach_shader(&source, None).is_ok());
    assert!(program.link(None).is_ok());
    assert!(program.make_current(None).is_ok());
}

#[test]
fn error_flag_is_classified() {
    assert_eq!(check_error_status(gl::NO_ERROR), None);
    assert_eq!(check_error_status(gl::INVALID_ENUM), Some(GlErrTypes::InvalidEnum));
    assert_eq!(check_error_status(gl::INVALID_VALUE), Some(GlErrTypes::InvalidValue));
    assert_eq!(check_error_status(gl::INVALID_OPERATION), Some(GlErrTypes::InvalidOperation));
    assert_eq!(check_error_status(gl::STACK_OVERFLOW), Some(GlErrTypes::StackOverflow));
    assert_eq!(check_error_status(gl::STACK_UNDERFLOW), Some(GlErrTypes::StackUnderflow));
    assert_eq!(check_error_status(gl::OUT_OF_MEMORY), Some(GlErrTypes::OutOfMemory));
    assert_eq!(
        check_error_status(gl::INVALID_FRAMEBUFFER_OPERATION),
        Some(GlErrTypes::InvalidFramebufferOperation)
    );
    assert_eq!(check_error_status(0x9999), Some(GlErrTypes::Unknown));
    assert_eq!(GlErrTypes::OutOfMemory.to_string(), "OUT_OF_MEMORY");
}

#[test]
fn cause_is_looked_up_by_kind() {
    let table = || {
        vec![
            MsgMashingType::new("bad value", GlErrTypes::InvalidValue),
            MsgMashingType::new("bad operation", GlErrTypes::InvalidOperation),
            MsgMashingType::new("bad value again", GlErrTypes::InvalidValue),
        ]
    };
    assert!(check_for_error("glSomething", table(), None).is_ok());
    assert_eq!(
        api_call(check_for_error("glSomething", table(), Some(GlErrTypes::InvalidOperation))),
        ("glSomething".to_string(), "bad operation".to_string())
    );
    assert_eq!(
        api_call(check_for_error("glSomething", table(), Some(GlErrTypes::InvalidValue))).1,
        "bad value"
    );
    assert_eq!(
        api_call(check_for_error("glSomething", table(), Some(GlErrTypes::OutOfMemory))).1,
        UNKNOWN_REASON
    );
    let single = vec![MsgMashingType::new("the only cause", GlErrTypes::InvalidEnum)];
    assert_eq!(
        api_call(check_for_error("glOther", single, Some(GlErrTypes::OutOfMemory))).1,
        "the only cause"
    );
}

#[test]
fn calls_name_themselves_and_their_cause() {
    let (f, m) = api_call(create_shader(Some(GlErrTypes::InvalidEnum)));
    assert_eq!(f, "glCreateShader");
    assert_eq!(m, "The parameter `shader_type` is not an accepted value");
    let (f, m) = api_call(bind_buffer(Some(GlErrTypes::StackOverflow)));
    assert_eq!(f, "glBindBuffer");
    assert_eq!(m, "unknown reason");
    let (f, m) = api_call(uniform_int_4(Some(GlErrTypes::InvalidValue)));
    assert_eq!(f, "glUniform3i");
    assert_eq!(m, "the parameter 'count' is less than 0");
    assert_eq!(create_program(12).unwrap(), 12);
    match create_program(0) {
        Err(EOpenGL::API_CALL(f, m)) => {
            assert_eq!(f, "glCreateProgram");
            assert_eq!(m, "The program creation returned an value of 0");
        }
        other => panic!("unexpected {:?}", other),
    }
    assert!(Program::new(0).is_err());
}

#[test]
fn texture_parameters_are_validated_in_order() {
    assert_eq!(buffer_fault(TBO::new(gl::TEXTURE_3D, 1, None)), ("texture".to_string(), BAD_TARGET.to_string()));
    assert!(TBO::new(gl::TEXTURE_2D, 1, Some(GlErrTypes::InvalidValue)).is_err());
    let rect = TBO::new(gl::TEXTURE_RECTANGLE, 2, None).unwrap();
    assert_eq!(rect.get_id(), 2);
    assert_eq!(rect.get_target(), gl::TEXTURE_RECTANGLE);
    let rgba = gl::RGBA as i32;
    assert_eq!(
        buffer_fault(rect.check_2d_image_source(1, -5, 0, 0)).1,
        BAD_DETAILS_LVL
    );
    assert_eq!(buffer_fault(rect.check_2d_image_source(0, -5, 0, 0)).1, BAD_INTERNAL_FMT);
    assert_eq!(buffer_fault(rect.check_2d_image_source(0, gl::BGR as i32, 0, 0)).1, BAD_INTERNAL_FMT);
    assert_eq!(buffer_fault(rect.check_2d_image_source(0, rgba, gl::FLOAT, 0)).1, BAD_FORMAT);
    assert_eq!(buffer_fault(rect.check_2d_image_source(0, rgba, gl::BGRA, gl::RGBA)).1, BAD_TYPE);
    assert!(rect.check_2d_image_source(0, rgba, gl::BGRA, gl::UNSIGNED_INT_2_10_10_10_REV).is_ok());
    let flat = TBO::new(gl::TEXTURE_2D, 3, None).unwrap();
    assert!(flat.set_2d_image_source(4, gl::DEPTH_STENCIL as i32, gl::STENCIL_INDEX, gl::HALF_FLOAT, None).is_ok());
    assert!(flat.set_2d_image_source(4, rgba, gl::RGBA, gl::UNSIGNED_BYTE, Some(GlErrTypes::InvalidValue)).is_err());
    assert_eq!(flat.bind_call(), BindCall::Texture(gl::TEXTURE_2D, 3));
}

#[test]
fn failed_compilation_carries_the_log() {
    let mut source = Source::new(7, None, None).unwrap();
    let report = CompileReport {
        compile: None,
        status_query: None,
        compile_status: 0,
        length_query: None,
        log_query: None,
        info_log: "0:1: syntax error".to_string(),
    };
    match source.compile(report) {
        Err(EOpenGL::COMPILE_SHADER(log)) => assert_eq!(log, "0:1: syntax error"),
        other => panic!("unexpected {:?}", other),
    }
    assert!(!source.is_compiled());
    assert_eq!(source.get_gid(), 7);
    assert!(Source::new(7, Some(GlErrTypes::InvalidEnum), None).is_err());
    assert!(Source::new(7, None, Some(GlErrTypes::InvalidValue)).is_err());
}

#[test]
fn byte_counts_of_buffers() {
    assert_eq!(VBO::data_size(6), Some(24));
    assert_eq!(EBO::data_size(&vec![0, 1, 2]), Some(12));
    assert_eq!(VBO::data_size(usize::MAX), None);
    let layout = VAO::attribute_layout(1, 3, 2, 5).unwrap();
    assert_eq!(layout.stride, 20);
    assert_eq!(layout.offset, 12);
    assert_eq!(layout.size, 2);
    assert_eq!(layout.gl_type, gl::FLOAT);
    assert!(!layout.normalized);
    assert!(VAO::attribute_layout(1, 3, 2, i32::MAX).is_none());
}
