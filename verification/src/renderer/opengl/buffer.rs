//! The buffer objects of OpenGL: vertex buffers, vertex arrays, element buffers and textures.

use vstd::prelude::*;
use vstd::string::StringExecFns;
use super::api;
use super::api::GlErrTypes;
use super::EOpenGL;

verus! {

pub const ARRAY_BUFFER: u32 = 0x8892;

pub const ELEMENT_ARRAY_BUFFER: u32 = 0x8893;

pub const FLOAT: u32 = 0x1406;

pub const TEXTURE_2D: u32 = 0x0DE1;

pub const PROXY_TEXTURE_2D: u32 = 0x8064;

pub const TEXTURE_1D_ARRAY: u32 = 0x8C18;

pub const PROXY_TEXTURE_1D_ARRAY: u32 = 0x8C19;

pub const TEXTURE_RECTANGLE: u32 = 0x84F5;

pub const PROXY_TEXTURE_RECTANGLE: u32 = 0x84F7;

pub const TEXTURE_CUBE_MAP_POSITIVE_X: u32 = 0x8515;

pub const TEXTURE_CUBE_MAP_NEGATIVE_X: u32 = 0x8516;

pub const TEXTURE_CUBE_MAP_POSITIVE_Y: u32 = 0x8517;

pub const TEXTURE_CUBE_MAP_NEGATIVE_Y: u32 = 0x8518;

pub const TEXTURE_CUBE_MAP_POSITIVE_Z: u32 = 0x8519;

pub const TEXTURE_CUBE_MAP_NEGATIVE_Z: u32 = 0x851A;

pub const PROXY_TEXTURE_CUBE_MAP: u32 = 0x851B;

pub const STENCIL_INDEX: u32 = 0x1901;

pub const DEPTH_COMPONENT: u32 = 0x1902;

pub const DEPTH_STENCIL: u32 = 0x84F9;

pub const RED: u32 = 0x1903;

pub const RG: u32 = 0x8227;

pub const RGB: u32 = 0x1907;

pub const RGBA: u32 = 0x1908;

pub const BGR: u32 = 0x80E0;

pub const BGRA: u32 = 0x80E1;

pub const RED_INTEGER: u32 = 0x8D94;

pub const RG_INTEGER: u32 = 0x8228;

pub const RGB_INTEGER: u32 = 0x8D98;

pub const BGR_INTEGER: u32 = 0x8D9A;

pub const RGBA_INTEGER: u32 = 0x8D99;

pub const BGRA_INTEGER: u32 = 0x8D9B;

pub const BYTE: u32 = 0x1400;

pub const UNSIGNED_BYTE: u32 = 0x1401;

pub const SHORT: u32 = 0x1402;

pub const UNSIGNED_SHORT: u32 = 0x1403;

pub const INT: u32 = 0x1404;

pub const UNSIGNED_INT: u32 = 0x1405;

pub const HALF_FLOAT: u32 = 0x140B;

pub const UNSIGNED_BYTE_3_3_2: u32 = 0x8032;

pub const UNSIGNED_SHORT_4_4_4_4: u32 = 0x8033;

pub const UNSIGNED_SHORT_5_5_5_1: u32 = 0x8034;

pub const UNSIGNED_INT_8_8_8_8: u32 = 0x8035;

pub const UNSIGNED_INT_10_10_10_2: u32 = 0x8036;

pub const UNSIGNED_BYTE_2_3_3_REV: u32 = 0x8362;

pub const UNSIGNED_SHORT_5_6_5: u32 = 0x8363;

pub const UNSIGNED_SHORT_5_6_5_REV: u32 = 0x8364;

pub const UNSIGNED_SHORT_4_4_4_4_REV: u32 = 0x8365;

pub const UNSIGNED_SHORT_1_5_5_5_REV: u32 = 0x8366;

pub const UNSIGNED_INT_8_8_8_8_REV: u32 = 0x8367;

pub const UNSIGNED_INT_2_10_10_10_REV: u32 = 0x8368;

/// The number of bytes of a single-precision value.
pub const FLOAT_SIZE: usize = 4;

// ------------------------------------------------------------------------------------------------
// Buffer Trait
//
/// The call that makes an object the current one of its kind.
#[derive(Debug, Clone, Copy, PartialEq, Eq, Structural)]
pub enum BindCall {
    /// Bind the vertex array of this name.
    VertexArray(u32),
    /// Bind, to this target, the buffer of this name.
    Buffer(u32, u32),
    /// Bind, to this target, the texture of this name.
    Texture(u32, u32),
}

/// What every buffer object can do: become the current one, and stop being it.
pub trait Binding {
    /// The call that sets the buffer as the current one in use.
    spec fn bound(&self) -> BindCall;

    /// The call that unsets the buffer as the one in current use.
    spec fn unbound(&self) -> BindCall;

    /// Says which call sets the buffer as the current one in use.
    fn bind_call(&self) -> (r: BindCall)
        ensures
            r == self.bound(),
    ;

    /// Says which call unsets the buffer as the one in current use.
    fn unbind_call(&self) -> (r: BindCall)
        ensures
            r == self.unbound(),
    ;

    /// What became of the call that sets the buffer as the current one.
    fn bind(&self, status: Option<GlErrTypes>) -> (r: Result<(), EOpenGL>)
        ensures
            r is Ok <==> status is None,
            match self.bound() {
                BindCall::VertexArray(_) => api::bind_vertex_array_outcome(r, status),
                BindCall::Buffer(_, _) => api::bind_buffer_outcome(r, status),
                BindCall::Texture(_, _) => api::bind_textures_outcome(r, status),
            },
    ;

    /// What became of the call that unsets the buffer as the current one.
    fn unbind(&self, status: Option<GlErrTypes>) -> (r: Result<(), EOpenGL>)
        ensures
            r is Ok <==> status is None,
            match self.unbound() {
                BindCall::VertexArray(_) => api::bind_vertex_array_outcome(r, status),
                BindCall::Buffer(_, _) => api::bind_buffer_outcome(r, status),
                BindCall::Texture(_, _) => api::bind_textures_outcome(r, status),
            },
    ;
}

// ------------------------------------------------------------------------------------------------
// VERTEX ARRAY BUFFER
//
/// OpenGL vertex buffer object.
#[derive(Debug)]
pub struct VBO {
    id: u32,
}

impl VBO {
    /// The name of the buffer.
    pub closed spec fn name(self) -> u32 {
        self.id
    }

    /// Takes over the buffer that `glGenBuffers` generated under the name `id`,
    /// or reports what the driver flagged.
    pub fn new(id: u32, status: Option<GlErrTypes>) -> (r: Result<Self, EOpenGL>)
        ensures
            r is Ok <==> status is None,
            r matches Ok(vbo) ==> vbo.name() == id,
            r matches Err(e) ==> api::gen_buffer_outcome(Err(e), status),
    {
        match api::gen_buffer(status) {
            Ok(()) => Ok(VBO { id }),
            Err(e) => Err(e),
        }
    }

    /// The number of bytes that `count` single-precision values take, where that
    /// number can be handed to the driver.
    pub fn data_size(count: usize) -> (r: Option<isize>)
        ensures
            match r {
                Some(size) => size == count * FLOAT_SIZE,
                None => count * FLOAT_SIZE > isize::MAX,
            },
    {
        byte_size(count)
    }

    /// What became of the call that passes vertex data to the buffer.
    pub fn set_data(&self, status: Option<GlErrTypes>) -> (r: Result<(), EOpenGL>)
        ensures
            api::buffer_data_outcome(r, status),
            r is Ok <==> status is None,
    {
        api::buffer_data(status)
    }

    pub fn get_id(&self) -> (r: u32)
        ensures
            r == self.name(),
    {
        self.id
    }
}

impl Binding for VBO {
    open spec fn bound(&self) -> BindCall {
        BindCall::Buffer(ARRAY_BUFFER, self.name())
    }

    open spec fn unbound(&self) -> BindCall {
        BindCall::Buffer(ARRAY_BUFFER, self.name())
    }

    fn bind_call(&self) -> (r: BindCall) {
        BindCall::Buffer(ARRAY_BUFFER, self.id)
    }

    fn unbind_call(&self) -> (r: BindCall) {
        BindCall::Buffer(ARRAY_BUFFER, self.id)
    }

    fn bind(&self, status: Option<GlErrTypes>) -> (r: Result<(), EOpenGL>) {
        api::bind_buffer(status)
    }

    fn unbind(&self, status: Option<GlErrTypes>) -> (r: Result<(), EOpenGL>) {
        api::bind_buffer(status)
    }
}

/// The number of bytes of `count` values of four bytes each, as the driver takes it.
fn byte_size(count: usize) -> (r: Option<isize>)
    ensures
        match r {
            Some(size) => size == count * FLOAT_SIZE,
            None => count * FLOAT_SIZE > isize::MAX,
        },
{
    if count > (isize::MAX as usize) / FLOAT_SIZE {
        None
    } else {
        Some((count * FLOAT_SIZE) as isize)
    }
}

// ------------------------------------------------------------------------------------------------
// VERTEX ATTRIBUTE BUFFER
//
/// How one attribute lies in the stripes of an array buffer, in bytes.
#[derive(Debug, Clone, Copy, PartialEq, Eq, Structural)]
pub struct AttributeLayout {
    pub index: u32,
    /// The number of values the attribute has.
    pub size: i32,
    /// The type of the values.
    pub gl_type: u32,
    pub normalized: bool,
    /// The number of bytes from one vertex to the next.
    pub stride: i32,
    /// The number of bytes from the start of a vertex to the attribute.
    pub offset: usize,
}

/// OpenGL vertex array object.
#[derive(Debug)]
pub struct VAO {
    id: u32,
}

impl VAO {
    /// The name of the vertex array.
    pub closed spec fn name(self) -> u32 {
        self.id
    }

    /// Takes over the vertex array that `glGenVertexArrays` generated under the
    /// name `id`, or reports what the driver flagged.
    pub fn new(id: u32, status: Option<GlErrTypes>) -> (r: Result<Self, EOpenGL>)
        ensures
            r is Ok <==> status is None,
            r matches Ok(vao) ==> vao.name() == id,
            r matches Err(e) ==> api::gen_vertex_array_outcome(Err(e), status),
    {
        match api::gen_vertex_array(status) {
            Ok(()) => Ok(VAO { id }),
            Err(e) => Err(e),
        }
    }

    /// Works out how an attribute of single-precision values lies in the stripes
    /// of the array buffer: `lenght` values, `offset` values into each stripe of
    /// `stride_length` values. Gives nothing where the byte counts leave the range
    /// of the driver's types.
    pub fn attribute_layout(index: u32, offset: usize, lenght: i32, stride_length: i32) -> (r:
        Option<AttributeLayout>)
        ensures
            match r {
                Some(layout) => layout == (AttributeLayout {
                    index,
                    size: lenght,
                    gl_type: FLOAT,
                    normalized: false,
                    stride: (stride_length * FLOAT_SIZE) as i32,
                    offset: (offset * FLOAT_SIZE) as usize,
                }) && i32::MIN <= stride_length * FLOAT_SIZE <= i32::MAX && offset * FLOAT_SIZE
                    <= usize::MAX,
                None => !(i32::MIN <= stride_length * FLOAT_SIZE <= i32::MAX && offset
                    * FLOAT_SIZE <= usize::MAX),
            },
    {
        if stride_length > i32::MAX / 4 || stride_length < i32::MIN / 4 {
            return None;
        }
        if offset > usize::MAX / FLOAT_SIZE {
            return None;
        }
        Some(
            AttributeLayout {
                index,
                size: lenght,
                gl_type: FLOAT,
                normalized: false,
                stride: stride_length * 4,
                offset: offset * FLOAT_SIZE,
            },
        )
    }

    /// What became of setting the vertex attribute pointer: of the call that sets
    /// the pointer, and then of the call that enables the attribute.
    pub fn set_vertex_attribute_pointer(
        &mut self,
        pointer_status: Option<GlErrTypes>,
        enable_status: Option<GlErrTypes>,
    ) -> (r: Result<(), EOpenGL>)
        ensures
            final(self).name() == old(self).name(),
            r is Ok <==> pointer_status is None && enable_status is None,
            pointer_status is Some ==> api::vertex_attrib_pointer_outcome(r, pointer_status),
            pointer_status is None ==> api::enable_vertex_attrib_array_outcome(r, enable_status),
    {
        match api::vertex_attrib_pointer(pointer_status) {
            Ok(()) => {},
            Err(e) => {
                return Err(e);
            },
        }
        api::enable_vertex_attrib_array(enable_status)
    }

    pub fn get_id(&self) -> (r: u32)
        ensures
            r == self.name(),
    {
        self.id
    }
}

impl Binding for VAO {
    open spec fn bound(&self) -> BindCall {
        BindCall::VertexArray(self.name())
    }

    open spec fn unbound(&self) -> BindCall {
        BindCall::VertexArray(0)
    }

    fn bind_call(&self) -> (r: BindCall) {
        BindCall::VertexArray(self.id)
    }

    fn unbind_call(&self) -> (r: BindCall) {
        BindCall::VertexArray(0)
    }

    fn bind(&self, status: Option<GlErrTypes>) -> (r: Result<(), EOpenGL>) {
        api::bind_vertex_array(status)
    }

    fn unbind(&self, status: Option<GlErrTypes>) -> (r: Result<(), EOpenGL>) {
        api::bind_vertex_array(status)
    }
}

// ------------------------------------------------------------------------------------------------
// ELEMENT ARRAY BUFFER
//
/// OpenGL element array object.
#[derive(Debug)]
pub struct EBO {
    id: u32,
}

impl EBO {
    /// The name of the buffer.
    pub closed spec fn name(self) -> u32 {
        self.id
    }

    /// Takes over the buffer that `glGenBuffers` generated under the name `id`,
    /// or reports what the driver flagged.
    pub fn new(id: u32, status: Option<GlErrTypes>) -> (r: Result<EBO, EOpenGL>)
        ensures
            r is Ok <==> status is None,
            r matches Ok(ebo) ==> ebo.name() == id,
            r matches Err(e) ==> api::gen_buffer_outcome(Err(e), status),
    {
        match api::gen_buffer(status) {
            Ok(()) => Ok(EBO { id }),
            Err(e) => Err(e),
        }
    }

    /// The number of bytes that the indices take, where that number can be handed
    /// to the driver.
    pub fn data_size(indices: &Vec<u32>) -> (r: Option<isize>)
        ensures
            match r {
                Some(size) => size == indices@.len() * FLOAT_SIZE,
                None => indices@.len() * FLOAT_SIZE > isize::MAX,
            },
    {
        byte_size(indices.len())
    }

    /// What became of the call that stores the indices in the buffer.
    pub fn set_data(&self, status: Option<GlErrTypes>) -> (r: Result<(), EOpenGL>)
        ensures
            api::buffer_data_outcome(r, status),
            r is Ok <==> status is None,
    {
        api::buffer_data(status)
    }

    pub fn get_id(&self) -> (r: u32)
        ensures
            r == self.name(),
    {
        self.id
    }
}

impl Binding for EBO {
    open spec fn bound(&self) -> BindCall {
        BindCall::Buffer(ELEMENT_ARRAY_BUFFER, self.name())
    }

    open spec fn unbound(&self) -> BindCall {
        BindCall::Buffer(ELEMENT_ARRAY_BUFFER, 0)
    }

    fn bind_call(&self) -> (r: BindCall) {
        BindCall::Buffer(ELEMENT_ARRAY_BUFFER, self.id)
    }

    fn unbind_call(&self) -> (r: BindCall) {
        BindCall::Buffer(ELEMENT_ARRAY_BUFFER, 0)
    }

    fn bind(&self, status: Option<GlErrTypes>) -> (r: Result<(), EOpenGL>) {
        api::bind_buffer(status)
    }

    fn unbind(&self, status: Option<GlErrTypes>) -> (r: Result<(), EOpenGL>) {
        api::bind_buffer(status)
    }
}

// ------------------------------------------------------------------------------------------------
// TEXTURE BUFFER
//
/// A target that an image of two dimensions can be given to.
pub open spec fn image_target(target: u32) -> bool {
    target == TEXTURE_2D || target == PROXY_TEXTURE_2D || target == TEXTURE_1D_ARRAY || target
        == PROXY_TEXTURE_1D_ARRAY || target == TEXTURE_RECTANGLE || target
        == PROXY_TEXTURE_RECTANGLE || target == TEXTURE_CUBE_MAP_POSITIVE_X || target
        == TEXTURE_CUBE_MAP_NEGATIVE_X || target == TEXTURE_CUBE_MAP_POSITIVE_Y || target
        == TEXTURE_CUBE_MAP_NEGATIVE_Y || target == TEXTURE_CUBE_MAP_POSITIVE_Z || target
        == TEXTURE_CUBE_MAP_NEGATIVE_Z || target == PROXY_TEXTURE_CUBE_MAP
}

/// A target that takes no level of detail but the base level.
pub open spec fn rectangle_target(target: u32) -> bool {
    target == TEXTURE_RECTANGLE || target == PROXY_TEXTURE_RECTANGLE
}

/// A number of color components that a texture can hold.
pub open spec fn internal_format(internal_fmt: i32) -> bool {
    internal_fmt == DEPTH_COMPONENT || internal_fmt == DEPTH_STENCIL || internal_fmt == RED
        || internal_fmt == RG || internal_fmt == RGB || internal_fmt == RGBA
}

/// A format that pixel data can have.
pub open spec fn pixel_format(gl_format: u32) -> bool {
    gl_format == RED || gl_format == RG || gl_format == RGB || gl_format == BGR || gl_format
        == RGBA || gl_format == BGRA || gl_format == RED_INTEGER || gl_format == RG_INTEGER
        || gl_format == RGB_INTEGER || gl_format == BGR_INTEGER || gl_format == RGBA_INTEGER
        || gl_format == BGRA_INTEGER || gl_format == STENCIL_INDEX || gl_format
        == DEPTH_COMPONENT || gl_format == DEPTH_STENCIL
}

/// A data type that pixel data can have.
pub open spec fn pixel_type(gl_type: u32) -> bool {
    gl_type == UNSIGNED_BYTE || gl_type == BYTE || gl_type == UNSIGNED_SHORT || gl_type == SHORT
        || gl_type == UNSIGNED_INT || gl_type == INT || gl_type == HALF_FLOAT || gl_type
        == FLOAT || gl_type == UNSIGNED_BYTE_3_3_2 || gl_type == UNSIGNED_BYTE_2_3_3_REV
        || gl_type == UNSIGNED_SHORT_5_6_5 || gl_type == UNSIGNED_SHORT_5_6_5_REV || gl_type
        == UNSIGNED_SHORT_4_4_4_4 || gl_type == UNSIGNED_SHORT_4_4_4_4_REV || gl_type
        == UNSIGNED_SHORT_5_5_5_1 || gl_type == UNSIGNED_SHORT_1_5_5_5_REV || gl_type
        == UNSIGNED_INT_8_8_8_8 || gl_type == UNSIGNED_INT_8_8_8_8_REV || gl_type
        == UNSIGNED_INT_10_10_10_2 || gl_type == UNSIGNED_INT_2_10_10_10_REV
}

pub const BAD_TARGET: &'static str = "invalid target for image source 2d";

pub const BAD_DETAILS_LVL: &'static str =
    "details_lvl must be 0 if target is ether gl::TEXTURE_RECTANGLE or
                gl::PROXY_TEXTURE_RECTANGLE";

pub const BAD_INTERNAL_FMT: &'static str = "invalid intenal_fmt parameter";

pub const BAD_FORMAT: &'static str = "invalid gl_format parameter";

pub const BAD_TYPE: &'static str = "invalid gl_type parameter";

/// What is wrong with the parameters of an image for a texture, if anything: the
/// first of the level of detail, the internal format, the format and the type
/// that is not acceptable.
pub open spec fn image_fault(
    target: u32,
    details_lvl: i32,
    internal_fmt: i32,
    gl_format: u32,
    gl_type: u32,
) -> Option<Seq<char>> {
    if rectangle_target(target) && details_lvl != 0 {
        Some(BAD_DETAILS_LVL@)
    } else if !internal_format(internal_fmt) {
        Some(BAD_INTERNAL_FMT@)
    } else if !pixel_format(gl_format) {
        Some(BAD_FORMAT@)
    } else if !pixel_type(gl_type) {
        Some(BAD_TYPE@)
    } else {
        None
    }
}

/// `r` reports the fault `fault` of a texture, or none.
pub open spec fn reports_fault(r: Result<(), EOpenGL>, fault: Option<Seq<char>>) -> bool {
    match fault {
        None => r is Ok,
        Some(text) => r matches Err(EOpenGL::BUFFER(kind, why)) && kind@ == "texture"@ && why@
            == text,
    }
}

fn texture_fault(why: &str) -> (r: Result<(), EOpenGL>)
    ensures
        reports_fault(r, Some(why@)),
{
    Err(EOpenGL::BUFFER(String::from_str("texture"), why.to_owned()))
}

/// OpenGL texture object.
#[derive(Debug)]
pub struct TBO {
    id: u32,
    target: u32,
}

impl TBO {
    /// The name of the texture.
    pub closed spec fn name(self) -> u32 {
        self.id
    }

    /// The target the texture is made for.
    pub closed spec fn kind(self) -> u32 {
        self.target
    }

    /// Tells whether an image of two dimensions can be given to a target.
    pub fn is_image_target(target: u32) -> (r: bool)
        ensures
            r == image_target(target),
    {
        target == TEXTURE_2D || target == PROXY_TEXTURE_2D || target == TEXTURE_1D_ARRAY
            || target == PROXY_TEXTURE_1D_ARRAY || target == TEXTURE_RECTANGLE || target
            == PROXY_TEXTURE_RECTANGLE || target == TEXTURE_CUBE_MAP_POSITIVE_X || target
            == TEXTURE_CUBE_MAP_NEGATIVE_X || target == TEXTURE_CUBE_MAP_POSITIVE_Y || target
            == TEXTURE_CUBE_MAP_NEGATIVE_Y || target == TEXTURE_CUBE_MAP_POSITIVE_Z || target
            == TEXTURE_CUBE_MAP_NEGATIVE_Z || target == PROXY_TEXTURE_CUBE_MAP
    }

    /// Holds a target against those a texture can be made for. The driver is only
    /// asked for a texture where this succeeds.
    pub fn check_target(target: u32) -> (r: Result<(), EOpenGL>)
        ensures
            reports_fault(
                r,
                if image_target(target) {
                    None
                } else {
                    Some(BAD_TARGET@)
                },
            ),
    {
        if !Self::is_image_target(target) {
            return texture_fault(BAD_TARGET);
        }
        Ok(())
    }

    /// Takes over the texture that `glGenTextures` generated under the name `id`
    /// for a target. Fails where the target takes no image of two dimensions, and
    /// else where the driver flagged an error.
    pub fn new(target: u32, id: u32, status: Option<GlErrTypes>) -> (r: Result<Self, EOpenGL>)
        ensures
            r is Ok <==> image_target(target) && status is None,
            r matches Ok(tbo) ==> tbo.name() == id && tbo.kind() == target,
            image_target(target) ==> (r matches Err(e) ==> api::gen_textures_outcome(
                Err(e),
                status,
            )),
            !image_target(target) ==> (r matches Err(EOpenGL::BUFFER(kind, why)) && kind@
                == "texture"@ && why@ == BAD_TARGET@),
    {
        match Self::check_target(target) {
            Ok(()) => {},
            Err(e) => {
                return Err(e);
            },
        }
        match api::gen_textures(status) {
            Ok(()) => Ok(TBO { id, target }),
            Err(e) => Err(e),
        }
    }

    /// Holds the parameters of an image against what the texture can take: the
    /// level of detail, which a rectangle texture has only one of; the internal
    /// format; the format of the pixel data; their type. The first that is not
    /// acceptable is reported. The driver is only handed the image where this
    /// succeeds.
    pub fn check_2d_image_source(
        &self,
        details_lvl: i32,
        internal_fmt: i32,
        gl_format: u32,
        gl_type: u32,
    ) -> (r: Result<(), EOpenGL>)
        ensures
            reports_fault(
                r,
                image_fault(self.kind(), details_lvl, internal_fmt, gl_format, gl_type),
            ),
    {
        if (self.target == TEXTURE_RECTANGLE || self.target == PROXY_TEXTURE_RECTANGLE)
            && details_lvl != 0 {
            return texture_fault(BAD_DETAILS_LVL);
        }
        if internal_fmt < 0 {
            return texture_fault(BAD_INTERNAL_FMT);
        }
        let components = internal_fmt as u32;
        if !(components == DEPTH_COMPONENT || components == DEPTH_STENCIL || components == RED
            || components == RG || components == RGB || components == RGBA) {
            return texture_fault(BAD_INTERNAL_FMT);
        }
        if !(gl_format == RED || gl_format == RG || gl_format == RGB || gl_format == BGR
            || gl_format == RGBA || gl_format == BGRA || gl_format == RED_INTEGER || gl_format
            == RG_INTEGER || gl_format == RGB_INTEGER || gl_format == BGR_INTEGER || gl_format
            == RGBA_INTEGER || gl_format == BGRA_INTEGER || gl_format == STENCIL_INDEX
            || gl_format == DEPTH_COMPONENT || gl_format == DEPTH_STENCIL) {
            return texture_fault(BAD_FORMAT);
        }
        if !(gl_type == UNSIGNED_BYTE || gl_type == BYTE || gl_type == UNSIGNED_SHORT || gl_type
            == SHORT || gl_type == UNSIGNED_INT || gl_type == INT || gl_type == HALF_FLOAT
            || gl_type == FLOAT || gl_type == UNSIGNED_BYTE_3_3_2 || gl_type
            == UNSIGNED_BYTE_2_3_3_REV || gl_type == UNSIGNED_SHORT_5_6_5 || gl_type
            == UNSIGNED_SHORT_5_6_5_REV || gl_type == UNSIGNED_SHORT_4_4_4_4 || gl_type
            == UNSIGNED_SHORT_4_4_4_4_REV || gl_type == UNSIGNED_SHORT_5_5_5_1 || gl_type
            == UNSIGNED_SHORT_1_5_5_5_REV || gl_type == UNSIGNED_INT_8_8_8_8 || gl_type
            == UNSIGNED_INT_8_8_8_8_REV || gl_type == UNSIGNED_INT_10_10_10_2 || gl_type
            == UNSIGNED_INT_2_10_10_10_REV) {
            return texture_fault(BAD_TYPE);
        }
        Ok(())
    }

    /// What became of assigning an image to the texture: the parameters are held
    /// against what the texture can take, and where they pass, the result is that
    /// of the call that hands the image to the driver.
    pub fn set_2d_image_source(
        &self,
        details_lvl: i32,
        internal_fmt: i32,
        gl_format: u32,
        gl_type: u32,
        status: Option<GlErrTypes>,
    ) -> (r: Result<(), EOpenGL>)
        ensures
            r is Ok <==> image_fault(self.kind(), details_lvl, internal_fmt, gl_format, gl_type)
                is None && status is None,
            image_fault(self.kind(), details_lvl, internal_fmt, gl_format, gl_type) is Some
                ==> reports_fault(
                r,
                image_fault(self.kind(), details_lvl, internal_fmt, gl_format, gl_type),
            ),
            image_fault(self.kind(), details_lvl, internal_fmt, gl_format, gl_type) is None
                ==> api::tex_image_2d_outcome(r, status),
    {
        match self.check_2d_image_source(details_lvl, internal_fmt, gl_format, gl_type) {
            Ok(()) => {},
            Err(e) => {
                return Err(e);
            },
        }
        api::tex_image_2d(status)
    }

    pub fn get_id(&self) -> (r: u32)
        ensures
            r == self.name(),
    {
        self.id
    }

    pub fn get_target(&self) -> (r: u32)
        ensures
            r == self.kind(),
    {
        self.target
    }
}

impl Binding for TBO {
    open spec fn bound(&self) -> BindCall {
        BindCall::Texture(TEXTURE_2D, self.name())
    }

    open spec fn unbound(&self) -> BindCall {
        BindCall::Texture(TEXTURE_2D, 0)
    }

    fn bind_call(&self) -> (r: BindCall) {
        BindCall::Texture(TEXTURE_2D, self.id)
    }

    fn unbind_call(&self) -> (r: BindCall) {
        BindCall::Texture(TEXTURE_2D, 0)
    }

    fn bind(&self, status: Option<GlErrTypes>) -> (r: Result<(), EOpenGL>) {
        api::bind_textures(status)
    }

    fn unbind(&self, status: Option<GlErrTypes>) -> (r: Result<(), EOpenGL>) {
        api::bind_textures(status)
    }
}

} // verus!
