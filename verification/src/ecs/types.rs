//! The components of the engine: files, images, buffers, meshes and shaders.

use vstd::prelude::*;
use vstd::string::StringExecFns;
use super::EComponent;
use crate::io::{get_file_extension, is_extension_of, lemma_extension_unique};
use crate::renderer::opengl::buffer::{EBO, TBO, TEXTURE_2D, VAO, VBO};
use crate::renderer::opengl::shader::{FRAGMENT_SHADER, VERTEX_SHADER};
use crate::text::same_text;

verus! {

// ------------------------------------------------------------------------------------------------
// General
//
/// All the possible types of components.
#[derive(Debug, Clone, Copy, PartialEq, Eq, Structural)]
pub enum CType {
    FILE,
    IMAGE,
    TEXTURE,
    MESH,
    BUFFER,
    SHADER,
    SOURCE,
}

/// Common trait for all components of the engine.
pub trait Component {
    /// The id of the component; zero as long as it has none.
    spec fn id(&self) -> u32;

    /// The type of the component.
    spec fn kind(&self) -> CType;

    /// Gets the id of the component.
    fn get_id(&self) -> (r: u32)
        ensures
            r == self.id(),
    ;

    /// Returns the type of the component.
    fn get_type(&self) -> (r: CType)
        ensures
            r == self.kind(),
    ;

    /// Sets the id of the component.
    fn set_id(&mut self, id: u32)
        ensures
            final(self).id() == id,
            final(self).kind() == old(self).kind(),
    ;

    /// Tells whether the component has an id other than zero.
    fn is_initialized(&self) -> (r: bool)
        ensures
            r == (self.id() != 0),
    ;
}

// ------------------------------------------------------------------------------------------------
// File Type
//
/// Lowest representation of a system file in the engine.
#[derive(Debug)]
pub struct CFile {
    id: u32,
    path: String,
    ext: String,
    content: Vec<u8>,
}

impl CFile {
    /// The id the file has; zero as long as it has none.
    pub closed spec fn file_id(self) -> u32 {
        self.id
    }

    pub closed spec fn path_text(self) -> Seq<char> {
        self.path@
    }

    pub closed spec fn extension_text(self) -> Seq<char> {
        self.ext@
    }

    pub closed spec fn bytes(self) -> Seq<u8> {
        self.content@
    }

    /// A file component with everything given.
    pub fn new(id: u32, path: String, ext: String, content: Vec<u8>) -> (r: Self)
        ensures
            r.file_id() == id,
            r.path_text() == path@,
            r.extension_text() == ext@,
            r.bytes() == content@,
    {
        CFile { id, path, ext, content }
    }

    /// Makes the component of the file at `path` from what reading the file gave.
    /// Fails where the path has no extension, and else where the file could not
    /// be read.
    pub fn load(id: u32, path: &str, read: Result<Vec<u8>, String>) -> (r: Result<Self, EComponent>)
        ensures
            match r {
                Ok(file) => {
                    &&& read matches Ok(content) && file.bytes() == content@
                    &&& file.file_id() == id
                    &&& file.path_text() == path@
                    &&& is_extension_of(path@, Some(file.extension_text()))
                },
                Err(e) => if is_extension_of(path@, None) {
                    e matches EComponent::LOADING_FILE { file, cause } && file@ == path@ && cause@
                        == "Don't have extension"@
                } else {
                    read matches Err(why) && e matches EComponent::LOADING_FILE { file, cause }
                        && file@ == path@ && cause@ == "Cant get file contents because: "@ + why@
                },
            },
    {
        let ext = match Self::get_file_extension(path) {
            Ok(ext) => ext,
            Err(e) => {
                return Err(e);
            },
        };
        proof {
            if is_extension_of(path@, None) {
                lemma_extension_unique(path@, Some(ext@), None);
            }
        }
        let content = match read {
            Ok(c) => c,
            Err(why) => {
                let mut cause = "Cant get file contents because: ".to_owned();
                cause.append(why.as_str());
                return Err(EComponent::LOADING_FILE { file: path.to_owned(), cause });
            },
        };
        Ok(CFile { id, path: path.to_owned(), ext: ext.to_owned(), content })
    }

    /// Gets the file extension that is associated with this file.
    pub fn get_extension(&self) -> (r: &str)
        ensures
            r@ == self.extension_text(),
    {
        self.ext.as_str()
    }

    /// Gets the path that is associated with this file.
    pub fn get_path(&self) -> (r: &str)
        ensures
            r@ == self.path_text(),
    {
        self.path.as_str()
    }

    /// Gets the extension of the file a path names. Fails, with the path, exactly
    /// where the path has no extension.
    pub fn get_file_extension(path: &str) -> (r: Result<&str, EComponent>)
        ensures
            match r {
                Ok(ext) => is_extension_of(path@, Some(ext@)),
                Err(e) => is_extension_of(path@, None) && (e matches EComponent::LOADING_FILE {
                    file,
                    cause,
                } && file@ == path@ && cause@ == "Don't have extension"@),
            },
    {
        match get_file_extension(path) {
            Ok(ext) => Ok(ext),
            Err(_) => Err(
                EComponent::LOADING_FILE {
                    file: path.to_owned(),
                    cause: "Don't have extension".to_owned(),
                },
            ),
        }
    }

    /// The bytes of the file.
    pub fn get_file_content(&self) -> (r: &[u8])
        ensures
            r@ == self.bytes(),
    {
        self.content.as_slice()
    }
}

impl Component for CFile {
    open spec fn id(&self) -> u32 {
        self.file_id()
    }

    open spec fn kind(&self) -> CType {
        CType::FILE
    }

    fn get_id(&self) -> (r: u32) {
        self.id
    }

    fn get_type(&self) -> (r: CType) {
        CType::FILE
    }

    fn set_id(&mut self, id: u32)
        ensures
            final(self).path_text() == old(self).path_text(),
            final(self).extension_text() == old(self).extension_text(),
            final(self).bytes() == old(self).bytes(),
    {
        self.id = id
    }

    fn is_initialized(&self) -> (r: bool) {
        self.id != 0
    }
}

// ------------------------------------------------------------------------------------------------
// Image Types
//
/// Base of all image components. The parameter is the type of one sample.
pub trait ImageTrait<T>: Sized {
    /// The first dimension the image was made with.
    spec fn made_width(&self) -> u16;

    /// The second dimension the image was made with.
    spec fn made_height(&self) -> u16;

    /// The samples of the image, row after row.
    spec fn samples(&self) -> Seq<T>;

    /// The id of the file component the image came from.
    spec fn source(&self) -> u32;

    /// The number of samples that make one pixel.
    spec fn pixel_length() -> u8;

    /// Initializes an image component.
    fn new(id: u32, src: u32, w: u16, h: u16, data: Vec<T>) -> (r: Self)
        ensures
            r.made_width() == w,
            r.made_height() == h,
            r.samples() == data@,
            r.source() == src,
    ;

    /// Returns the second dimension the image was made with.
    fn get_width(&self) -> (r: u16)
        ensures
            r == self.made_height(),
    ;

    /// Returns the first dimension the image was made with.
    fn get_height(&self) -> (r: u16)
        ensures
            r == self.made_width(),
    ;

    /// Returns the flattened array of samples.
    fn get_data(&self) -> (r: &Vec<T>)
        ensures
            r@ == self.samples(),
    ;

    /// Returns the number of samples that make one pixel.
    fn get_pixel_lenght(&self) -> (r: u8)
        ensures
            r == Self::pixel_length(),
    ;

    /// Returns the id of the file component the image came from.
    fn get_file_src(&self) -> (r: u32)
        ensures
            r == self.source(),
    ;
}

/// An image of any of the layouts the engine knows.
#[derive(Debug)]
pub enum CImage {
    RGB8(Rgb8Image),
    RGB16(Rgb16Image),
    RGB32(Rgb32Image),
    RGBA8(Rgba8Image),
    RGBA16(Rgba16Image),
    RGBA32(Rgba32Image),
}

// ------------------------------------------------------------------------------------------------
// Loading images
//
/// How the colors of a decoded PNG image are stored.
#[derive(Debug, Clone, Copy, PartialEq, Eq, Structural)]
pub enum ColorType {
    Grayscale,
    Rgb,
    Indexed,
    GrayscaleAlpha,
    Rgba,
}

/// The first frame of a PNG file, decoded.
#[derive(Debug)]
pub struct PngFrame {
    pub width: u32,
    pub height: u32,
    pub color_type: ColorType,
    /// The file holds an animation, of which only the first frame was taken.
    pub animated: bool,
    pub data: Vec<u8>,
}

/// How the pixels of a decoded JPEG image are stored.
#[derive(Debug, Clone, Copy, PartialEq, Eq, Structural)]
pub enum PixelFormat {
    L8,
    L16,
    RGB24,
    CMYK32,
}

/// What the decoder knows of a JPEG image.
#[derive(Debug, Clone, Copy, PartialEq, Eq, Structural)]
pub struct JpegInfo {
    pub width: u16,
    pub height: u16,
    pub pixel_format: PixelFormat,
}

/// A JPEG file, decoded.
#[derive(Debug)]
pub struct JpegFrame {
    /// What the decoder knows of the image, if it found anything.
    pub info: Option<JpegInfo>,
    pub data: Vec<u8>,
}

/// The kind of image file the engine can load.
#[derive(Debug, Clone, Copy, PartialEq, Eq, Structural)]
pub enum ImageKind {
    Png,
    Jpeg,
}

/// What decoding an image file gave: the frame, or why there is none.
#[derive(Debug)]
pub enum Decoded {
    Png(Result<PngFrame, String>),
    Jpeg(Result<JpegFrame, String>),
}

/// The kind of image file an extension stands for, if any.
pub open spec fn kind_of_extension(ext: Seq<char>) -> Option<ImageKind> {
    if ext == "png"@ {
        Some(ImageKind::Png)
    } else if ext == "jpg"@ || ext == "jpeg"@ {
        Some(ImageKind::Jpeg)
    } else {
        None
    }
}

/// A dimension of a PNG image as an image component keeps it: the low sixteen
/// bits of what the file declares.
pub open spec fn kept_dimension(declared: u32) -> u16 {
    (declared % 0x1_0000) as u16
}

pub const NOT_AN_IMAGE: &'static str = " is not a valid extension for image";

pub const WRONG_DECODER: &'static str = "the file was not decoded as its extension asks";

pub const UNSUPPORTED_COLOR: &'static str = "unsuported color type";

pub const UNSUPPORTED_PIXELS: &'static str = "pixel format not supported";

pub const NO_METADATA: &'static str =
    "unable to access metadata of a jpeg/jpg file. Nothing was found";

pub const JPEG_DECODER_FAILED: &'static str =
    "Unable to access jpeg data by the decoder because of ";

pub const APNG_WARNING: &'static str =
    "doesn't support apng frame\nOnly the first frame will be taken";

/// `r` is the failure to load the image file of the path `path` for the reason `why`.
pub open spec fn is_load_failure<T>(r: Result<T, EComponent>, path: Seq<char>, why: Seq<char>)
    -> bool {
    r matches Err(EComponent::LOAD_IMAGE(p, w)) && p@ == path && w@ == why
}

fn load_failure<T>(path: &str, why: String) -> (r: Result<T, EComponent>)
    ensures
        is_load_failure(r, path@, why@),
{
    Err(EComponent::LOAD_IMAGE(path.to_owned(), why))
}

/// Tells which kind of image file a file is, by its extension. Fails where the
/// extension stands for no kind the engine can load.
pub fn image_kind(cfile: &CFile) -> (r: Result<ImageKind, EComponent>)
    ensures
        match kind_of_extension(cfile.extension_text()) {
            Some(kind) => r == Ok::<ImageKind, EComponent>(kind),
            None => is_load_failure(
                r,
                cfile.path_text(),
                cfile.extension_text() + NOT_AN_IMAGE@,
            ),
        },
{
    let ext = cfile.get_extension();
    if same_text(ext, "png") {
        Ok(ImageKind::Png)
    } else if same_text(ext, "jpg") || same_text(ext, "jpeg") {
        Ok(ImageKind::Jpeg)
    } else {
        let mut why = ext.to_owned();
        why.append(NOT_AN_IMAGE);
        load_failure(cfile.get_path(), why)
    }
}

/// `r` is the image component for the first frame of a PNG file: an 8-bit RGB or
/// RGBA image without an id, which refers to the file and holds the samples as
/// decoded; any other way of storing colors is not supported.
pub open spec fn is_png_image(r: Result<CImage, EComponent>, cfile: CFile, frame: PngFrame) -> bool {
    match frame.color_type {
        ColorType::Rgb => r matches Ok(CImage::RGB8(img)) && img.image_id() == 0 && img.file_id()
            == cfile.file_id() && img.dimensions() == (
            kept_dimension(frame.width),
            kept_dimension(frame.height),
        ) && img.pixels() == frame.data@,
        ColorType::Rgba => r matches Ok(CImage::RGBA8(img)) && img.image_id() == 0
            && img.file_id() == cfile.file_id() && img.dimensions() == (
            kept_dimension(frame.width),
            kept_dimension(frame.height),
        ) && img.pixels() == frame.data@,
        _ => is_load_failure(r, cfile.path_text(), UNSUPPORTED_COLOR@),
    }
}

/// Makes the image component of a PNG file from what decoding the file gave.
/// With the image comes a warning where the file holds an animation.
pub fn load_png(cfile: &CFile, decoded: Result<PngFrame, String>) -> (r: (
    Result<CImage, EComponent>,
    Option<&'static str>,
))
    ensures
        match decoded {
            Err(why) => is_load_failure(r.0, cfile.path_text(), why@) && r.1 is None,
            Ok(frame) => is_png_image(r.0, *cfile, frame) && (match r.1 {
                Some(warning) => frame.animated && warning@ == APNG_WARNING@,
                None => !frame.animated,
            }),
        },
{
    let frame = match decoded {
        Ok(frame) => frame,
        Err(why) => {
            return (load_failure(cfile.get_path(), why), None);
        },
    };
    let warning = if frame.animated {
        Some(APNG_WARNING)
    } else {
        None
    };
    let width = (frame.width % 0x1_0000) as u16;
    let height = (frame.height % 0x1_0000) as u16;
    let image = match frame.color_type {
        ColorType::Rgb => Ok(
            CImage::RGB8(Rgb8Image::new(0, cfile.get_id(), width, height, frame.data)),
        ),
        ColorType::Rgba => Ok(
            CImage::RGBA8(Rgba8Image::new(0, cfile.get_id(), width, height, frame.data)),
        ),
        _ => load_failure(cfile.get_path(), UNSUPPORTED_COLOR.to_owned()),
    };
    (image, warning)
}

/// `r` is the image component for a decoded JPEG file: an 8-bit RGB image without
/// an id, which refers to the file and holds the samples as decoded. A file of
/// which the decoder knows nothing, or whose pixels are stored another way, is not
/// supported.
pub open spec fn is_jpeg_image(r: Result<CImage, EComponent>, cfile: CFile, frame: JpegFrame)
    -> bool {
    match frame.info {
        None => is_load_failure(r, cfile.path_text(), NO_METADATA@),
        Some(info) => if info.pixel_format == PixelFormat::RGB24 {
            r matches Ok(CImage::RGB8(img)) && img.image_id() == 0 && img.file_id()
                == cfile.file_id() && img.dimensions() == (info.width, info.height)
                && img.pixels() == frame.data@
        } else {
            is_load_failure(r, cfile.path_text(), UNSUPPORTED_PIXELS@)
        },
    }
}

/// Makes the image component of a JPEG file from what decoding the file gave.
pub fn load_jpeg(file: &CFile, decoded: Result<JpegFrame, String>) -> (r: Result<CImage, EComponent>)
    ensures
        match decoded {
            Err(why) => is_load_failure(r, file.path_text(), JPEG_DECODER_FAILED@ + why@),
            Ok(frame) => is_jpeg_image(r, *file, frame),
        },
{
    let frame = match decoded {
        Ok(frame) => frame,
        Err(why) => {
            let mut text = JPEG_DECODER_FAILED.to_owned();
            text.append(why.as_str());
            return load_failure(file.get_path(), text);
        },
    };
    match frame.info {
        Some(info) => {
            match info.pixel_format {
                PixelFormat::RGB24 => Ok(
                    CImage::RGB8(
                        Rgb8Image::new(0, file.get_id(), info.width, info.height, frame.data),
                    ),
                ),
                _ => load_failure(file.get_path(), UNSUPPORTED_PIXELS.to_owned()),
            }
        },
        None => load_failure(file.get_path(), NO_METADATA.to_owned()),
    }
}

/// Makes the image component of a file from what decoding the file gave. The
/// extension of the file says which kind of image it holds; a file of no kind the
/// engine can load is refused, and so is one that was decoded as another kind
/// than its extension asks.
pub fn load_image(cfile: &CFile, decoded: Decoded) -> (r: Result<CImage, EComponent>)
    ensures
        match kind_of_extension(cfile.extension_text()) {
            None => is_load_failure(
                r,
                cfile.path_text(),
                cfile.extension_text() + NOT_AN_IMAGE@,
            ),
            Some(ImageKind::Png) => match decoded {
                Decoded::Png(Ok(frame)) => is_png_image(r, *cfile, frame),
                Decoded::Png(Err(why)) => is_load_failure(r, cfile.path_text(), why@),
                Decoded::Jpeg(_) => is_load_failure(r, cfile.path_text(), WRONG_DECODER@),
            },
            Some(ImageKind::Jpeg) => match decoded {
                Decoded::Jpeg(Ok(frame)) => is_jpeg_image(r, *cfile, frame),
                Decoded::Jpeg(Err(why)) => is_load_failure(
                    r,
                    cfile.path_text(),
                    JPEG_DECODER_FAILED@ + why@,
                ),
                Decoded::Png(_) => is_load_failure(r, cfile.path_text(), WRONG_DECODER@),
            },
        },
{
    let kind = match image_kind(cfile) {
        Ok(kind) => kind,
        Err(e) => {
            return Err(e);
        },
    };
    match (kind, decoded) {
        (ImageKind::Png, Decoded::Png(frame)) => load_png(cfile, frame).0,
        (ImageKind::Jpeg, Decoded::Jpeg(frame)) => load_jpeg(cfile, frame),
        _ => load_failure(cfile.get_path(), WRONG_DECODER.to_owned()),
    }
}

// ------------------------------------------------------------------------------------------------
// RGB8 image
//
/// Lowest representation of an rgb8 image in this engine.
#[derive(Debug)]
pub struct Rgb8Image {
    id: u32,
    src: u32,
    width: u16,
    height: u16,
    data: Vec<u8>,
}

impl Rgb8Image {
    /// The id the image has; zero as long as it has none.
    pub closed spec fn image_id(self) -> u32 {
        self.id
    }

    /// The id of the file component the image came from.
    pub closed spec fn file_id(self) -> u32 {
        self.src
    }

    /// The two dimensions the image was made with, in the order they were given.
    pub closed spec fn dimensions(self) -> (u16, u16) {
        (self.width, self.height)
    }

    /// The samples of the image, row after row.
    pub closed spec fn pixels(self) -> Seq<u8> {
        self.data@
    }
}

impl Component for Rgb8Image {
    open spec fn id(&self) -> u32 {
        self.image_id()
    }

    open spec fn kind(&self) -> CType {
        CType::IMAGE
    }

    fn get_id(&self) -> (r: u32) {
        self.id
    }

    fn get_type(&self) -> (r: CType) {
        CType::IMAGE
    }

    fn set_id(&mut self, id: u32)
        ensures
            final(self).dimensions() == old(self).dimensions(),
            final(self).pixels() == old(self).pixels(),
            final(self).file_id() == old(self).file_id(),
    {
        self.id = id
    }

    fn is_initialized(&self) -> (r: bool) {
        self.id != 0
    }
}

impl ImageTrait<u8> for Rgb8Image {
    open spec fn made_width(&self) -> u16 {
        self.dimensions().0
    }

    open spec fn made_height(&self) -> u16 {
        self.dimensions().1
    }

    open spec fn samples(&self) -> Seq<u8> {
        self.pixels()
    }

    open spec fn source(&self) -> u32 {
        self.file_id()
    }

    open spec fn pixel_length() -> u8 {
        3
    }

    fn new(id: u32, src: u32, w: u16, h: u16, data: Vec<u8>) -> (r: Self)
        ensures
            r.image_id() == id,
    {
        Rgb8Image { id, src, width: w, height: h, data }
    }

    fn get_width(&self) -> (r: u16) {
        self.height
    }

    fn get_height(&self) -> (r: u16) {
        self.width
    }

    fn get_data(&self) -> (r: &Vec<u8>) {
        &self.data
    }

    fn get_pixel_lenght(&self) -> (r: u8) {
        3
    }

    fn get_file_src(&self) -> (r: u32) {
        self.src
    }
}

// ------------------------------------------------------------------------------------------------
// RGB16 image
//
/// Lowest representation of an rgb16 image in this engine.
#[derive(Debug)]
pub struct Rgb16Image {
    id: u32,
    src: u32,
    width: u16,
    height: u16,
    data: Vec<u16>,
}

impl Rgb16Image {
    /// The id the image has; zero as long as it has none.
    pub closed spec fn image_id(self) -> u32 {
        self.id
    }

    /// The id of the file component the image came from.
    pub closed spec fn file_id(self) -> u32 {
        self.src
    }

    /// The two dimensions the image was made with, in the order they were given.
    pub closed spec fn dimensions(self) -> (u16, u16) {
        (self.width, self.height)
    }

    /// The samples of the image, row after row.
    pub closed spec fn pixels(self) -> Seq<u16> {
        self.data@
    }
}

impl Component for Rgb16Image {
    open spec fn id(&self) -> u32 {
        self.image_id()
    }

    open spec fn kind(&self) -> CType {
        CType::IMAGE
    }

    fn get_id(&self) -> (r: u32) {
        self.id
    }

    fn get_type(&self) -> (r: CType) {
        CType::IMAGE
    }

    fn set_id(&mut self, id: u32)
        ensures
            final(self).dimensions() == old(self).dimensions(),
            final(self).pixels() == old(self).pixels(),
            final(self).file_id() == old(self).file_id(),
    {
        self.id = id
    }

    fn is_initialized(&self) -> (r: bool) {
        self.id != 0
    }
}

impl ImageTrait<u16> for Rgb16Image {
    open spec fn made_width(&self) -> u16 {
        self.dimensions().0
    }

    open spec fn made_height(&self) -> u16 {
        self.dimensions().1
    }

    open spec fn samples(&self) -> Seq<u16> {
        self.pixels()
    }

    open spec fn source(&self) -> u32 {
        self.file_id()
    }

    open spec fn pixel_length() -> u8 {
        3
    }

    fn new(id: u32, src: u32, w: u16, h: u16, data: Vec<u16>) -> (r: Self)
        ensures
            r.image_id() == id,
    {
        Rgb16Image { id, src, width: w, height: h, data }
    }

    fn get_width(&self) -> (r: u16) {
        self.height
    }

    fn get_height(&self) -> (r: u16) {
        self.width
    }

    fn get_data(&self) -> (r: &Vec<u16>) {
        &self.data
    }

    fn get_pixel_lenght(&self) -> (r: u8) {
        3
    }

    fn get_file_src(&self) -> (r: u32) {
        self.src
    }
}

// ------------------------------------------------------------------------------------------------
// RGB32 image
//
/// Lowest representation of an rgb32 image in this engine.
#[derive(Debug)]
pub struct Rgb32Image {
    id: u32,
    src: u32,
    width: u16,
    height: u16,
    data: Vec<u32>,
}

impl Rgb32Image {
    /// The id the image has; zero as long as it has none.
    pub closed spec fn image_id(self) -> u32 {
        self.id
    }

    /// The id of the file component the image came from.
    pub closed spec fn file_id(self) -> u32 {
        self.src
    }

    /// The two dimensions the image was made with, in the order they were given.
    pub closed spec fn dimensions(self) -> (u16, u16) {
        (self.width, self.height)
    }

    /// The samples of the image, row after row.
    pub closed spec fn pixels(self) -> Seq<u32> {
        self.data@
    }
}

impl Component for Rgb32Image {
    open spec fn id(&self) -> u32 {
        self.image_id()
    }

    open spec fn kind(&self) -> CType {
        CType::IMAGE
    }

    fn get_id(&self) -> (r: u32) {
        self.id
    }

    fn get_type(&self) -> (r: CType) {
        CType::IMAGE
    }

    fn set_id(&mut self, id: u32)
        ensures
            final(self).dimensions() == old(self).dimensions(),
            final(self).pixels() == old(self).pixels(),
            final(self).file_id() == old(self).file_id(),
    {
        self.id = id
    }

    fn is_initialized(&self) -> (r: bool) {
        self.id != 0
    }
}

impl ImageTrait<u32> for Rgb32Image {
    open spec fn made_width(&self) -> u16 {
        self.dimensions().0
    }

    open spec fn made_height(&self) -> u16 {
        self.dimensions().1
    }

    open spec fn samples(&self) -> Seq<u32> {
        self.pixels()
    }

    open spec fn source(&self) -> u32 {
        self.file_id()
    }

    open spec fn pixel_length() -> u8 {
        3
    }

    fn new(id: u32, src: u32, w: u16, h: u16, data: Vec<u32>) -> (r: Self)
        ensures
            r.image_id() == id,
    {
        Rgb32Image { id, src, width: w, height: h, data }
    }

    fn get_width(&self) -> (r: u16) {
        self.height
    }

    fn get_height(&self) -> (r: u16) {
        self.width
    }

    fn get_data(&self) -> (r: &Vec<u32>) {
        &self.data
    }

    fn get_pixel_lenght(&self) -> (r: u8) {
        3
    }

    fn get_file_src(&self) -> (r: u32) {
        self.src
    }
}

// ------------------------------------------------------------------------------------------------
// RGBA8 image
//
/// Lowest representation of an rgba8 image in this engine.
#[derive(Debug)]
pub struct Rgba8Image {
    id: u32,
    src: u32,
    width: u16,
    height: u16,
    data: Vec<u8>,
}

impl Rgba8Image {
    /// The id the image has; zero as long as it has none.
    pub closed spec fn image_id(self) -> u32 {
        self.id
    }

    /// The id of the file component the image came from.
    pub closed spec fn file_id(self) -> u32 {
        self.src
    }

    /// The two dimensions the image was made with, in the order they were given.
    pub closed spec fn dimensions(self) -> (u16, u16) {
        (self.width, self.height)
    }

    /// The samples of the image, row after row.
    pub closed spec fn pixels(self) -> Seq<u8> {
        self.data@
    }
}

impl Component for Rgba8Image {
    open spec fn id(&self) -> u32 {
        self.image_id()
    }

    open spec fn kind(&self) -> CType {
        CType::IMAGE
    }

    fn get_id(&self) -> (r: u32) {
        self.id
    }

    fn get_type(&self) -> (r: CType) {
        CType::IMAGE
    }

    fn set_id(&mut self, id: u32)
        ensures
            final(self).dimensions() == old(self).dimensions(),
            final(self).pixels() == old(self).pixels(),
            final(self).file_id() == old(self).file_id(),
    {
        self.id = id
    }

    fn is_initialized(&self) -> (r: bool) {
        self.id != 0
    }
}

impl ImageTrait<u8> for Rgba8Image {
    open spec fn made_width(&self) -> u16 {
        self.dimensions().0
    }

    open spec fn made_height(&self) -> u16 {
        self.dimensions().1
    }

    open spec fn samples(&self) -> Seq<u8> {
        self.pixels()
    }

    open spec fn source(&self) -> u32 {
        self.file_id()
    }

    open spec fn pixel_length() -> u8 {
        4
    }

    fn new(id: u32, src: u32, w: u16, h: u16, data: Vec<u8>) -> (r: Self)
        ensures
            r.image_id() == id,
    {
        Rgba8Image { id, src, width: w, height: h, data }
    }

    fn get_width(&self) -> (r: u16) {
        self.height
    }

    fn get_height(&self) -> (r: u16) {
        self.width
    }

    fn get_data(&self) -> (r: &Vec<u8>) {
        &self.data
    }

    fn get_pixel_lenght(&self) -> (r: u8) {
        4
    }

    fn get_file_src(&self) -> (r: u32) {
        self.src
    }
}

// ------------------------------------------------------------------------------------------------
// RGBA16 image
//
/// Lowest representation of an rgba16 image in this engine.
#[derive(Debug)]
pub struct Rgba16Image {
    id: u32,
    src: u32,
    width: u16,
    height: u16,
    data: Vec<u16>,
}

impl Rgba16Image {
    /// The id the image has; zero as long as it has none.
    pub closed spec fn image_id(self) -> u32 {
        self.id
    }

    /// The id of the file component the image came from.
    pub closed spec fn file_id(self) -> u32 {
        self.src
    }

    /// The two dimensions the image was made with, in the order they were given.
    pub closed spec fn dimensions(self) -> (u16, u16) {
        (self.width, self.height)
    }

    /// The samples of the image, row after row.
    pub closed spec fn pixels(self) -> Seq<u16> {
        self.data@
    }
}

impl Component for Rgba16Image {
    open spec fn id(&self) -> u32 {
        self.image_id()
    }

    open spec fn kind(&self) -> CType {
        CType::IMAGE
    }

    fn get_id(&self) -> (r: u32) {
        self.id
    }

    fn get_type(&self) -> (r: CType) {
        CType::IMAGE
    }

    fn set_id(&mut self, id: u32)
        ensures
            final(self).dimensions() == old(self).dimensions(),
            final(self).pixels() == old(self).pixels(),
            final(self).file_id() == old(self).file_id(),
    {
        self.id = id
    }

    fn is_initialized(&self) -> (r: bool) {
        self.id != 0
    }
}

impl ImageTrait<u16> for Rgba16Image {
    open spec fn made_width(&self) -> u16 {
        self.dimensions().0
    }

    open spec fn made_height(&self) -> u16 {
        self.dimensions().1
    }

    open spec fn samples(&self) -> Seq<u16> {
        self.pixels()
    }

    open spec fn source(&self) -> u32 {
        self.file_id()
    }

    open spec fn pixel_length() -> u8 {
        4
    }

    fn new(id: u32, src: u32, w: u16, h: u16, data: Vec<u16>) -> (r: Self)
        ensures
            r.image_id() == id,
    {
        Rgba16Image { id, src, width: w, height: h, data }
    }

    fn get_width(&self) -> (r: u16) {
        self.height
    }

    fn get_height(&self) -> (r: u16) {
        self.width
    }

    fn get_data(&self) -> (r: &Vec<u16>) {
        &self.data
    }

    fn get_pixel_lenght(&self) -> (r: u8) {
        4
    }

    fn get_file_src(&self) -> (r: u32) {
        self.src
    }
}

// ------------------------------------------------------------------------------------------------
// RGBA32 image
//
/// Lowest representation of an rgba32 image in this engine.
#[derive(Debug)]
pub struct Rgba32Image {
    id: u32,
    src: u32,
    width: u16,
    height: u16,
    data: Vec<u32>,
}

impl Rgba32Image {
    /// The id the image has; zero as long as it has none.
    pub closed spec fn image_id(self) -> u32 {
        self.id
    }

    /// The id of the file component the image came from.
    pub closed spec fn file_id(self) -> u32 {
        self.src
    }

    /// The two dimensions the image was made with, in the order they were given.
    pub closed spec fn dimensions(self) -> (u16, u16) {
        (self.width, self.height)
    }

    /// The samples of the image, row after row.
    pub closed spec fn pixels(self) -> Seq<u32> {
        self.data@
    }
}

impl Component for Rgba32Image {
    open spec fn id(&self) -> u32 {
        self.image_id()
    }

    open spec fn kind(&self) -> CType {
        CType::IMAGE
    }

    fn get_id(&self) -> (r: u32) {
        self.id
    }

    fn get_type(&self) -> (r: CType) {
        CType::IMAGE
    }

    fn set_id(&mut self, id: u32)
        ensures
            final(self).dimensions() == old(self).dimensions(),
            final(self).pixels() == old(self).pixels(),
            final(self).file_id() == old(self).file_id(),
    {
        self.id = id
    }

    fn is_initialized(&self) -> (r: bool) {
        self.id != 0
    }
}

impl ImageTrait<u32> for Rgba32Image {
    open spec fn made_width(&self) -> u16 {
        self.dimensions().0
    }

    open spec fn made_height(&self) -> u16 {
        self.dimensions().1
    }

    open spec fn samples(&self) -> Seq<u32> {
        self.pixels()
    }

    open spec fn source(&self) -> u32 {
        self.file_id()
    }

    open spec fn pixel_length() -> u8 {
        4
    }

    fn new(id: u32, src: u32, w: u16, h: u16, data: Vec<u32>) -> (r: Self)
        ensures
            r.image_id() == id,
    {
        Rgba32Image { id, src, width: w, height: h, data }
    }

    fn get_width(&self) -> (r: u16) {
        self.height
    }

    fn get_height(&self) -> (r: u16) {
        self.width
    }

    fn get_data(&self) -> (r: &Vec<u32>) {
        &self.data
    }

    fn get_pixel_lenght(&self) -> (r: u8) {
        4
    }

    fn get_file_src(&self) -> (r: u32) {
        self.src
    }
}

// ------------------------------------------------------------------------------------------------
// Texture
//
/// What every texture component can tell.
pub trait TextureTraits {
    /// The id of the image component the texture shows.
    spec fn image(&self) -> u32;

    /// The level of detail that OpenGL is to interpret.
    spec fn details(&self) -> u8;

    /// Gets the id of the image component of the texture.
    fn get_src(&self) -> (r: u32)
        ensures
            r == self.image(),
    ;

    /// Returns the texture target for OpenGL calls.
    fn get_target(&self) -> (r: u32)
        ensures
            r == TEXTURE_2D,
    ;

    /// Returns the level of detail that OpenGL is to interpret.
    fn get_details_lvl(&self) -> (r: u8)
        ensures
            r == self.details(),
    ;

    /// Gives access to the OpenGL texture object the component is linked to.
    fn access_gl_buffer(&self) -> (r: &TBO);
}

/// A texture of two dimensions.
#[derive(Debug)]
pub struct GTexture2D {
    id: u32,
    src: u32,
    buffer: TBO,
    details_lvl: u8,
}

impl GTexture2D {
    pub closed spec fn texture_id(self) -> u32 {
        self.id
    }

    pub closed spec fn image_id(self) -> u32 {
        self.src
    }

    pub closed spec fn level(self) -> u8 {
        self.details_lvl
    }

    pub closed spec fn object(self) -> TBO {
        self.buffer
    }

    /// A texture of the image component `src`, on the texture object `buffer`.
    pub fn new(id: u32, src: u32, buffer: TBO, details_lvl: u8) -> (r: Self)
        ensures
            r.texture_id() == id,
            r.image_id() == src,
            r.object() == buffer,
            r.level() == details_lvl,
    {
        GTexture2D { id, src, buffer, details_lvl }
    }
}

impl Component for GTexture2D {
    open spec fn id(&self) -> u32 {
        self.texture_id()
    }

    open spec fn kind(&self) -> CType {
        CType::TEXTURE
    }

    fn get_id(&self) -> (r: u32) {
        self.id
    }

    fn get_type(&self) -> (r: CType) {
        CType::TEXTURE
    }

    fn set_id(&mut self, id: u32)
        ensures
            final(self).image_id() == old(self).image_id(),
            final(self).level() == old(self).level(),
            final(self).object() == old(self).object(),
    {
        self.id = id
    }

    fn is_initialized(&self) -> (r: bool) {
        self.id != 0
    }
}

impl TextureTraits for GTexture2D {
    open spec fn image(&self) -> u32 {
        self.image_id()
    }

    open spec fn details(&self) -> u8 {
        self.level()
    }

    fn get_src(&self) -> (r: u32) {
        self.src
    }

    fn get_target(&self) -> (r: u32) {
        TEXTURE_2D
    }

    fn get_details_lvl(&self) -> (r: u8) {
        self.details_lvl
    }

    fn access_gl_buffer(&self) -> (r: &TBO)
        ensures
            *r == self.object(),
    {
        &self.buffer
    }
}

// ------------------------------------------------------------------------------------------------
// Graphics primitives buffer
//
/// An index into a buffer of vertices.
pub type Indice = u16;

/// A buffer of indices.
#[derive(Debug)]
pub struct IndicesBuffer {
    id: u32,
    data: Vec<Indice>,
}

impl IndicesBuffer {
    pub closed spec fn buffer_id(self) -> u32 {
        self.id
    }

    pub closed spec fn indices(self) -> Seq<Indice> {
        self.data@
    }

    pub fn new(id: u32, data: Vec<Indice>) -> (r: Self)
        ensures
            r.buffer_id() == id,
            r.indices() == data@,
    {
        IndicesBuffer { id, data }
    }

    pub fn get_data(&self) -> (r: &Vec<Indice>)
        ensures
            r@ == self.indices(),
    {
        &self.data
    }
}

impl Component for IndicesBuffer {
    open spec fn id(&self) -> u32 {
        self.buffer_id()
    }

    open spec fn kind(&self) -> CType {
        CType::BUFFER
    }

    fn get_id(&self) -> (r: u32) {
        self.id
    }

    fn get_type(&self) -> (r: CType) {
        CType::BUFFER
    }

    fn set_id(&mut self, id: u32)
        ensures
            final(self).indices() == old(self).indices(),
    {
        self.id = id
    }

    fn is_initialized(&self) -> (r: bool) {
        self.id != 0
    }
}

// ------------------------------------------------------------------------------------------------
// Mesh
//
/// What every mesh component can tell.
pub trait MeshTrait {
    /// The id of the buffer of vertices of the mesh.
    spec fn vertex_buffer(&self) -> u32;

    /// Returns the id of the buffer of vertices; the indices of a mesh are kept
    /// with its vertices.
    fn get_indices(&self) -> (r: u32)
        ensures
            r == self.vertex_buffer(),
    ;

    /// Returns the id of the buffer of vertices.
    fn get_vertices(&self) -> (r: u32)
        ensures
            r == self.vertex_buffer(),
    ;
}

/// A mesh with the OpenGL objects it is drawn from.
#[derive(Debug)]
pub struct GMesh {
    id: u32,
    vertices: u32,
    indices: u32,
    vao: VAO,
    vbo: VBO,
    ebo: EBO,
}

impl GMesh {
    pub closed spec fn mesh_id(self) -> u32 {
        self.id
    }

    pub closed spec fn vertices_id(self) -> u32 {
        self.vertices
    }

    pub closed spec fn indices_id(self) -> u32 {
        self.indices
    }

    /// A mesh of the buffers `vertices` and `indices`, drawn from the given objects.
    pub fn new(id: u32, vertices: u32, indices: u32, vao: VAO, vbo: VBO, ebo: EBO) -> (r: Self)
        ensures
            r.mesh_id() == id,
            r.vertices_id() == vertices,
            r.indices_id() == indices,
    {
        GMesh { id, vertices, indices, vao, vbo, ebo }
    }
}

impl Component for GMesh {
    open spec fn id(&self) -> u32 {
        self.mesh_id()
    }

    open spec fn kind(&self) -> CType {
        CType::BUFFER
    }

    fn get_id(&self) -> (r: u32) {
        self.id
    }

    fn get_type(&self) -> (r: CType) {
        CType::BUFFER
    }

    fn set_id(&mut self, id: u32)
        ensures
            final(self).vertices_id() == old(self).vertices_id(),
            final(self).indices_id() == old(self).indices_id(),
    {
        self.id = id
    }

    fn is_initialized(&self) -> (r: bool) {
        self.id != 0
    }
}

impl MeshTrait for GMesh {
    open spec fn vertex_buffer(&self) -> u32 {
        self.vertices_id()
    }

    fn get_indices(&self) -> (r: u32) {
        self.vertices
    }

    fn get_vertices(&self) -> (r: u32) {
        self.vertices
    }
}

// ------------------------------------------------------------------------------------------------
// Shader
//
/// The kind of shader that the files of an extension hold, if any.
pub open spec fn shader_kind(ext: Seq<char>) -> Option<u32> {
    if ext == "frag"@ {
        Some(FRAGMENT_SHADER)
    } else if ext == "vert"@ {
        Some(VERTEX_SHADER)
    } else {
        None
    }
}

/// A shader with the file it came from and the OpenGL object it was given to.
#[derive(Debug)]
pub struct GShader {
    id: u32,
    src: u32,
    gsource: u32,
}

impl GShader {
    pub closed spec fn shader_id(self) -> u32 {
        self.id
    }

    pub closed spec fn file_id(self) -> u32 {
        self.src
    }

    pub closed spec fn object(self) -> u32 {
        self.gsource
    }

    /// Tells which kind of shader a file holds, by its extension, and makes sure
    /// that its content can be handed to OpenGL as a string, which it cannot where
    /// it holds a zero byte. The driver is only asked for a shader object where
    /// this succeeds.
    pub fn stage_of(file: &CFile) -> (r: Result<u32, EComponent>)
        ensures
            match r {
                Ok(stage) => !file.bytes().contains(0u8) && shader_kind(file.extension_text())
                    == Some(stage),
                Err(EComponent::CONVERSION { from, to, how }) => file.bytes().contains(0u8)
                    && from@ == "&[u8]"@ && to@ == "CString"@,
                Err(EComponent::SHADER_TYPE(ext)) => !file.bytes().contains(0u8) && shader_kind(
                    file.extension_text(),
                ) is None && ext@ == file.extension_text(),
                Err(_) => false,
            },
    {
        match Self::load_as_cstring(file.get_file_content()) {
            Ok(()) => {},
            Err(e) => {
                return Err(e);
            },
        }
        let ext = file.get_extension();
        if same_text(ext, "frag") {
            Ok(FRAGMENT_SHADER)
        } else if same_text(ext, "vert") {
            Ok(VERTEX_SHADER)
        } else {
            Err(EComponent::SHADER_TYPE(ext.to_owned()))
        }
    }

    /// A shader of the file component `file`, given to the shader object `gsource`.
    pub fn new(file: &CFile, gsource: u32) -> (r: Result<Self, EComponent>)
        ensures
            match r {
                Ok(shader) => !file.bytes().contains(0u8) && shader_kind(file.extension_text())
                    is Some && shader.shader_id() == 0 && shader.file_id() == file.file_id()
                    && shader.object() == gsource,
                Err(_) => file.bytes().contains(0u8) || shader_kind(file.extension_text())
                    is None,
            },
    {
        match Self::stage_of(file) {
            Ok(_) => Ok(GShader { id: 0, src: file.get_id(), gsource }),
            Err(e) => Err(e),
        }
    }

    /// Makes sure that the content of a file can be handed over as a string that
    /// ends at the first zero byte: it must hold none.
    fn load_as_cstring(file_content: &[u8]) -> (r: Result<(), EComponent>)
        ensures
            match r {
                Ok(()) => !file_content@.contains(0u8),
                Err(EComponent::CONVERSION { from, to, how }) => file_content@.contains(0u8)
                    && from@ == "&[u8]"@ && to@ == "CString"@,
                Err(_) => false,
            },
    {
        let mut i: usize = 0;
        while i < file_content.len()
            invariant
                i <= file_content@.len(),
                forall|j: int| 0 <= j < i ==> file_content@[j] != 0u8,
            decreases file_content@.len() - i,
        {
            if file_content[i] == 0 {
                return Err(
                    EComponent::CONVERSION {
                        from: "&[u8]".to_owned(),
                        to: "CString".to_owned(),
                        how: "get file content for gshader".to_owned(),
                    },
                );
            }
            i += 1;
        }
        Ok(())
    }
}

impl Component for GShader {
    open spec fn id(&self) -> u32 {
        self.shader_id()
    }

    open spec fn kind(&self) -> CType {
        CType::SOURCE
    }

    fn get_id(&self) -> (r: u32) {
        self.id
    }

    fn get_type(&self) -> (r: CType) {
        CType::SOURCE
    }

    fn set_id(&mut self, id: u32)
        ensures
            final(self).file_id() == old(self).file_id(),
            final(self).object() == old(self).object(),
    {
        self.id = id
    }

    fn is_initialized(&self) -> (r: bool) {
        self.id != 0
    }
}

/// A shader program with the shader objects it is linked from.
#[derive(Debug)]
pub struct GShaderProgram {
    id: u32,
    gsource: Vec<u32>,
    gprogram: u32,
}

impl GShaderProgram {
    pub closed spec fn program_id(self) -> u32 {
        self.id
    }

    pub closed spec fn sources(self) -> Seq<u32> {
        self.gsource@
    }

    pub closed spec fn object(self) -> u32 {
        self.gprogram
    }

    /// A program of the given shader objects, linked as the program object `gprogram`.
    pub fn new(id: u32, gsource: Vec<u32>, gprogram: u32) -> (r: Self)
        ensures
            r.program_id() == id,
            r.sources() == gsource@,
            r.object() == gprogram,
    {
        GShaderProgram { id, gsource, gprogram }
    }
}

impl Component for GShaderProgram {
    open spec fn id(&self) -> u32 {
        self.program_id()
    }

    open spec fn kind(&self) -> CType {
        CType::SHADER
    }

    fn get_id(&self) -> (r: u32) {
        self.id
    }

    fn get_type(&self) -> (r: CType) {
        CType::SHADER
    }

    fn set_id(&mut self, id: u32)
        ensures
            final(self).sources() == old(self).sources(),
            final(self).object() == old(self).object(),
    {
        self.id = id
    }

    fn is_initialized(&self) -> (r: bool) {
        self.id != 0
    }
}

} // verus!
