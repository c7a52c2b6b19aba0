use cobia::ecs::loader::file::{get_file_extension, load_file, EFile};
use cobia::ecs::loader::ELoader;
use cobia::ecs::types::{
    image_kind, load_image, load_jpeg, load_png, CFile, CImage, CType, ColorType, Component,
    Decoded, GMesh, GShader, GShaderProgram, GTexture2D, ImageKind, ImageTrait, IndicesBuffer,
    JpegFrame, JpegInfo, MeshTrait, PixelFormat, PngFrame, Rgb16Image, Rgb32Image, Rgb8Image,
    Rgba16Image, Rgba32Image, Rgba8Image, TextureTraits, APNG_WARNING,
};
use cobia::ecs::{ComponentSystem, EComponent};
use cobia::renderer::opengl::buffer::{EBO, TBO, VAO, VBO};

const PNG_RGBA_2X1: [u8; 71] = [
    0x89, 0x50, 0x4E, 0x47, 0x0D, 0x0A, 0x1A, 0x0A, 0x00, 0x00, 0x00, 0x0D, 0x49, 0x48, 0x44, 0x52,
    0x00, 0x00, 0x00, 0x02, 0x00, 0x00, 0x00, 0x01, 0x08, 0x06, 0x00, 0x00, 0x00, 0xF4, 0x22, 0x7F,
    0x8A, 0x00, 0x00, 0x00, 0x0E, 0x49, 0x44, 0x41, 0x54, 0x78, 0x9C, 0x63, 0xF8, 0xCF, 0xC0, 0x00,
    0x42, 0x0D, 0x00, 0x0F, 0x7A, 0x03, 0x7E, 0x77, 0xE9, 0x7F, 0x97, 0x00, 0x00, 0x00, 0x00, 0x49,
    0x45, 0x4E, 0x44, 0xAE, 0x42, 0x60, 0x82,
];

const PNG_RGB_1X2: [u8; 73] = [
    0x89, 0x50, 0x4E, 0x47, 0x0D, 0x0A, 0x1A, 0x0A, 0x00, 0x00, 0x00, 0x0D, 0x49, 0x48, 0x44, 0x52,
    0x00, 0x00, 0x00, 0x01, 0x00, 0x00, 0x00, 0x02, 0x08, 0x02, 0x00, 0x00, 0x00, 0x16, 0xE3, 0x21,
    0x70, 0x00, 0x00, 0x00, 0x10, 0x49, 0x44, 0x41, 0x54, 0x78, 0x9C, 0x63, 0x60, 0x64, 0x62, 0x66,
    0x60, 0x61, 0x65, 0x03, 0x00, 0x00, 0x46, 0x00, 0x16, 0x77, 0xF5, 0xC8, 0x7F, 0x00, 0x00, 0x00,
    0x00, 0x49, 0x45, 0x4E, 0x44, 0xAE, 0x42, 0x60, 0x82,
];

const PNG_GRAY_1X1: [u8; 67] = [
    0x89, 0x50, 0x4E, 0x47, 0x0D, 0x0A, 0x1A, 0x0A, 0x00, 0x00, 0x00, 0x0D, 0x49, 0x48, 0x44, 0x52,
    0x00, 0x00, 0x00, 0x01, 0x00, 0x00, 0x00, 0x01, 0x08, 0x00, 0x00, 0x00, 0x00, 0x3A, 0x7E, 0x9B,
    0x55, 0x00, 0x00, 0x00, 0x0A, 0x49, 0x44, 0x41, 0x54, 0x78, 0x9C, 0x63, 0x60, 0x07, 0x00, 0x00,
    0x09, 0x00, 0x08, 0x20, 0x23, 0xC3, 0x8C, 0x00, 0x00, 0x00, 0x00, 0x49, 0x45, 0x4E, 0x44, 0xAE,
    0x42, 0x60, 0x82,
];

const JPEG_RGB_8X8: [u8; 169] = [
    0xFF, 0xD8, 0xFF, 0xE0, 0x00, 0x10, 0x4A, 0x46, 0x49, 0x46, 0x00, 0x01, 0x01, 0x00, 0x00, 0x01,
    0x00, 0x01, 0x00, 0x00, 0xFF, 0xDB, 0x00, 0x43, 0x00, 0x01, 0x01, 0x01, 0x01, 0x01, 0x01, 0x01,
    0x01, 0x01, 0x01, 0x01, 0x01, 0x01, 0x01, 0x01, 0x01, 0x01, 0x01, 0x01, 0x01, 0x01, 0x01, 0x01,
    0x01, 0x01, 0x01, 0x01, 0x01, 0x01, 0x01, 0x01, 0x01, 0x01, 0x01, 0x01, 0x01, 0x01, 0x01, 0x01,
    0x01, 0x01, 0x01, 0x01, 0x01, 0x01, 0x01, 0x01, 0x01, 0x01, 0x01, 0x01, 0x01, 0x01, 0x01, 0x01,
    0x01, 0x01, 0x01, 0x01, 0x01, 0x01, 0x01, 0x01, 0x01, 0xFF, 0xC0, 0x00, 0x11, 0x08, 0x00, 0x08,
    0x00, 0x08, 0x03, 0x01, 0x11, 0x00, 0x02, 0x11, 0x00, 0x03, 0x11, 0x00, 0xFF, 0xC4, 0x00, 0x14,
    0x00, 0x01, 0x00, 0x00, 0x00, 0x00, 0x00, 0x00, 0x00, 0x00, 0x00, 0x00, 0x00, 0x00, 0x00, 0x00,
    0x00, 0x00, 0xFF, 0xC4, 0x00, 0x14, 0x10, 0x01, 0x00, 0x00, 0x00, 0x00, 0x00, 0x00, 0x00, 0x00,
    0x00, 0x00, 0x00, 0x00, 0x00, 0x00, 0x00, 0x00, 0xFF, 0xDA, 0x00, 0x0C, 0x03, 0x01, 0x00, 0x02,
    0x00, 0x03, 0x00, 0x00, 0x3F, 0x00, 0x03, 0xFF, 0xD9,
];

fn decode_png(bytes: &[u8]) -> Result<PngFrame, String> {
    let decoder = png::Decoder::new(bytes);
    let mut reader = decoder.read_info().map_err(|e| e.to_string())?;
    let mut buf = vec![0; reader.output_buffer_size()];
    reader.next_frame(&mut buf).map_err(|e| e.to_string())?;
    let info = reader.info();
    Ok(PngFrame {
        width: info.width,
        height: info.height,
        color_type: match info.color_type {
            png::ColorType::Grayscale => ColorType::Grayscale,
            png::ColorType::Rgb => ColorType::Rgb,
            png::ColorType::Indexed => ColorType::Indexed,
            png::ColorType::GrayscaleAlpha => ColorType::GrayscaleAlpha,
            png::ColorType::Rgba => ColorType::Rgba,
        },
        animated: info.animation_control.is_some(),
        data: buf,
    })
}

fn decode_jpeg(bytes: &[u8]) -> Result<JpegFrame, String> {
    let mut decoder = jpeg_decoder::Decoder::new(bytes);
    let data = decoder.decode().map_err(|e| e.to_string())?;
    let info = decoder.info().map(|info| JpegInfo {
        width: info.width,
        height: info.height,
        pixel_format: match info.pixel_format {
            jpeg_decoder::PixelFormat::L8 => PixelFormat::L8,
            jpeg_decoder::PixelFormat::L16 => PixelFormat::L16,
            jpeg_decoder::PixelFormat::RGB24 => PixelFormat::RGB24,
            jpeg_decoder::PixelFormat::CMYK32 => PixelFormat::CMYK32,
        },
    });
    Ok(JpegFrame { info, data })
}

fn file(path: &str, content: &[u8]) -> CFile {
    let mut f = CFile::load(0, path, Ok(content.to_vec())).unwrap();
    f.set_id(7);
    f
}

fn load_failure(r: Result<CImage, EComponent>) -> (String, String) {
    match r {
        Err(EComponent::LOAD_IMAGE(p, why)) => (p, why),
        other => panic!("a failure to load was expected, got {:?}", other),
    }
}

#[test]
fn load_dir() {
    let f = load_file("data/test");
    assert!(f.is_err())
}

#[test]
fn load_file_with_no_ext() {
    let f = load_file("data/test/test_no_ext");
    assert!(f.is_err())
}

#[test]
fn correct_extension() {
    let f = load_file("data/test/test1.png").unwrap();
    assert_eq!(f.get_extension(), "png");
}

#[test]
fn unsuported_image_type() {
    let f = load_file("data/test/test3.webp").unwrap();
    let img = load_image(&f, Decoded::Png(Err("not decoded".to_string())));
    assert!(img.is_err())
}

#[test]
fn image_data_quick_test() {
    let f = file("data/test/test2.jpg", &JPEG_RGB_8X8);
    let img = load_image(&f, Decoded::Jpeg(decode_jpeg(f.get_file_content()))).unwrap();
    match img {
        CImage::RGB8(_img) => {
            println!("image data store in RGB8 struct");
            println!("id of cfile component: {}", _img.get_file_src());
            println!("height: {}", _img.get_height());
            println!("widht: {}", _img.get_width());
            println!("pixel lenght: {}", _img.get_pixel_lenght());
            println!("Component type: {:?}", _img.get_type());
            println!("id of the image component: {}", _img.get_id());
            assert_eq!(_img.get_file_src(), 7);
            assert_eq!(_img.get_data().len(), 8 * 8 * 3);
        }
        CImage::RGBA8(_img) => {
            println!("image data store in RGBA8 struct");
            println!("id of cfile component: {}", _img.get_file_src());
            println!("height: {}", _img.get_height());
            println!("widht: {}", _img.get_width());
            println!("pixel lenght: {}", _img.get_pixel_lenght());
            println!("Component type: {:?}", _img.get_type());
            println!("id of the image component: {}", _img.get_id());
        }
        CImage::RGB16(_img) => {
            println!("image data store in RGB16 struct");
            println!("id of cfile component: {}", _img.get_file_src());
            println!("height: {}", _img.get_height());
            println!("widht: {}", _img.get_width());
            println!("pixel lenght: {}", _img.get_pixel_lenght());
            println!("Component type: {:?}", _img.get_type());
            println!("id of the image component: {}", _img.get_id());
        }
        CImage::RGBA16(_img) => {
            println!("image data store in RGBA16 struct");
            println!("id of cfile component: {}", _img.get_file_src());
            println!("height: {}", _img.get_height());
            println!("widht: {}", _img.get_width());
            println!("pixel lenght: {}", _img.get_pixel_lenght());
            println!("Component type: {:?}", _img.get_type());
            println!("id of the image component: {}", _img.get_id());
        }
        CImage::RGB32(_img) => {
            println!("image data store in RGB32 struct");
            println!("id of cfile component: {}", _img.get_file_src());
            println!("height: {}", _img.get_height());
            println!("widht: {}", _img.get_width());
            println!("pixel lenght: {}", _img.get_pixel_lenght());
            println!("Component type: {:?}", _img.get_type());
            println!("id of the image component: {}", _img.get_id());
        }
        CImage::RGBA32(_img) => {
            println!("image data store in RGBA32 struct");
            println!("id of cfile component: {}", _img.get_file_src());
            println!("height: {}", _img.get_height());
            println!("widht: {}", _img.get_width());
            println!("pixel lenght: {}", _img.get_pixel_lenght());
            println!("Component type: {:?}", _img.get_type());
            println!("id of the image component: {}", _img.get_id());
        }
    }
}

#[test]
fn load_a_correct_png() {
    let f = file("data/test/test1.png", &PNG_RGBA_2X1);
    let img = load_image(&f, Decoded::Png(decode_png(f.get_file_content()))).unwrap();
    match img {
        CImage::RGBA8(_) => assert!(true),
        _ => {
            assert!(false)
        }
    }
}

#[test]
fn png_frames_become_eight_bit_images() {
    let f = file("pictures/two.png", &PNG_RGBA_2X1);
    let (img, warning) = load_png(&f, decode_png(&PNG_RGBA_2X1));
    assert!(warning.is_none());
    match img.unwrap() {
        CImage::RGBA8(img) => {
            assert_eq!(img.get_data(), &vec![255, 0, 0, 255, 0, 0, 255, 128]);
            assert_eq!(img.get_height(), 2);
            assert_eq!(img.get_width(), 1);
            assert_eq!(img.get_pixel_lenght(), 4);
            assert_eq!(img.get_file_src(), 7);
            assert_eq!(img.get_id(), 0);
            assert!(!img.is_initialized());
        }
        other => panic!("unexpected {:?}", other),
    }
    match load_png(&f, decode_png(&PNG_RGB_1X2)).0.unwrap() {
        CImage::RGB8(img) => {
            assert_eq!(img.get_data(), &vec![1, 2, 3, 4, 5, 6]);
            assert_eq!(img.get_height(), 1);
            assert_eq!(img.get_width(), 2);
            assert_eq!(img.get_pixel_lenght(), 3);
        }
        other => panic!("unexpected {:?}", other),
    }
    assert_eq!(
        load_failure(load_png(&f, decode_png(&PNG_GRAY_1X1)).0),
        ("pictures/two.png".to_string(), "unsuported color type".to_string())
    );
    let broken = decode_png(&PNG_GRAY_1X1[..20]);
    assert!(broken.is_err());
    let why = broken.as_ref().unwrap_err().clone();
    assert_eq!(load_failure(load_png(&f, broken).0), ("pictures/two.png".to_string(), why));
}

#[test]
fn animated_png_comes_with_a_warning_and_dimensions_keep_sixteen_bits() {
    let f = file("a.png", &[]);
    let frame = PngFrame {
        width: 0x1_0005,
        height: 70000,
        color_type: ColorType::Rgb,
        animated: true,
        data: vec![9, 9, 9],
    };
    let (img, warning) = load_png(&f, Ok(frame));
    assert_eq!(warning, Some(APNG_WARNING));
    match img.unwrap() {
        CImage::RGB8(img) => {
            assert_eq!(img.get_height(), 5);
            assert_eq!(img.get_width(), (70000u32 % 65536) as u16);
        }
        other => panic!("unexpected {:?}", other),
    }
}

#[test]
fn jpeg_frames_need_metadata_and_rgb_pixels() {
    let f = file("photo.jpeg", &JPEG_RGB_8X8);
    assert_eq!(image_kind(&f).unwrap(), ImageKind::Jpeg);
    let frame = decode_jpeg(&JPEG_RGB_8X8).unwrap();
    assert_eq!(frame.info, Some(JpegInfo { width: 8, height: 8, pixel_format: PixelFormat::RGB24 }));
    match load_jpeg(&f, Ok(frame)).unwrap() {
        CImage::RGB8(img) => {
            assert_eq!(img.get_height(), 8);
            assert_eq!(img.get_width(), 8);
            assert_eq!(img.get_data().len(), 192);
        }
        other => panic!("unexpected {:?}", other),
    }
    assert_eq!(
        load_failure(load_jpeg(&f, Ok(JpegFrame { info: None, data: vec![] }))).1,
        "unable to access metadata of a jpeg/jpg file. Nothing was found"
    );
    let gray = JpegFrame {
        info: Some(JpegInfo { width: 1, height: 1, pixel_format: PixelFormat::L8 }),
        data: vec![0],
    };
    assert_eq!(load_failure(load_jpeg(&f, Ok(gray))).1, "pixel format not supported");
    assert_eq!(
        load_failure(load_jpeg(&f, Err("bad marker".to_string()))).1,
        "Unable to access jpeg data by the decoder because of bad marker"
    );
    let not_jpeg = decode_jpeg(&PNG_GRAY_1X1);
    assert!(not_jpeg.is_err());
}

#[test]
fn extension_decides_the_kind_of_image() {
    assert_eq!(image_kind(&file("a.png", &[])).unwrap(), ImageKind::Png);
    assert_eq!(image_kind(&file("a.jpg", &[])).unwrap(), ImageKind::Jpeg);
    match image_kind(&file("dir/a.webp", &[])) {
        Err(EComponent::LOAD_IMAGE(p, why)) => {
            assert_eq!(p, "dir/a.webp");
            assert_eq!(why, "webp is not a valid extension for image");
        }
        other => panic!("unexpected {:?}", other),
    }
    let mismatch = load_image(&file("a.png", &[]), Decoded::Jpeg(Err("x".to_string())));
    assert_eq!(load_failure(mismatch).1, "the file was not decoded as its extension asks");
    let mismatch = load_image(&file("a.jpg", &[]), Decoded::Png(Err("x".to_string())));
    assert_eq!(load_failure(mismatch).1, "the file was not decoded as its extension asks");
    assert_eq!(load_failure(load_image(&file("a.png", &[]), Decoded::Png(Err("x".to_string())))).1, "x");
}

#[test]
fn file_component_keeps_what_it_was_loaded_with() {
    let mut f = CFile::load(3, "shaders/base.vert", Ok(vec![1, 2, 3])).unwrap();
    assert_eq!(f.get_id(), 3);
    assert!(f.is_initialized());
    assert_eq!(f.get_type(), CType::FILE);
    assert_eq!(f.get_path(), "shaders/base.vert");
    assert_eq!(f.get_extension(), "vert");
    assert_eq!(f.get_file_content(), &[1, 2, 3]);
    f.set_id(0);
    assert!(!f.is_initialized());
    assert_eq!(f.get_file_content(), &[1, 2, 3]);
    match CFile::load(3, "shaders/base", Ok(vec![])) {
        Err(EComponent::LOADING_FILE { file, cause }) => {
            assert_eq!(file, "shaders/base");
            assert_eq!(cause, "Don't have extension");
        }
        other => panic!("unexpected {:?}", other),
    }
    match CFile::load(3, "shaders/base.vert", Err("permission denied".to_string())) {
        Err(EComponent::LOADING_FILE { file, cause }) => {
            assert_eq!(file, "shaders/base.vert");
            assert_eq!(cause, "Cant get file contents because: permission denied");
        }
        other => panic!("unexpected {:?}", other),
    }
    assert_eq!(CFile::get_file_extension("a/b.tar.gz").unwrap(), "gz");
}

#[test]
fn loader_reports_the_path_without_extension() {
    assert_eq!(get_file_extension("a/b.jpeg").unwrap(), "jpeg");
    match get_file_extension("a/b") {
        Err(ELoader::FILE_ERROR { source: EFile::FILE_EXT(p) }) => assert_eq!(p, "a/b"),
        other => panic!("unexpected {:?}", other),
    }
    let f = load_file("x/y.frag").unwrap();
    assert_eq!(f.get_id(), 0);
    assert_eq!(f.get_path(), "x/y.frag");
    assert!(f.get_file_content().is_empty());
}

#[test]
fn every_image_layout_keeps_its_parts() {
    let a = Rgb8Image::new(1, 2, 30, 40, vec![1u8, 2, 3]);
    assert_eq!((a.get_id(), a.get_file_src(), a.get_height(), a.get_width()), (1, 2, 30, 40));
    assert_eq!(a.get_pixel_lenght(), 3);
    assert_eq!(a.get_type(), CType::IMAGE);
    let b = Rgb16Image::new(1, 2, 30, 40, vec![1u16, 2, 3]);
    assert_eq!((b.get_height(), b.get_width(), b.get_pixel_lenght()), (30, 40, 3));
    assert_eq!(b.get_data(), &vec![1u16, 2, 3]);
    let c = Rgb32Image::new(1, 2, 30, 40, vec![1u32, 2, 3]);
    assert_eq!((c.get_height(), c.get_width(), c.get_pixel_lenght()), (30, 40, 3));
    let d = Rgba8Image::new(1, 2, 30, 40, vec![1u8, 2, 3, 4]);
    assert_eq!((d.get_height(), d.get_width(), d.get_pixel_lenght()), (30, 40, 4));
    let e = Rgba16Image::new(1, 2, 30, 40, vec![1u16, 2, 3, 4]);
    assert_eq!((e.get_height(), e.get_width(), e.get_pixel_lenght()), (30, 40, 4));
    let mut g = Rgba32Image::new(0, 2, 30, 40, vec![1u32, 2, 3, 4]);
    assert!(!g.is_initialized());
    g.set_id(11);
    assert!(g.is_initialized());
    assert_eq!((g.get_id(), g.get_file_src(), g.get_pixel_lenght()), (11, 2, 4));
    assert_eq!(g.get_data(), &vec![1u32, 2, 3, 4]);
}

#[test]
fn textures_buffers_meshes_and_shaders() {
    let tbo = TBO::new(gl::TEXTURE_2D, 5, None).unwrap();
    let mut texture = GTexture2D::new(0, 9, tbo, 2);
    assert_eq!(texture.get_src(), 9);
    assert_eq!(texture.get_target(), gl::TEXTURE_2D);
    assert_eq!(texture.get_details_lvl(), 2);
    assert_eq!(texture.access_gl_buffer().get_id(), 5);
    assert_eq!(texture.get_type(), CType::TEXTURE);
    texture.set_id(4);
    assert_eq!(texture.get_id(), 4);

    let indices = IndicesBuffer::new(6, vec![0, 1, 2]);
    assert_eq!(indices.get_data(), &vec![0u16, 1, 2]);
    assert_eq!(indices.get_type(), CType::BUFFER);
    assert_eq!(indices.get_id(), 6);

    let mesh = GMesh::new(
        1,
        20,
        30,
        VAO::new(1, None).unwrap(),
        VBO::new(2, None).unwrap(),
        EBO::new(3, None).unwrap(),
    );
    assert_eq!(mesh.get_vertices(), 20);
    assert_eq!(mesh.get_indices(), 20);
    assert_eq!(mesh.get_type(), CType::BUFFER);

    let frag = file("s/base.frag", b"void main() {}");
    assert_eq!(GShader::stage_of(&frag).unwrap(), gl::FRAGMENT_SHADER);
    let vert = file("s/base.vert", b"void main() {}");
    assert_eq!(GShader::stage_of(&vert).unwrap(), gl::VERTEX_SHADER);
    let shader = GShader::new(&vert, 77).unwrap();
    assert_eq!(shader.get_id(), 0);
    assert_eq!(shader.get_type(), CType::SOURCE);
    match GShader::stage_of(&file("s/base.glsl", b"void main() {}")) {
        Err(EComponent::SHADER_TYPE(ext)) => assert_eq!(ext, "glsl"),
        other => panic!("unexpected {:?}", other),
    }
    match GShader::new(&file("s/base.vert", b"void\0main"), 1) {
        Err(EComponent::CONVERSION { from, to, .. }) => {
            assert_eq!(from, "&[u8]");
            assert_eq!(to, "CString");
        }
        other => panic!("unexpected {:?}", other.map(|s| s.get_id())),
    }
    let program = GShaderProgram::new(2, vec![77, 78], 5);
    assert_eq!(program.get_type(), CType::SHADER);
    assert_eq!(program.get_id(), 2);
}

#[test]
fn component_system_hands_out_ids_and_keeps_components() {
    let mut sys = ComponentSystem::init();
    assert_eq!(sys.len(), 0);
    assert_eq!(sys.get_current_shader(), 0);
    assert_eq!(sys.get_next_id(), Some(1));
    assert_eq!(sys.get_next_id(), Some(2));
    sys.push(Box::new(IndicesBuffer::new(1, vec![3])));
    sys.push(Box::new(Rgb8Image::new(2, 0, 1, 1, vec![0, 0, 0])));
    assert_eq!(sys.len(), 2);
    assert_eq!(sys.get(0).map(|c| c.get_id()).ok(), Some(1));
    assert_eq!(sys.get(1).map(|c| c.get_type()).ok(), Some(CType::IMAGE));
    assert!(matches!(sys.get(2), Err(EComponent::BAD_ID(2))));
    sys.set_curent_shader(2);
    assert_eq!(sys.get_current_shader(), 2);
}
