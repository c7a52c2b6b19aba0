//! What binds the graphics pipeline to the live swapchain.

use vstd::prelude::*;
use crate::error_handler::EVlkApi;
use super::failure::{VlkCause, VlkFailure};
use super::surface::Extent2D;
use super::swapchain::{color_view_of, create_image_views, ImageViewCreateInfo, VSwapChain};

verus! {

/// Name of the function a shader stage starts at.
pub const SHADER_ENTRY_POINT: &'static str = "main";

/// The part of the framebuffer that is drawn to, in whole pixels, with the range
/// of depths that is written.
#[derive(Debug, Clone, Copy, PartialEq, Eq, Structural)]
pub struct Viewport {
    pub origin: Extent2D,
    pub dimensions: Extent2D,
    pub min_depth: u32,
    pub max_depth: u32,
}

/// A stage of the pipeline that takes a shader.
#[derive(Debug, Clone, Copy, PartialEq, Eq, Structural)]
pub enum ShaderStage {
    Vertex,
    Fragment,
}

/// What loading a shader module gave.
#[derive(Debug)]
pub struct ShaderModuleInfo {
    pub module: u64,
    /// The module has an entry point of the expected name.
    pub has_entry_point: bool,
}

/// What the pipeline renders into.
#[derive(Debug)]
pub struct PipelineRenderingCreateInfo {
    /// The format of each color attachment; the engine has one, the swapchain's.
    pub color_attachment_formats: Vec<Option<i32>>,
    pub vertex_shader: u64,
    pub fragment_shader: u64,
}

/// The viewport before any swapchain exists: empty, at the origin.
pub fn empty_viewport() -> (r: Viewport)
    ensures
        r == (Viewport {
            origin: Extent2D { width: 0, height: 0 },
            dimensions: Extent2D { width: 0, height: 0 },
            min_depth: 0,
            max_depth: 1,
        }),
{
    Viewport {
        origin: Extent2D { width: 0, height: 0 },
        dimensions: Extent2D { width: 0, height: 0 },
        min_depth: 0,
        max_depth: 1,
    }
}

/// The failure of planning a pipeline, if any: the vertex shader is looked at
/// first, its loading before its entry point, then the fragment shader.
pub open spec fn pipeline_failure(
    vertex: Result<ShaderModuleInfo, String>,
    fragment: Result<ShaderModuleInfo, String>,
) -> Option<VlkCause> {
    match vertex {
        Err(why) => Some(VlkCause::DriverRejected(why)),
        Ok(vs) => match fragment {
            Err(why) => Some(VlkCause::DriverRejected(why)),
            Ok(fs) => if !vs.has_entry_point {
                Some(VlkCause::NoEntryPoint(ShaderStage::Vertex))
            } else if !fs.has_entry_point {
                Some(VlkCause::NoEntryPoint(ShaderStage::Fragment))
            } else {
                None
            },
        },
    }
}

/// Describes the pipeline for the live swapchain: it renders into one color
/// attachment of the swapchain's format, with the two shaders as loaded. Fails
/// where a shader could not be loaded or lacks its entry point.
pub fn create_graphic_pipeline(
    swapchain: &VSwapChain,
    vertex: Result<ShaderModuleInfo, String>,
    fragment: Result<ShaderModuleInfo, String>,
) -> (r: Result<PipelineRenderingCreateInfo, VlkFailure>)
    ensures
        match pipeline_failure(vertex, fragment) {
            Some(cause) => r matches Err(f) && f.kind == EVlkApi::Shader && f.cause == cause,
            None => r matches Ok(info) && info.color_attachment_formats@ == seq![
                Some(swapchain.request().image_format),
            ] && info.vertex_shader == vertex->Ok_0.module && info.fragment_shader
                == fragment->Ok_0.module,
        },
{
    let vs = match vertex {
        Ok(vs) => vs,
        Err(why) => {
            return Err(VlkFailure { kind: EVlkApi::Shader, cause: VlkCause::DriverRejected(why) });
        },
    };
    let fs = match fragment {
        Ok(fs) => fs,
        Err(why) => {
            return Err(VlkFailure { kind: EVlkApi::Shader, cause: VlkCause::DriverRejected(why) });
        },
    };
    if !vs.has_entry_point {
        return Err(
            VlkFailure { kind: EVlkApi::Shader, cause: VlkCause::NoEntryPoint(ShaderStage::Vertex) },
        );
    }
    if !fs.has_entry_point {
        return Err(
            VlkFailure {
                kind: EVlkApi::Shader,
                cause: VlkCause::NoEntryPoint(ShaderStage::Fragment),
            },
        );
    }
    let mut formats: Vec<Option<i32>> = Vec::new();
    formats.push(Some(swapchain.get_format()));
    assert(formats@ =~= seq![Some(swapchain.request().image_format)]);
    Ok(
        PipelineRenderingCreateInfo {
            color_attachment_formats: formats,
            vertex_shader: vs.module,
            fragment_shader: fs.module,
        },
    )
}

/// Takes over the pipeline that the driver built, or reports its refusal.
pub fn finish_graphic_pipeline(built: Result<u64, String>) -> (r: Result<u64, VlkFailure>)
    ensures
        match built {
            Ok(handle) => r == Ok::<_, VlkFailure>(handle),
            Err(why) => r == Err::<u64, _>(
                VlkFailure { kind: EVlkApi::GraphicPipeline, cause: VlkCause::DriverRejected(why) },
            ),
        },
{
    match built {
        Ok(handle) => Ok(handle),
        Err(why) => Err(
            VlkFailure { kind: EVlkApi::GraphicPipeline, cause: VlkCause::DriverRejected(why) },
        ),
    }
}

/// Brings what depends on the window's size in line with the live swapchain: the
/// viewport takes the extent of its images, and one view is asked for per image.
/// Called once at start-up and again after every recreation.
pub fn window_size_dependent_setup(swapchain: &VSwapChain, viewport: &mut Viewport) -> (views: Vec<
    ImageViewCreateInfo,
>)
    ensures
        final(viewport).dimensions == swapchain.request().image_extent,
        final(viewport).origin == old(viewport).origin,
        final(viewport).min_depth == old(viewport).min_depth,
        final(viewport).max_depth == old(viewport).max_depth,
        views@.len() == swapchain.images().len(),
        views@.len() > 0,
        forall|i: int|
            0 <= i < views@.len() ==> #[trigger] views@[i] == color_view_of(
                swapchain.images()[i],
                swapchain.request().image_format,
            ),
{
    viewport.dimensions = swapchain.get_extent();
    create_image_views(swapchain.get_format(), swapchain.get_images())
}

// ------------------------------------------------------------------------------------------------
// Shader stages
//
/// Bit of the graphics API for the vertex stage.
pub const SHADER_STAGE_VERTEX: u32 = 0x1;

/// Bit of the graphics API for the fragment stage.
pub const SHADER_STAGE_FRAGMENT: u32 = 0x10;

/// What one stage of the pipeline runs: a shader module, from its entry point.
#[derive(Debug, Clone, Copy, PartialEq, Eq, Structural)]
pub struct PipelineShaderStageCreateInfo {
    pub module: u64,
    pub stage: u32,
}

/// The stages of a pipeline, in the order they were added.
#[derive(Debug)]
pub struct ShaderStages {
    shaders: Vec<PipelineShaderStageCreateInfo>,
}

impl ShaderStages {
    /// The stages, in the order they were added.
    pub closed spec fn stages(self) -> Seq<PipelineShaderStageCreateInfo> {
        self.shaders@
    }

    /// No stage yet.
    pub fn init() -> (r: Self)
        ensures
            r.stages() == Seq::<PipelineShaderStageCreateInfo>::empty(),
    {
        ShaderStages { shaders: Vec::new() }
    }

    /// Adds a stage that runs the shader module from its entry point.
    pub fn add_shader(&mut self, shader: u64, type_: u32)
        ensures
            final(self).stages() == old(self).stages().push(
                PipelineShaderStageCreateInfo { module: shader, stage: type_ },
            ),
    {
        self.shaders.push(PipelineShaderStageCreateInfo { module: shader, stage: type_ });
    }

    pub fn get_stages(&self) -> (r: &Vec<PipelineShaderStageCreateInfo>)
        ensures
            r@ == self.stages(),
    {
        &self.shaders
    }
}

/// The bytes of a shader make whole words of the shader language, as the driver
/// needs them: their number is a multiple of four and not zero.
pub open spec fn whole_words(code: Seq<u8>) -> bool {
    code.len() > 0 && code.len() % 4 == 0
}

/// Tells whether the bytes of a shader can be handed to the driver as they are.
pub fn create_shader_module(data: &Vec<u8>) -> (r: bool)
    ensures
        r == whole_words(data@),
{
    data.len() > 0 && data.len() % 4 == 0
}

} // verus!
