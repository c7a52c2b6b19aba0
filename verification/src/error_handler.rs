//! Error taxonomy of the engine, one enum per component boundary.

use vstd::prelude::*;

verus! {

/// Errors raised outside of the control of the engine.
#[derive(Debug, Clone, Copy, PartialEq, Eq, Structural)]
pub enum EGeneral {
    Conversion,
    MutexAccess,
    CStringParsing,
}

impl EGeneral {
    /// How the error is headed when it is shown.
    pub open spec fn heading(self) -> Seq<char> {
        match self {
            EGeneral::Conversion => "Conversion Error"@,
            EGeneral::MutexAccess => "MutexAccess Error"@,
            EGeneral::CStringParsing => "C_STRING_PARSING Error"@,
        }
    }

    /// Gives the heading under which the error is shown.
    pub fn describe(&self) -> (r: &'static str)
        ensures
            r@ == self.heading(),
    {
        match self {
            EGeneral::Conversion => "Conversion Error",
            EGeneral::MutexAccess => "MutexAccess Error",
            EGeneral::CStringParsing => "C_STRING_PARSING Error",
        }
    }
}

/// High-level errors of the core module.
#[derive(Debug, Clone, Copy, PartialEq, Eq, Structural)]
pub enum ECore {
    Logging,
    File,
}

impl ECore {
    /// How the error is headed when it is shown.
    pub open spec fn heading(self) -> Seq<char> {
        match self {
            ECore::Logging => "Logging Module Error:"@,
            ECore::File => "Load File Module Error:"@,
        }
    }

    /// Gives the heading under which the error is shown.
    pub fn describe(&self) -> (r: &'static str)
        ensures
            r@ == self.heading(),
    {
        match self {
            ECore::Logging => "Logging Module Error:",
            ECore::File => "Load File Module Error:",
        }
    }
}

/// Errors met while a file is looked at.
#[derive(Debug, Clone, Copy, PartialEq, Eq, Structural)]
pub enum EFile {
    Extension,
    Content,
    Path,
}

impl EFile {
    /// How the error is headed when it is shown.
    pub open spec fn heading(self) -> Seq<char> {
        match self {
            EFile::Extension => "Extension Error"@,
            EFile::Content => "Content Error"@,
            EFile::Path => "Path error"@,
        }
    }

    /// Gives the heading under which the error is shown.
    pub fn describe(&self) -> (r: &'static str)
        ensures
            r@ == self.heading(),
    {
        match self {
            EFile::Extension => "Extension Error",
            EFile::Content => "Content Error",
            EFile::Path => "Path error",
        }
    }
}

/// High-level errors of the rendering module.
#[derive(Debug, Clone, Copy, PartialEq, Eq, Structural)]
pub enum ERendering {
    VulkanBase,
    Surface,
    System,
    GpuRessources,
}

impl ERendering {
    /// How the error is headed when it is shown.
    pub open spec fn heading(self) -> Seq<char> {
        match self {
            ERendering::VulkanBase => "Vulkan Rendering System"@,
            ERendering::Surface => "Window surface"@,
            ERendering::System => "Rendering System"@,
            ERendering::GpuRessources => "Free gpu resources"@,
        }
    }

    /// Gives the heading under which the error is shown.
    pub fn describe(&self) -> (r: &'static str)
        ensures
            r@ == self.heading(),
    {
        match self {
            ERendering::VulkanBase => "Vulkan Rendering System",
            ERendering::Surface => "Window surface",
            ERendering::System => "Rendering System",
            ERendering::GpuRessources => "Free gpu resources",
        }
    }
}

/// The component of the graphics-API core in which an error arose.
#[derive(Debug, Clone, Copy, PartialEq, Eq, Structural)]
pub enum EVlkApi {
    Library,
    Instance,
    Debug,
    PhysicalDevice,
    Device,
    Surface,
    Swapchain,
    SwapchainChange,
    GraphicPipeline,
    RenderPass,
    FrameBuffer,
    Queue,
    Image,
    Shader,
    Memory,
}

impl EVlkApi {
    /// How the error is headed when it is shown.
    pub open spec fn heading(self) -> Seq<char> {
        match self {
            EVlkApi::Library => "Api Entry Point Error:"@,
            EVlkApi::Instance => "Instance Error:"@,
            EVlkApi::Debug => "Debug utils Error:"@,
            EVlkApi::PhysicalDevice => "Physical Devices Error:"@,
            EVlkApi::Device => "Devices Error:"@,
            EVlkApi::Surface => "Vulkan Surface Error:"@,
            EVlkApi::Swapchain => "Swapchain Error:"@,
            EVlkApi::SwapchainChange => "Swapchain change Error:"@,
            EVlkApi::GraphicPipeline => "Graphics Pipeline Error:"@,
            EVlkApi::RenderPass => "Renderpass Error:"@,
            EVlkApi::FrameBuffer => "FrameBuffer Error:"@,
            EVlkApi::Queue => "Queue Error:"@,
            EVlkApi::Image => "Image Error:"@,
            EVlkApi::Shader => "Shader Module Error:"@,
            EVlkApi::Memory => "Memory Error:"@,
        }
    }

    /// Gives the heading under which the error is shown.
    pub fn describe(&self) -> (r: &'static str)
        ensures
            r@ == self.heading(),
    {
        match self {
            EVlkApi::Library => "Api Entry Point Error:",
            EVlkApi::Instance => "Instance Error:",
            EVlkApi::Debug => "Debug utils Error:",
            EVlkApi::PhysicalDevice => "Physical Devices Error:",
            EVlkApi::Device => "Devices Error:",
            EVlkApi::Surface => "Vulkan Surface Error:",
            EVlkApi::Swapchain => "Swapchain Error:",
            EVlkApi::SwapchainChange => "Swapchain change Error:",
            EVlkApi::GraphicPipeline => "Graphics Pipeline Error:",
            EVlkApi::RenderPass => "Renderpass Error:",
            EVlkApi::FrameBuffer => "FrameBuffer Error:",
            EVlkApi::Queue => "Queue Error:",
            EVlkApi::Image => "Image Error:",
            EVlkApi::Shader => "Shader Module Error:",
            EVlkApi::Memory => "Memory Error:",
        }
    }
}

} // verus!
