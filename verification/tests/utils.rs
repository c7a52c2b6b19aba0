use cobia::renderer::vulkan::pipeline::{
    create_shader_module, PipelineShaderStageCreateInfo, ShaderStages, SHADER_STAGE_FRAGMENT,
    SHADER_STAGE_VERTEX,
};
use cobia::renderer::vulkan::utils::{
    log_pdevice_debug_info, required_extension_names, vk_to_string, Platform,
};

#[test]
fn driver_text_ends_at_the_first_zero_byte() {
    assert_eq!(vk_to_string(b"GeForce\0\0\0garbage\0"), ("GeForce", true));
    assert_eq!(vk_to_string(b"no terminator"), ("no terminator", true));
    assert_eq!(vk_to_string(b"\0hidden"), ("", true));
    assert_eq!(vk_to_string(b""), ("", true));
    assert_eq!(vk_to_string("Radeon™\0".as_bytes()), ("Radeon™", true));
    assert_eq!(vk_to_string(&[b'a', 0xFF, b'b', 0]), ("", false));
    assert_eq!(vk_to_string(&[b'a', 0, 0xFF]), ("a", true));
    assert_eq!(vk_to_string(&[0xE2, 0x84, 0]), ("", false));
}

#[test]
fn required_extensions_follow_the_platform() {
    assert_eq!(
        required_extension_names(Platform::Xlib),
        vec!["VK_KHR_surface", "VK_KHR_xlib_surface", "VK_EXT_debug_utils"]
    );
    assert_eq!(
        required_extension_names(Platform::Win32),
        vec!["VK_KHR_surface", "VK_KHR_win32_surface", "VK_EXT_debug_utils"]
    );
}

#[test]
fn physical_device_is_introduced_in_the_log() {
    assert_eq!(
        log_pdevice_debug_info("llvmpipe", 0, 4_194_304),
        "Physical Device: llvmpipe\n\tid: 0\n\tdriver version: 4194304"
    );
}

#[test]
fn shader_stages_keep_their_order() {
    let mut stages = ShaderStages::init();
    assert!(stages.get_stages().is_empty());
    stages.add_shader(4, SHADER_STAGE_VERTEX);
    stages.add_shader(5, SHADER_STAGE_FRAGMENT);
    assert_eq!(
        stages.get_stages(),
        &vec![
            PipelineShaderStageCreateInfo { module: 4, stage: 1 },
            PipelineShaderStageCreateInfo { module: 5, stage: 16 },
        ]
    );
    assert!(create_shader_module(&vec![3, 2, 35, 7]));
    assert!(!create_shader_module(&vec![3, 2, 35]));
    assert!(!create_shader_module(&vec![]));
}
