use skyshard::graphics::vulkan::shaders::{resolve_shader_kind, ShaderKind};
use skyshard::graphics::vulkan::device::{queue_families, select_queue_family, DeviceError};
use skyshard::graphics::vulkan::instance::{InstanceBuilder, InstanceInstantiationError};
use skyshard::graphics::vulkan::mem::{BufferAllocationDescriptor, ImageAllocationDescriptor, MemoryManagerError};
use skyshard::graphics::vulkan::queue::{QueueCapabilities, QueueFamily};
use skyshard::graphics::vulkan::resources::{BufferUsage, ImageFormat, ImageTiling, ImageUsage, MemoryLocation};
use skyshard::graphics::vulkan::shaders::{
    spirv_code, FragmentShaderBinary, GeometryShaderBinary, ShaderBinary, ShaderModule, ShaderModuleError,
    VertexShaderBinary,
};
use skyshard::graphics::vulkan::swapchain::{
    desired_image_count, pre_transform, present_mode, resolution, swapchain_settings, SurfaceCapabilities,
    SurfaceFormat, SwapchainError, PRESENT_MODE_FIFO, PRESENT_MODE_MAILBOX,
};
use skyshard::graphics::vulkan::{DebugLevel, LogLevel, VulkanError};
use skyshard::graphics::Extent;
use skyshard::util::Version;

fn families() -> Vec<QueueFamily> {
    vec![
        QueueFamily::new(0, 2, 4),
        QueueFamily::new(1, 1 | 4, 1),
        QueueFamily::new(2, 1 | 2 | 4, 16),
    ]
}

#[test]
fn queue_families_keep_the_fitting_in_order() {
    let wanted = QueueCapabilities::GRAPHICS_OPERATIONS() & QueueCapabilities::TRANSFER_OPERATIONS();
    assert_eq!(wanted.mask, 5);
    let found = queue_families(&families(), wanted, 1);
    assert_eq!(found.iter().map(|family| family.index()).collect::<Vec<_>>(), vec![1, 2]);
    let found = queue_families(&families(), wanted, 2);
    assert_eq!(found.iter().map(|family| family.index()).collect::<Vec<_>>(), vec![2]);
    assert_eq!(queue_families(&families(), QueueCapabilities::ANY(), 0).len(), 3);
}

#[test]
fn the_first_fitting_family_is_selected() {
    let wanted = QueueCapabilities::GRAPHICS_OPERATIONS() & QueueCapabilities::TRANSFER_OPERATIONS();
    let family = select_queue_family(&families(), wanted, 1).ok().unwrap();
    assert_eq!(family.index(), 1);
    let family = select_queue_family(&families(), QueueCapabilities::COMPUTE_OPERATIONS(), 4).ok().unwrap();
    assert_eq!(family.index(), 0);
}

#[test]
fn no_fitting_family_lists_all() {
    let wanted = QueueCapabilities::SPARSE_BINDING();
    match select_queue_family(&families(), wanted, 1) {
        Err(DeviceError::NoSatisfyingQueueFamilyFound { requested_queue_flags, requested_queue_count, found }) => {
            assert!(requested_queue_flags.sparse_binding);
            assert!(!requested_queue_flags.graphics_operations);
            assert_eq!(requested_queue_count, 1);
            assert_eq!(found, families());
        }
        _ => panic!("expected no family"),
    }
}

#[test]
fn device_error_from_vulkan_error() {
    let error = DeviceError::from(VulkanError::DeviceLostError);
    assert!(matches!(error, DeviceError::DeviceInstantiationError { source: VulkanError::DeviceLostError }));
    assert_eq!(VulkanError::from_result_code(-4), VulkanError::DeviceLostError);
    assert_eq!(VulkanError::from_result_code(-1000), VulkanError::Unknown);
}

fn capabilities() -> SurfaceCapabilities {
    SurfaceCapabilities {
        min_image_count: 2,
        max_image_count: 8,
        current_width: 800,
        current_height: 600,
        supported_transforms: 0x1 | 0x2,
        current_transform: 0x2,
    }
}

#[test]
fn image_count_is_one_more_within_the_limit() {
    assert_eq!(desired_image_count(2, 8), 3);
    assert_eq!(desired_image_count(2, 0), 3);
    assert_eq!(desired_image_count(3, 3), 3);
}

#[test]
fn resolution_comes_from_the_window_when_left_open() {
    assert_eq!(resolution(&capabilities(), 1024, 768), (800, 600));
    let open = SurfaceCapabilities { current_width: u32::MAX, ..capabilities() };
    assert_eq!(resolution(&open, 1024, 768), (1024, 768));
}

#[test]
fn identity_transform_is_preferred() {
    assert_eq!(pre_transform(0x1 | 0x4, 0x4), 0x1);
    assert_eq!(pre_transform(0x4 | 0x8, 0x8), 0x8);
}

#[test]
fn mailbox_is_preferred_over_fifo() {
    assert_eq!(present_mode(&[0, 2, 1]), PRESENT_MODE_MAILBOX);
    assert_eq!(present_mode(&[0, 2, 3]), PRESENT_MODE_FIFO);
    assert_eq!(present_mode(&[]), PRESENT_MODE_FIFO);
}

#[test]
fn swapchain_settings_of_a_surface() {
    let formats = [SurfaceFormat { format: 44, color_space: 0 }, SurfaceFormat { format: 50, color_space: 0 }];
    let settings = swapchain_settings(Ok(true), &formats, &capabilities(), 1, 1, &[2, 1]).ok().unwrap();
    assert_eq!(settings.format, formats[0]);
    assert_eq!(settings.image_count, 3);
    assert_eq!((settings.width, settings.height), (800, 600));
    assert_eq!(settings.pre_transform, 0x1);
    assert_eq!(settings.present_mode, PRESENT_MODE_MAILBOX);
}

#[test]
fn swapchain_needs_presentation_support() {
    let formats = [SurfaceFormat { format: 44, color_space: 0 }];
    assert_eq!(
        swapchain_settings(Ok(false), &formats, &capabilities(), 1, 1, &[2]),
        Err(SwapchainError::PresentationNotSupportedError)
    );
    assert_eq!(
        swapchain_settings(Err(VulkanError::DeviceLostError), &formats, &capabilities(), 1, 1, &[2]),
        Err(SwapchainError::SwapchainVulkanError(VulkanError::DeviceLostError))
    );
    assert_eq!(
        SwapchainError::from(VulkanError::OutOfHostMemoryError),
        SwapchainError::SwapchainVulkanError(VulkanError::OutOfHostMemoryError)
    );
}

const LITTLE_ENDIAN_SPIRV: [u8; 8] = [0x03, 0x02, 0x23, 0x07, 0x01, 0x00, 0x01, 0x00];
const BIG_ENDIAN_SPIRV: [u8; 8] = [0x07, 0x23, 0x02, 0x03, 0x00, 0x01, 0x00, 0x01];

#[test]
fn spirv_is_read_in_either_byte_order() {
    assert_eq!(spirv_code(&LITTLE_ENDIAN_SPIRV), Some(vec![0x0723_0203, 0x0001_0001]));
    assert_eq!(spirv_code(&BIG_ENDIAN_SPIRV), Some(vec![0x0723_0203, 0x0001_0001]));
    assert_eq!(spirv_code(&[0x03, 0x02, 0x23, 0x07, 0x01]), None);
    assert_eq!(spirv_code(&[]), None);
    assert_eq!(spirv_code(&[1, 2, 3, 4]), None);
}

#[test]
fn shader_binaries_know_their_stage() {
    let vertex = VertexShaderBinary::new(&LITTLE_ENDIAN_SPIRV);
    assert_eq!(vertex.stage(), 0x1);
    assert_eq!(vertex.code(), &[0x0723_0203, 0x0001_0001]);
    let fragment = FragmentShaderBinary::new(&BIG_ENDIAN_SPIRV);
    assert_eq!(fragment.stage(), 0x10);
    assert_eq!(fragment.code(), &[0x0723_0203, 0x0001_0001]);
    let geometry = GeometryShaderBinary::new(&LITTLE_ENDIAN_SPIRV);
    assert_eq!(geometry.stage(), 0x8);
}

#[test]
fn shader_module_entrypoint_is_a_c_string() {
    let module = ShaderModule::create(VertexShaderBinary::new(&LITTLE_ENDIAN_SPIRV), "main").ok().unwrap();
    assert_eq!(module.entrypoint(), "main");
    assert_eq!(module.shader().stage(), 0x1);
    let error = ShaderModule::create(VertexShaderBinary::new(&LITTLE_ENDIAN_SPIRV), "ma\0in").err().unwrap();
    assert_eq!(error, ShaderModuleError::InvalidEntryPoint { entrypoint: String::from("ma\0in") });
}

#[test]
fn instance_info_needs_name_and_version() {
    let missing_name = InstanceBuilder::new().application_version(&Version::new(1, 0, 0)).info();
    assert_eq!(
        missing_name.err().unwrap(),
        InstanceInstantiationError::MissingParameter { parameter: String::from("application name") }
    );
    let missing_version = InstanceBuilder::new().application_name("demo").info();
    assert_eq!(
        missing_version.err().unwrap(),
        InstanceInstantiationError::MissingParameter { parameter: String::from("application version") }
    );
}

#[test]
fn instance_info_defaults_and_debug_extension() {
    let builder = InstanceBuilder::new()
        .application_name("demo")
        .application_version(&Version::new(0, 1, 0))
        .layers(&vec![String::from("VK_LAYER_KHRONOS_validation")])
        .extensions(&vec![String::from("VK_KHR_surface")])
        .debug(true, DebugLevel::DEBUG());
    assert!(builder.debug_enabled());
    assert_eq!(builder.debug_level().name(), "DEBUG");
    let info = builder.info().ok().unwrap();
    assert_eq!(info.application_name, "demo");
    assert_eq!(info.engine_name, "skyshard");
    assert_eq!(info.engine_version, Version::new(0, 1, 0));
    assert_eq!(info.vulkan_version, Version::new(1, 2, 0));
    assert_eq!(info.layer_names, vec![String::from("VK_LAYER_KHRONOS_validation")]);
    assert_eq!(info.extension_names, vec![String::from("VK_KHR_surface"), String::from("VK_EXT_debug_utils")]);
    let info = InstanceBuilder::new()
        .application_name("demo")
        .application_version(&Version::new(0, 1, 0))
        .vulkan_version(&Version::new(1, 3, 0))
        .info()
        .ok()
        .unwrap();
    assert_eq!(info.vulkan_version, Version::new(1, 3, 0));
    assert!(info.extension_names.is_empty());
}

#[test]
fn debug_levels_and_flags() {
    assert_eq!(DebugLevel::ERROR().as_flags(), 0x1000);
    assert_eq!(DebugLevel::WARNING().as_flags(), 0x1100);
    assert_eq!(DebugLevel::INFO().as_flags(), 0x1110);
    assert_eq!(DebugLevel::DEBUG().as_flags(), 0x1111);
    assert_eq!(DebugLevel::from_severity(0x100), DebugLevel::WARNING());
    assert_eq!(DebugLevel::from_severity(0x1), DebugLevel::DEBUG());
}

#[test]
fn memory_descriptors_give_usage_bits() {
    let buffer = BufferAllocationDescriptor { buffer_usage: BufferUsage::VertexBuffer, memory_usage: MemoryLocation::CpuToGpu };
    assert_eq!(buffer.usage_flags(), 0x80);
    let image = ImageAllocationDescriptor {
        image_usage: ImageUsage::DepthStencilAttachment,
        extent: Extent::from(4, 4, 1),
        memory_usage: MemoryLocation::GpuOnly,
    };
    assert_eq!(image.usage_flags(), 0x20);
    assert_eq!(
        MemoryManagerError::CreateBufferError { name: "vertices" },
        MemoryManagerError::CreateBufferError { name: "vertices" }
    );
}

#[test]
fn format_and_tiling_codes() {
    assert_eq!(ImageFormat::RGBA8.code(), 37);
    assert_eq!(ImageFormat::UInt32.code(), 98);
    assert_eq!(ImageFormat::DepthStencil.code(), 130);
    assert_eq!(ImageTiling::Optimal.code(), 0);
    assert_eq!(ImageTiling::Linear.code(), 1);
}

#[test]
fn shader_kinds_by_name() {
    assert_eq!(resolve_shader_kind("Vertex"), ShaderKind::Vertex);
    assert_eq!(resolve_shader_kind("Fragment"), ShaderKind::Fragment);
    assert_eq!(resolve_shader_kind("Geometry"), ShaderKind::Geometry);
    assert_eq!(resolve_shader_kind("TessControl"), ShaderKind::TessControl);
    assert_eq!(resolve_shader_kind("TessEvaluation"), ShaderKind::TessEvaluation);
}

#[test]
fn messages_are_logged_at_their_level() {
    assert_eq!(DebugLevel::from_severity(0x1000).log_level(), LogLevel::Error);
    assert_eq!(DebugLevel::from_severity(0x100).log_level(), LogLevel::Warn);
    assert_eq!(DebugLevel::from_severity(0x10).log_level(), LogLevel::Info);
    assert_eq!(DebugLevel::from_severity(0x1).log_level(), LogLevel::Debug);
}
