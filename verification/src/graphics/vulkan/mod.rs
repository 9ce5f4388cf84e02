//! The Vulkan layer: errors, debug levels, queues and resources.

pub mod device;
pub mod instance;
pub mod mem;
pub mod queue;
pub mod resources;
pub mod shaders;
pub mod swapchain;

use vstd::prelude::*;

verus! {

/// The Vulkan handle types that the library carries through.
#[verifier::external_type_specification]
#[verifier::external_body]
pub struct ExImageViewHandle(ash::vk::ImageView);

#[verifier::external_type_specification]
#[verifier::external_body]
pub struct ExDescriptorSetHandle(ash::vk::DescriptorSet);

#[verifier::external_type_specification]
#[verifier::external_body]
pub struct ExAllocation(gpu_allocator::vulkan::Allocation);

#[verifier::external_type_specification]
#[verifier::external_body]
pub struct ExAllocationError(gpu_allocator::AllocationError);

/// A failure that Vulkan reported.
#[derive(Debug, Copy, Clone, PartialEq, Eq, Structural)]
pub enum VulkanError {
    OutOfHostMemoryError,
    OutOfDeviceMemoryError,
    InitializationFailedError,
    DeviceLostError,
    MemoryMapFailedError,
    LayerNotPresentError,
    ExtensionNotPresentError,
    FeatureNotPresentError,
    IncompatibleDriverError,
    TooManyObjectsError,
    FormatNotSupportedError,
    FragmentedPoolError,
    Unknown,
}

impl VulkanError {
    /// The error that a `VkResult` code stands for; codes that are not
    /// among these errors are `Unknown`.
    pub open spec fn spec_from_result_code(code: i32) -> VulkanError {
        if code == -1 {
            VulkanError::OutOfHostMemoryError
        } else if code == -2 {
            VulkanError::OutOfDeviceMemoryError
        } else if code == -3 {
            VulkanError::InitializationFailedError
        } else if code == -4 {
            VulkanError::DeviceLostError
        } else if code == -5 {
            VulkanError::MemoryMapFailedError
        } else if code == -6 {
            VulkanError::LayerNotPresentError
        } else if code == -7 {
            VulkanError::ExtensionNotPresentError
        } else if code == -8 {
            VulkanError::FeatureNotPresentError
        } else if code == -9 {
            VulkanError::IncompatibleDriverError
        } else if code == -10 {
            VulkanError::TooManyObjectsError
        } else if code == -11 {
            VulkanError::FormatNotSupportedError
        } else if code == -12 {
            VulkanError::FragmentedPoolError
        } else {
            VulkanError::Unknown
        }
    }

    /// The error that a `VkResult` code stands for.
    pub fn from_result_code(code: i32) -> (error: VulkanError)
        ensures
            error == VulkanError::spec_from_result_code(code),
    {
        match code {
            -1 => VulkanError::OutOfHostMemoryError,
            -2 => VulkanError::OutOfDeviceMemoryError,
            -3 => VulkanError::InitializationFailedError,
            -4 => VulkanError::DeviceLostError,
            -5 => VulkanError::MemoryMapFailedError,
            -6 => VulkanError::LayerNotPresentError,
            -7 => VulkanError::ExtensionNotPresentError,
            -8 => VulkanError::FeatureNotPresentError,
            -9 => VulkanError::IncompatibleDriverError,
            -10 => VulkanError::TooManyObjectsError,
            -11 => VulkanError::FormatNotSupportedError,
            -12 => VulkanError::FragmentedPoolError,
            _ => VulkanError::Unknown,
        }
    }
}

/// `VK_DEBUG_UTILS_MESSAGE_SEVERITY_VERBOSE_BIT_EXT`.
pub const SEVERITY_VERBOSE: u32 = 0x1;
/// `VK_DEBUG_UTILS_MESSAGE_SEVERITY_INFO_BIT_EXT`.
pub const SEVERITY_INFO: u32 = 0x10;
/// `VK_DEBUG_UTILS_MESSAGE_SEVERITY_WARNING_BIT_EXT`.
pub const SEVERITY_WARNING: u32 = 0x100;
/// `VK_DEBUG_UTILS_MESSAGE_SEVERITY_ERROR_BIT_EXT`.
pub const SEVERITY_ERROR: u32 = 0x1000;

/// How loud a message of the validation layers is logged.
#[derive(Debug, Copy, Clone, PartialEq, Eq, Structural)]
pub enum LogLevel {
    Error,
    Warn,
    Info,
    Debug,
}

/// How much the Vulkan validation layers report: each level reports
/// everything the levels below it do.
#[derive(Debug, PartialEq, Eq)]
pub struct DebugLevel {
    mask: u32,
    name: &'static str,
}

impl DebugLevel {
    pub const DEBUG_MASK: u32 = 1;
    pub const WARNING_MASK: u32 = 4;
    pub const INFO_MASK: u32 = 2;
    pub const ERROR_MASK: u32 = 8;

    /// Every level reports errors.
    #[verifier::type_invariant]
    spec fn reports_errors(self) -> bool {
        self.mask & 8 == 8
    }

    pub closed spec fn spec_mask(&self) -> u32 {
        self.mask
    }

    pub closed spec fn spec_name(&self) -> Seq<char> {
        self.name@
    }

    /// Errors only.
    #[allow(non_snake_case)]
    pub fn ERROR() -> (level: DebugLevel)
        ensures
            level.spec_mask() == 8,
            level.spec_name() == "ERROR"@,
    {
        assert(8u32 & 8u32 == 8u32) by (bit_vector);
        DebugLevel { mask: Self::ERROR_MASK, name: "ERROR" }
    }

    /// Errors and warnings.
    #[allow(non_snake_case)]
    pub fn WARNING() -> (level: DebugLevel)
        ensures
            level.spec_mask() == 12,
            level.spec_name() == "WARNING"@,
    {
        assert(8u32 | 4u32 == 12u32 && 12u32 & 8u32 == 8u32) by (bit_vector);
        DebugLevel { mask: Self::ERROR_MASK | Self::WARNING_MASK, name: "WARNING" }
    }

    /// Errors, warnings and information.
    #[allow(non_snake_case)]
    pub fn INFO() -> (level: DebugLevel)
        ensures
            level.spec_mask() == 14,
            level.spec_name() == "INFO"@,
    {
        assert(8u32 | 4u32 | 2u32 == 14u32 && 14u32 & 8u32 == 8u32) by (bit_vector);
        DebugLevel { mask: Self::ERROR_MASK | Self::WARNING_MASK | Self::INFO_MASK, name: "INFO" }
    }

    /// Everything.
    #[allow(non_snake_case)]
    pub fn DEBUG() -> (level: DebugLevel)
        ensures
            level.spec_mask() == 15,
            level.spec_name() == "DEBUG"@,
    {
        assert(8u32 | 4u32 | 2u32 | 1u32 == 15u32 && 15u32 & 8u32 == 8u32) by (bit_vector);
        DebugLevel {
            mask: Self::ERROR_MASK | Self::WARNING_MASK | Self::INFO_MASK | Self::DEBUG_MASK,
            name: "DEBUG",
        }
    }

    /// The name of the level, such as "WARNING".
    pub fn name(&self) -> (name: &'static str)
        ensures
            name@ == self.spec_name(),
    {
        self.name
    }

    /// The message severities that the level reports, as the bits of
    /// `VkDebugUtilsMessageSeverityFlagsEXT`: the most verbose level whose
    /// bit the mask holds decides.
    pub open spec fn spec_as_flags(mask: u32) -> u32 {
        if mask & 1 == 1 {
            SEVERITY_ERROR | SEVERITY_WARNING | SEVERITY_INFO | SEVERITY_VERBOSE
        } else if mask & 2 == 2 {
            SEVERITY_ERROR | SEVERITY_WARNING | SEVERITY_INFO
        } else if mask & 4 == 4 {
            SEVERITY_ERROR | SEVERITY_WARNING
        } else {
            SEVERITY_ERROR
        }
    }

    /// The message severities that the level reports.
    pub fn as_flags(&self) -> (flags: u32)
        ensures
            flags == DebugLevel::spec_as_flags(self.spec_mask()),
    {
        proof {
            use_type_invariant(self);
        }
        if self.mask & Self::DEBUG_MASK == Self::DEBUG_MASK {
            return SEVERITY_ERROR | SEVERITY_WARNING | SEVERITY_INFO | SEVERITY_VERBOSE;
        }
        if self.mask & Self::INFO_MASK == Self::INFO_MASK {
            return SEVERITY_ERROR | SEVERITY_WARNING | SEVERITY_INFO;
        }
        if self.mask & Self::WARNING_MASK == Self::WARNING_MASK {
            return SEVERITY_ERROR | SEVERITY_WARNING;
        }
        SEVERITY_ERROR
    }

    /// The log level of a message at this level: errors, warnings and
    /// information as such, everything else as debugging output.
    pub fn log_level(&self) -> (level: LogLevel)
        ensures
            level == (if self.spec_mask() == 8 {
                LogLevel::Error
            } else if self.spec_mask() == 12 {
                LogLevel::Warn
            } else if self.spec_mask() == 14 {
                LogLevel::Info
            } else {
                LogLevel::Debug
            }),
    {
        if self.mask == Self::ERROR_MASK {
            LogLevel::Error
        } else if self.mask == 12 {
            LogLevel::Warn
        } else if self.mask == 14 {
            LogLevel::Info
        } else {
            LogLevel::Debug
        }
    }

    /// The level of a message with the given severity bits: exactly the
    /// error, warning or info bit give those levels, anything else debug.
    pub fn from_severity(flags: u32) -> (level: DebugLevel)
        ensures
            level.spec_mask() == (if flags == SEVERITY_ERROR {
                8u32
            } else if flags == SEVERITY_WARNING {
                12u32
            } else if flags == SEVERITY_INFO {
                14u32
            } else {
                15u32
            }),
    {
        if flags == SEVERITY_ERROR {
            DebugLevel::ERROR()
        } else if flags == SEVERITY_WARNING {
            DebugLevel::WARNING()
        } else if flags == SEVERITY_INFO {
            DebugLevel::INFO()
        } else {
            DebugLevel::DEBUG()
        }
    }
}

/// Each debug level reports every severity that the levels below it
/// report: the flags of error, warning, info and debug grow in that order,
/// and every level reports errors.
pub proof fn lemma_levels_nest()
    ensures
        DebugLevel::spec_as_flags(8) & SEVERITY_ERROR == SEVERITY_ERROR,
        DebugLevel::spec_as_flags(12) & DebugLevel::spec_as_flags(8) == DebugLevel::spec_as_flags(8),
        DebugLevel::spec_as_flags(14) & DebugLevel::spec_as_flags(12) == DebugLevel::spec_as_flags(12),
        DebugLevel::spec_as_flags(15) & DebugLevel::spec_as_flags(14) == DebugLevel::spec_as_flags(14),
{
    assert({
        &&& 8u32 & 1 == 0 && 8u32 & 2 == 0 && 8u32 & 4 == 0
        &&& 12u32 & 1 == 0 && 12u32 & 2 == 0 && 12u32 & 4 == 4
        &&& 14u32 & 1 == 0 && 14u32 & 2 == 2
        &&& 15u32 & 1 == 1
        &&& 0x1000u32 & 0x1000u32 == 0x1000u32
        &&& (0x1000u32 | 0x100u32) & 0x1000u32 == 0x1000u32
        &&& (0x1000u32 | 0x100u32 | 0x10u32) & (0x1000u32 | 0x100u32) == (0x1000u32 | 0x100u32)
        &&& (0x1000u32 | 0x100u32 | 0x10u32 | 0x1u32) & (0x1000u32 | 0x100u32 | 0x10u32) == (
        0x1000u32 | 0x100u32 | 0x10u32)
    }) by (bit_vector);
}

} // verus!
