//! What a Vulkan instance is made with: the builder that gathers it and
//! the checks and defaults it is completed with.

use vstd::prelude::*;

use crate::graphics::vulkan::{DebugLevel, VulkanError};
use crate::util::{push_char, Version};

verus! {

/// Why an instance could not be made.
#[derive(Debug, Clone, PartialEq, Eq)]
pub enum InstanceInstantiationError {
    /// A parameter that has no default was not given.
    MissingParameter { parameter: String },
    VulkanError(VulkanError),
    Unknown,
}

impl From<VulkanError> for InstanceInstantiationError {
    fn from(error: VulkanError) -> (converted: InstanceInstantiationError) {
        InstanceInstantiationError::VulkanError(error)
    }
}

impl vstd::std_specs::convert::FromSpecImpl<VulkanError> for InstanceInstantiationError {
    open spec fn obeys_from_spec() -> bool {
        true
    }

    open spec fn from_spec(error: VulkanError) -> InstanceInstantiationError {
        InstanceInstantiationError::VulkanError(error)
    }
}

/// Everything an instance is made with.
#[derive(Debug, Clone)]
pub struct InstanceInfo {
    pub application_name: String,
    pub application_version: Version,
    pub engine_name: String,
    pub engine_version: Version,
    pub vulkan_version: Version,
    pub layer_names: Vec<String>,
    pub extension_names: Vec<String>,
}

/// The texts of a list of strings.
pub open spec fn texts(strings: Seq<String>) -> Seq<Seq<char>> {
    strings.map_values(|string: String| string@)
}

/// A name that can be handed to Vulkan as a C string: no NUL in it.
pub open spec fn is_c_name(name: Seq<char>) -> bool {
    !name.contains('\0')
}

/// Every name of the list can be handed to Vulkan.
pub open spec fn all_c_names(names: Seq<String>) -> bool {
    forall|i: int| 0 <= i < names.len() ==> is_c_name(#[trigger] names[i]@)
}

/// The name of the debug-utils extension, `VK_EXT_debug_utils`.
pub open spec fn debug_utils_extension() -> Seq<char> {
    seq!['V', 'K', '_', 'E', 'X', 'T', '_', 'd', 'e', 'b', 'u', 'g', '_', 'u', 't', 'i', 'l', 's']
}

/// The engine's name, `skyshard`.
pub open spec fn engine_name() -> Seq<char> {
    seq!['s', 'k', 'y', 's', 'h', 'a', 'r', 'd']
}

/// Gathers what an instance is to be made with.
pub struct InstanceBuilder {
    application_name: Option<String>,
    application_version: Option<Version>,
    vulkan_version: Option<Version>,
    layers: Vec<String>,
    extensions: Vec<String>,
    debug_enabled: bool,
    debug_level: DebugLevel,
}

fn text_of(chars: &[char]) -> (text: String)
    ensures
        text@ == chars@,
{
    let mut text = String::new();
    let mut i: usize = 0;
    while i < chars.len()
        invariant
            0 <= i <= chars@.len(),
            text@ == chars@.take(i as int),
        decreases chars@.len() - i,
    {
        push_char(&mut text, chars[i]);
        assert(chars@.take(i + 1) =~= chars@.take(i as int).push(chars@[i as int]));
        i = i + 1;
    }
    assert(chars@.take(chars@.len() as int) =~= chars@);
    text
}

fn extend_names(names: &mut Vec<String>, more: &Vec<String>)
    ensures
        texts(final(names)@) == texts(old(names)@) + texts(more@),
        final(names)@.len() == old(names)@.len() + more@.len(),
{
    let ghost start = names@;
    let mut i: usize = 0;
    while i < more.len()
        invariant
            0 <= i <= more@.len(),
            names@.len() == start.len() + i,
            texts(names@) == texts(start) + texts(more@.take(i as int)),
        decreases more@.len() - i,
    {
        let name = more[i].clone();
        assert(name@ == more@[i as int]@);
        let ghost before = names@;
        names.push(name);
        assert(texts(names@) =~= texts(before).push(name@));
        assert(texts(more@.take(i + 1)) =~= texts(more@.take(i as int)).push(more@[i as int]@));
        assert(texts(names@) =~= texts(start) + texts(more@.take(i + 1)));
        i = i + 1;
    }
    assert(more@.take(more@.len() as int) =~= more@);
}

impl InstanceBuilder {
    pub closed spec fn spec_application_name(&self) -> Option<Seq<char>> {
        match self.application_name {
            Some(name) => Some(name@),
            None => None,
        }
    }

    pub closed spec fn spec_application_version(&self) -> Option<Version> {
        self.application_version
    }

    pub closed spec fn spec_vulkan_version(&self) -> Option<Version> {
        self.vulkan_version
    }

    pub closed spec fn spec_layers(&self) -> Seq<Seq<char>> {
        texts(self.layers@)
    }

    pub closed spec fn spec_extensions(&self) -> Seq<Seq<char>> {
        texts(self.extensions@)
    }

    pub closed spec fn spec_debug_enabled(&self) -> bool {
        self.debug_enabled
    }

    pub closed spec fn spec_debug_mask(&self) -> u32 {
        self.debug_level.spec_mask()
    }

    /// A builder with nothing given yet: no layers or extensions, debugging
    /// off, errors only.
    pub fn new() -> (builder: InstanceBuilder)
        ensures
            builder.spec_application_name() is None,
            builder.spec_application_version() is None,
            builder.spec_vulkan_version() is None,
            builder.spec_layers() == Seq::<Seq<char>>::empty(),
            builder.spec_extensions() == Seq::<Seq<char>>::empty(),
            !builder.spec_debug_enabled(),
            builder.spec_debug_mask() == 8,
    {
        let builder = InstanceBuilder {
            application_name: None,
            application_version: None,
            vulkan_version: None,
            layers: Vec::new(),
            extensions: Vec::new(),
            debug_enabled: false,
            debug_level: DebugLevel::ERROR(),
        };
        assert(texts(builder.layers@) =~= Seq::<Seq<char>>::empty());
        assert(texts(builder.extensions@) =~= Seq::<Seq<char>>::empty());
        builder
    }

    /// The application's name.
    pub fn application_name(self, value: &str) -> (builder: InstanceBuilder)
        requires
            is_c_name(value@),
        ensures
            builder.spec_application_name() == Some(value@),
            builder.spec_application_version() == self.spec_application_version(),
            builder.spec_vulkan_version() == self.spec_vulkan_version(),
            builder.spec_layers() == self.spec_layers(),
            builder.spec_extensions() == self.spec_extensions(),
            builder.spec_debug_enabled() == self.spec_debug_enabled(),
            builder.spec_debug_mask() == self.spec_debug_mask(),
    {
        let mut builder = self;
        builder.application_name = Some(value.to_owned());
        builder
    }

    /// The application's version.
    pub fn application_version(self, value: &Version) -> (builder: InstanceBuilder)
        ensures
            builder.spec_application_name() == self.spec_application_name(),
            builder.spec_application_version() == Some(*value),
            builder.spec_vulkan_version() == self.spec_vulkan_version(),
            builder.spec_layers() == self.spec_layers(),
            builder.spec_extensions() == self.spec_extensions(),
            builder.spec_debug_enabled() == self.spec_debug_enabled(),
            builder.spec_debug_mask() == self.spec_debug_mask(),
    {
        let mut builder = self;
        builder.application_version = Some(*value);
        builder
    }

    /// The version of Vulkan the application uses.
    pub fn vulkan_version(self, value: &Version) -> (builder: InstanceBuilder)
        ensures
            builder.spec_application_name() == self.spec_application_name(),
            builder.spec_application_version() == self.spec_application_version(),
            builder.spec_vulkan_version() == Some(*value),
            builder.spec_layers() == self.spec_layers(),
            builder.spec_extensions() == self.spec_extensions(),
            builder.spec_debug_enabled() == self.spec_debug_enabled(),
            builder.spec_debug_mask() == self.spec_debug_mask(),
    {
        let mut builder = self;
        builder.vulkan_version = Some(*value);
        builder
    }

    /// Adds layers to enable.
    pub fn layers(self, value: &Vec<String>) -> (builder: InstanceBuilder)
        requires
            all_c_names(value@),
        ensures
            builder.spec_application_name() == self.spec_application_name(),
            builder.spec_application_version() == self.spec_application_version(),
            builder.spec_vulkan_version() == self.spec_vulkan_version(),
            builder.spec_layers() == self.spec_layers() + texts(value@),
            builder.spec_extensions() == self.spec_extensions(),
            builder.spec_debug_enabled() == self.spec_debug_enabled(),
            builder.spec_debug_mask() == self.spec_debug_mask(),
    {
        let mut builder = self;
        extend_names(&mut builder.layers, value);
        builder
    }

    /// Adds extensions to enable.
    pub fn extensions(self, value: &Vec<String>) -> (builder: InstanceBuilder)
        requires
            all_c_names(value@),
        ensures
            builder.spec_application_name() == self.spec_application_name(),
            builder.spec_application_version() == self.spec_application_version(),
            builder.spec_vulkan_version() == self.spec_vulkan_version(),
            builder.spec_layers() == self.spec_layers(),
            builder.spec_extensions() == self.spec_extensions() + texts(value@),
            builder.spec_debug_enabled() == self.spec_debug_enabled(),
            builder.spec_debug_mask() == self.spec_debug_mask(),
    {
        let mut builder = self;
        extend_names(&mut builder.extensions, value);
        builder
    }

    /// Whether to report through the validation layers, and how much.
    pub fn debug(self, enabled: bool, level: DebugLevel) -> (builder: InstanceBuilder)
        ensures
            builder.spec_application_name() == self.spec_application_name(),
            builder.spec_application_version() == self.spec_application_version(),
            builder.spec_vulkan_version() == self.spec_vulkan_version(),
            builder.spec_layers() == self.spec_layers(),
            builder.spec_extensions() == self.spec_extensions(),
            builder.spec_debug_enabled() == enabled,
            builder.spec_debug_mask() == level.spec_mask(),
    {
        let mut builder = self;
        builder.debug_enabled = enabled;
        builder.debug_level = level;
        builder
    }

    /// Whether debugging is on.
    pub fn debug_enabled(&self) -> (enabled: bool)
        ensures
            enabled == self.spec_debug_enabled(),
    {
        self.debug_enabled
    }

    /// How much is reported when debugging is on.
    pub fn debug_level(&self) -> (level: &DebugLevel)
        ensures
            level.spec_mask() == self.spec_debug_mask(),
    {
        &self.debug_level
    }

    /// Completes what the instance is made with: the application's name and
    /// version must have been given; the engine is skyshard 0.1.0; Vulkan
    /// 1.2.0 unless another version was given; and the debug-utils
    /// extension is added where debugging is on.
    pub fn info(&self) -> (info: Result<InstanceInfo, InstanceInstantiationError>)
        ensures
            match info {
                Ok(info) => {
                    &&& self.spec_application_name() == Some(info.application_name@)
                    &&& self.spec_application_version() == Some(info.application_version)
                    &&& info.engine_name@ == engine_name()
                    &&& info.engine_version == Version { major: 0, minor: 1, patch: 0 }
                    &&& info.vulkan_version == match self.spec_vulkan_version() {
                        Some(version) => version,
                        None => Version { major: 1, minor: 2, patch: 0 },
                    }
                    &&& texts(info.layer_names@) == self.spec_layers()
                    &&& texts(info.extension_names@) == if self.spec_debug_enabled() {
                        self.spec_extensions().push(debug_utils_extension())
                    } else {
                        self.spec_extensions()
                    }
                },
                Err(error) => {
                    &&& (self.spec_application_name() is None || self.spec_application_version() is None)
                    &&& error matches InstanceInstantiationError::MissingParameter { parameter }
                    &&& parameter@ == if self.spec_application_name() is None {
                        seq!['a', 'p', 'p', 'l', 'i', 'c', 'a', 't', 'i', 'o', 'n', ' ', 'n', 'a', 'm', 'e']
                    } else {
                        seq![
                            'a', 'p', 'p', 'l', 'i', 'c', 'a', 't', 'i', 'o', 'n', ' ', 'v', 'e', 'r', 's',
                            'i', 'o', 'n',
                        ]
                    }
                },
            },
    {
        let application_name = match &self.application_name {
            Some(name) => name.clone(),
            None => {
                let parameter = text_of(
                    &['a', 'p', 'p', 'l', 'i', 'c', 'a', 't', 'i', 'o', 'n', ' ', 'n', 'a', 'm', 'e'],
                );
                return Err(InstanceInstantiationError::MissingParameter { parameter });
            },
        };
        let application_version = match self.application_version {
            Some(version) => version,
            None => {
                let parameter = text_of(
                    &[
                        'a', 'p', 'p', 'l', 'i', 'c', 'a', 't', 'i', 'o', 'n', ' ', 'v', 'e', 'r', 's',
                        'i', 'o', 'n',
                    ],
                );
                return Err(InstanceInstantiationError::MissingParameter { parameter });
            },
        };
        let mut extension_names: Vec<String> = Vec::new();
        extend_names(&mut extension_names, &self.extensions);
        assert(texts(Seq::<String>::empty()) =~= Seq::<Seq<char>>::empty());
        if self.debug_enabled {
            let ghost before = extension_names@;
            extension_names.push(
                text_of(
                    &['V', 'K', '_', 'E', 'X', 'T', '_', 'd', 'e', 'b', 'u', 'g', '_', 'u', 't', 'i', 'l', 's'],
                ),
            );
            assert(texts(extension_names@) =~= texts(before).push(debug_utils_extension()));
        }
        let mut layer_names: Vec<String> = Vec::new();
        extend_names(&mut layer_names, &self.layers);
        let vulkan_version = match self.vulkan_version {
            Some(version) => version,
            None => Version::new(1, 2, 0),
        };
        Ok(
            InstanceInfo {
                application_name,
                application_version,
                engine_name: text_of(&['s', 'k', 'y', 's', 'h', 'a', 'r', 'd']),
                engine_version: Version::new(0, 1, 0),
                vulkan_version,
                layer_names,
                extension_names,
            },
        )
    }
}

} // verus!
