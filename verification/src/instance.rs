//! Creating an instance against what the window system needs.

use vstd::prelude::*;
use crate::entry::{clone_names, has_all_names, has_name, VulkanEntry};

verus! {

/// Why no instance can be created on this host.
#[derive(Clone, Copy, Debug, PartialEq, Eq, Structural)]
pub enum InstanceError {
    /// The host's library lacks an extension that the window system needs.
    ExtensionsUnsupported,
    /// The host's library lacks the validation layer.
    LayersUnsupported,
}

/// What an instance is created with.
#[derive(Debug)]
pub struct InstanceCreateInfo {
    /// The layers to enable.
    pub enabled_layer_names: Vec<String>,
    /// The instance extensions to enable.
    pub enabled_extension_names: Vec<String>,
}

/// The name of the validation layer.
pub open spec fn validation_layer() -> Seq<char> {
    "VK_LAYER_KHRONOS_validation"@
}

/// The layers that every instance of this library enables: the validation
/// layer, and nothing else.
pub open spec fn instance_layers(names: Seq<String>) -> bool {
    names.len() == 1 && names[0]@ == validation_layer()
}

/// Whether an instance can be created for a window system that needs the
/// extensions `required`: the host's library offers each of them.
pub open spec fn offers_extensions(entry: VulkanEntry, required: Seq<String>) -> bool {
    has_all_names(entry.all_available_extension_names@, required)
}

/// Whether the host's library offers the validation layer.
pub open spec fn offers_validation(entry: VulkanEntry) -> bool {
    has_name(entry.all_available_layer_names@, validation_layer())
}

/// The names of the layers that every instance enables.
pub fn instance_layer_names() -> (names: Vec<String>)
    ensures
        instance_layers(names@),
{
    let mut names: Vec<String> = Vec::new();
    names.push("VK_LAYER_KHRONOS_validation".to_owned());
    names
}

/// An instance that was created on the host's library.
#[derive(Clone, Copy, Debug, PartialEq, Eq, Structural)]
pub struct VulkanInstance {
    /// The instance's handle.
    pub instance: u64,
}

impl VulkanInstance {
    /// Describes the instance for a window system that needs the instance
    /// extensions `required_extension_names`. The host's library must offer
    /// each of them, and the validation layer; the extensions are looked at
    /// first.
    pub fn new_from_glfw(
        vulkan_entry: &VulkanEntry,
        required_extension_names: &Vec<String>,
    ) -> (result: Result<InstanceCreateInfo, InstanceError>)
        ensures
            result.is_ok() <==> offers_extensions(*vulkan_entry, required_extension_names@)
                && offers_validation(*vulkan_entry),
            result matches Ok(info) ==> instance_layers(info.enabled_layer_names@)
                && info.enabled_extension_names@ == required_extension_names@,
            result matches Err(e) ==> e == if offers_extensions(
                *vulkan_entry,
                required_extension_names@,
            ) {
                InstanceError::LayersUnsupported
            } else {
                InstanceError::ExtensionsUnsupported
            },
    {
        if !vulkan_entry.is_extensions_supported(required_extension_names) {
            return Err(InstanceError::ExtensionsUnsupported);
        }
        let layers: Vec<String> = instance_layer_names();
        let supported: bool = vulkan_entry.is_layers_supported(&layers);
        proof {
            if supported {
                assert(has_name(vulkan_entry.all_available_layer_names@, layers@[0]@));
            } else {
                let k = choose|k: int|
                    0 <= k < layers@.len() && !has_name(
                        vulkan_entry.all_available_layer_names@,
                        (#[trigger] layers@[k])@,
                    );
                assert(k == 0);
            }
        }
        if !supported {
            return Err(InstanceError::LayersUnsupported);
        }
        Ok(
            InstanceCreateInfo {
                enabled_layer_names: layers,
                enabled_extension_names: clone_names(required_extension_names),
            },
        )
    }

    /// Records the instance that was created.
    pub fn new(instance: u64) -> (created: Self)
        ensures
            created.instance == instance,
    {
        VulkanInstance { instance }
    }
}

} // verus!
