//! What the host's Vulkan library offers: the names of its instance
//! extensions and of its layers.

use vstd::prelude::*;

verus! {

/// Whether `name` is one of `names`.
pub open spec fn has_name(names: Seq<String>, name: Seq<char>) -> bool {
    exists|i: int| 0 <= i < names.len() && (#[trigger] names[i])@ == name
}

/// Whether every name of `wanted` is one of `names`.
pub open spec fn has_all_names(names: Seq<String>, wanted: Seq<String>) -> bool {
    forall|k: int| 0 <= k < wanted.len() ==> has_name(names, (#[trigger] wanted[k])@)
}

/// Tells whether `name` occurs in `names`.
pub fn contains_name(names: &Vec<String>, name: &String) -> (found: bool)
    ensures
        found == has_name(names@, name@),
{
    let mut i: usize = 0;
    while i < names.len()
        invariant
            i <= names.len(),
            forall|j: int| 0 <= j < i ==> (#[trigger] names@[j])@ != name@,
        decreases names.len() - i,
    {
        if names[i] == *name {
            return true;
        }
        i += 1;
    }
    false
}

/// Tells whether every name of `wanted` occurs in `names`.
pub fn contains_all_names(names: &Vec<String>, wanted: &Vec<String>) -> (all: bool)
    ensures
        all == has_all_names(names@, wanted@),
{
    let mut k: usize = 0;
    while k < wanted.len()
        invariant
            k <= wanted.len(),
            forall|j: int| 0 <= j < k ==> has_name(names@, (#[trigger] wanted@[j])@),
        decreases wanted.len() - k,
    {
        if !contains_name(names, &wanted[k]) {
            return false;
        }
        k += 1;
    }
    true
}

/// Copies a list of names.
pub fn clone_names(names: &Vec<String>) -> (copy: Vec<String>)
    ensures
        copy@ == names@,
{
    let mut copy: Vec<String> = Vec::new();
    let mut i: usize = 0;
    while i < names.len()
        invariant
            i <= names.len(),
            copy@ == names@.subrange(0, i as int),
        decreases names.len() - i,
    {
        copy.push(names[i].clone());
        proof {
            assert(names@.subrange(0, i as int).push(names@[i as int]) == names@.subrange(
                0,
                i + 1,
            ));
        }
        i += 1;
    }
    proof {
        assert(names@.subrange(0, names@.len() as int) == names@);
    }
    copy
}

/// The capabilities of the host's Vulkan library.
pub struct VulkanEntry {
    /// The names of all instance extensions that the library offers.
    pub all_available_extension_names: Vec<String>,
    /// The names of all layers that the library offers.
    pub all_available_layer_names: Vec<String>,
}

impl VulkanEntry {
    /// Records what was enumerated from the host's Vulkan library.
    pub fn init(
        all_available_extension_names: Vec<String>,
        all_available_layer_names: Vec<String>,
    ) -> (entry: Self)
        ensures
            entry.all_available_extension_names == all_available_extension_names,
            entry.all_available_layer_names == all_available_layer_names,
    {
        VulkanEntry { all_available_extension_names, all_available_layer_names }
    }

    /// Tells whether the library offers every extension of `extension_names`.
    pub fn is_extensions_supported(&self, extension_names: &Vec<String>) -> (supported: bool)
        ensures
            supported == has_all_names(self.all_available_extension_names@, extension_names@),
    {
        contains_all_names(&self.all_available_extension_names, extension_names)
    }

    /// Tells whether the library offers every layer of `layer_names`.
    pub fn is_layers_supported(&self, layer_names: &Vec<String>) -> (supported: bool)
        ensures
            supported == has_all_names(self.all_available_layer_names@, layer_names@),
    {
        contains_all_names(&self.all_available_layer_names, layer_names)
    }
}

} // verus!
