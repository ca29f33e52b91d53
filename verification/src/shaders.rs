//! Shader modules: checking a compiled shader, and binding a module to a
//! pipeline stage.

use vstd::prelude::*;
use crate::device::VulkanDevice;
use crate::vk::{collect_words, host_words};

verus! {

/// Why a shader cannot be loaded.
#[derive(Clone, Copy, Debug, PartialEq, Eq, Structural)]
pub enum ShaderError {
    /// The binary is not a whole number of 32-bit instruction words.
    CorruptedShader,
}

/// What a shader module is created with.
#[derive(Debug)]
pub struct ShaderModuleCreateInfo {
    /// The shader's instruction words.
    pub code: Vec<u32>,
}

/// The binding of one shader module to one stage of a pipeline.
#[derive(Debug)]
pub struct PipelineShaderStageCreateInfo {
    /// The stage, as a raw flag.
    pub stage: u32,
    /// The shader module's handle.
    pub module: u64,
    /// The name of the function at which the stage starts.
    pub name: String,
}

/// Whether `length` bytes are a whole number of instruction words.
pub open spec fn is_whole_words(length: nat) -> bool {
    length % 4 == 0
}

/// Whether `binding` binds `module` at the entry point that every shader of
/// this library has.
pub open spec fn binds(binding: PipelineShaderStageCreateInfo, module: VulkanShaderModule) -> bool {
    &&& binding.stage == module.shader_state
    &&& binding.module == module.shader_module
    &&& binding.name@ == "main"@
}

/// A shader module that was created on a device, and the stage that it is
/// meant for.
#[derive(Clone, Copy, Debug, PartialEq, Eq, Structural)]
pub struct VulkanShaderModule {
    /// The device that created the module, and that destroys it.
    pub logical_device: u64,
    /// The module's handle.
    pub shader_module: u64,
    /// The stage that the module is meant for, as a raw flag.
    pub shader_state: u32,
}

impl VulkanShaderModule {
    /// Checks the content of a compiled shader file and turns it into the
    /// instruction words that a module is created from. A content whose length
    /// is not a multiple of four is corrupted; any other is accepted, and its
    /// words are read in the byte order of the host.
    pub fn from_file(file_content: &[u8]) -> (result: Result<ShaderModuleCreateInfo, ShaderError>)
        ensures
            result.is_ok() <==> is_whole_words(file_content@.len()),
            result matches Err(e) ==> e == ShaderError::CorruptedShader,
            result matches Ok(info) ==> info.code@.len() * 4 == file_content@.len() && host_words(
                file_content@,
                info.code@,
            ),
    {
        if file_content.len() % 4 != 0 {
            return Err(ShaderError::CorruptedShader);
        }
        Ok(ShaderModuleCreateInfo { code: collect_words(file_content) })
    }

    /// Records the module that `vulkan_device` created for the stage
    /// `shader_state`.
    pub fn new(vulkan_device: &VulkanDevice, shader_module: u64, shader_state: u32) -> (created:
        Self)
        ensures
            created.logical_device == vulkan_device.logical_device,
            created.shader_module == shader_module,
            created.shader_state == shader_state,
    {
        VulkanShaderModule {
            logical_device: vulkan_device.logical_device,
            shader_module,
            shader_state,
        }
    }

    /// Overwrites `pipeline_shader_stage_create_info` with the binding of this
    /// module to its stage.
    pub fn set_pipeline_stage(
        &self,
        pipeline_shader_stage_create_info: &mut PipelineShaderStageCreateInfo,
    )
        ensures
            binds(*final(pipeline_shader_stage_create_info), *self),
    {
        *pipeline_shader_stage_create_info = PipelineShaderStageCreateInfo {
            stage: self.shader_state,
            module: self.shader_module,
            name: "main".to_owned(),
        };
    }
}

} // verus!
