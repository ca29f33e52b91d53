//! The one graphics pipeline of a minimal application: its programmable
//! stages, its fixed-function state, its layout and its render pass.

use vstd::prelude::*;
use crate::app::{Resource, ResourceKind};
use crate::device::VulkanDevice;
use crate::shaders::{binds, PipelineShaderStageCreateInfo, VulkanShaderModule};
use crate::swapchain::Extent2D;

verus! {

/// How vertices are assembled into primitives.
#[derive(Clone, Copy, Debug, PartialEq, Eq, Structural)]
pub enum PrimitiveTopology {
    PointList,
    LineList,
    LineStrip,
    TriangleList,
    TriangleStrip,
    TriangleFan,
}

/// How the inside of a polygon is drawn.
#[derive(Clone, Copy, Debug, PartialEq, Eq, Structural)]
pub enum PolygonMode {
    Fill,
    Line,
    Point,
}

/// Which faces are dropped.
#[derive(Clone, Copy, Debug, PartialEq, Eq, Structural)]
pub enum CullMode {
    Nothing,
    Front,
    Back,
    FrontAndBack,
}

/// Which winding makes a face a front face.
#[derive(Clone, Copy, Debug, PartialEq, Eq, Structural)]
pub enum FrontFace {
    CounterClockwise,
    Clockwise,
}

/// What happens to an attachment when a render pass begins.
#[derive(Clone, Copy, Debug, PartialEq, Eq, Structural)]
pub enum AttachmentLoadOp {
    Load,
    Clear,
    DontCare,
}

/// What happens to an attachment when a render pass ends.
#[derive(Clone, Copy, Debug, PartialEq, Eq, Structural)]
pub enum AttachmentStoreOp {
    Store,
    DontCare,
}

/// The layouts of an image that this pipeline meets.
#[derive(Clone, Copy, Debug, PartialEq, Eq, Structural)]
pub enum ImageLayout {
    Undefined,
    ColorAttachmentOptimal,
    PresentSrc,
}

/// The kind of pipeline that a subpass belongs to.
#[derive(Clone, Copy, Debug, PartialEq, Eq, Structural)]
pub enum PipelineBindPoint {
    Graphics,
    Compute,
}

/// The color channels that are written.
#[derive(Clone, Copy, Debug, PartialEq, Eq, Structural)]
pub struct ColorComponents {
    pub r: bool,
    pub g: bool,
    pub b: bool,
    pub a: bool,
}

/// A rectangle in pixels.
#[derive(Clone, Copy, Debug, PartialEq, Eq, Structural)]
pub struct Rect2D {
    pub x: i32,
    pub y: i32,
    pub extent: Extent2D,
}

/// The state of a pipeline that no shader computes.
#[derive(Clone, Copy, Debug, PartialEq, Eq, Structural)]
pub struct FixedFunctionState {
    /// The number of vertex buffer bindings.
    pub vertex_binding_count: u32,
    /// The number of vertex attributes.
    pub vertex_attribute_count: u32,
    pub topology: PrimitiveTopology,
    pub primitive_restart_enable: bool,
    pub viewport_count: u32,
    pub scissor_count: u32,
    /// Whether the viewport is supplied with each frame.
    pub dynamic_viewport: bool,
    /// Whether the scissor is supplied with each frame.
    pub dynamic_scissor: bool,
    /// The scissor that covers the whole image, for the frames to supply.
    pub full_scissor: Rect2D,
    pub depth_clamp_enable: bool,
    pub rasterizer_discard_enable: bool,
    pub polygon_mode: PolygonMode,
    pub cull_mode: CullMode,
    pub front_face: FrontFace,
    pub depth_bias_enable: bool,
    pub sample_shading_enable: bool,
    /// The number of samples per pixel.
    pub rasterization_samples: u32,
    pub logic_op_enable: bool,
    /// The number of color blend attachments, which all have the two
    /// settings that follow.
    pub color_blend_attachment_count: u32,
    pub blend_enable: bool,
    pub color_write_mask: ColorComponents,
}

/// What the pipeline layout is created with.
#[derive(Clone, Copy, Debug, PartialEq, Eq, Structural)]
pub struct PipelineLayoutCreateInfo {
    pub set_layout_count: u32,
    pub push_constant_range_count: u32,
}

/// The description of one attachment of a render pass.
#[derive(Clone, Copy, Debug, PartialEq, Eq, Structural)]
pub struct AttachmentDescription {
    /// The attachment's format, as a raw value.
    pub format: i32,
    /// The number of samples per pixel.
    pub samples: u32,
    pub load_op: AttachmentLoadOp,
    pub store_op: AttachmentStoreOp,
    pub stencil_load_op: AttachmentLoadOp,
    pub stencil_store_op: AttachmentStoreOp,
    pub initial_layout: ImageLayout,
    pub final_layout: ImageLayout,
}

/// A subpass's reference to an attachment of its render pass.
#[derive(Clone, Copy, Debug, PartialEq, Eq, Structural)]
pub struct AttachmentReference {
    /// Index of the attachment in the render pass.
    pub attachment: u32,
    /// The layout of the attachment during the subpass.
    pub layout: ImageLayout,
}

/// What the render pass is created with: one color attachment, and one
/// subpass that draws into it.
#[derive(Clone, Copy, Debug, PartialEq, Eq, Structural)]
pub struct RenderPassCreateInfo {
    pub color_attachment: AttachmentDescription,
    pub subpass_bind_point: PipelineBindPoint,
    pub subpass_color_attachment: AttachmentReference,
}

/// Everything that the pipeline and the two objects under it are created
/// with.
#[derive(Debug)]
pub struct GraphicsPipelineCreateInfo {
    /// The programmable stages, in the order of the shader modules.
    pub stages: Vec<PipelineShaderStageCreateInfo>,
    pub fixed_function: FixedFunctionState,
    pub layout: PipelineLayoutCreateInfo,
    pub render_pass: RenderPassCreateInfo,
    /// Index of the subpass in which the pipeline is used.
    pub subpass: u32,
}

/// The fixed-function state of the minimal pipeline for images of the size
/// `extent`: no vertex input, triangle lists, one viewport and one scissor
/// that the frames supply, filled polygons without their back faces, front
/// faces clockwise, no depth bias, one sample per pixel, and one color
/// attachment that is written in all four channels without blending.
pub open spec fn minimal_fixed_function(extent: Extent2D) -> FixedFunctionState {
    FixedFunctionState {
        vertex_binding_count: 0,
        vertex_attribute_count: 0,
        topology: PrimitiveTopology::TriangleList,
        primitive_restart_enable: false,
        viewport_count: 1,
        scissor_count: 1,
        dynamic_viewport: true,
        dynamic_scissor: true,
        full_scissor: Rect2D { x: 0, y: 0, extent },
        depth_clamp_enable: false,
        rasterizer_discard_enable: false,
        polygon_mode: PolygonMode::Fill,
        cull_mode: CullMode::Back,
        front_face: FrontFace::Clockwise,
        depth_bias_enable: false,
        sample_shading_enable: false,
        rasterization_samples: 1,
        logic_op_enable: false,
        color_blend_attachment_count: 1,
        blend_enable: false,
        color_write_mask: ColorComponents { r: true, g: true, b: true, a: true },
    }
}

/// The empty pipeline layout: no descriptor sets, no push constants.
pub open spec fn empty_layout() -> PipelineLayoutCreateInfo {
    PipelineLayoutCreateInfo { set_layout_count: 0, push_constant_range_count: 0 }
}

/// The render pass for images of the format `format`: its one color
/// attachment is cleared when the pass begins and stored when it ends, starts
/// in no particular layout and ends ready to be presented; its one subpass
/// draws into that attachment.
pub open spec fn presenting_render_pass(format: i32) -> RenderPassCreateInfo {
    RenderPassCreateInfo {
        color_attachment: AttachmentDescription {
            format,
            samples: 1,
            load_op: AttachmentLoadOp::Clear,
            store_op: AttachmentStoreOp::Store,
            stencil_load_op: AttachmentLoadOp::DontCare,
            stencil_store_op: AttachmentStoreOp::DontCare,
            initial_layout: ImageLayout::Undefined,
            final_layout: ImageLayout::PresentSrc,
        },
        subpass_bind_point: PipelineBindPoint::Graphics,
        subpass_color_attachment: AttachmentReference {
            attachment: 0,
            layout: ImageLayout::ColorAttachmentOptimal,
        },
    }
}

/// Whether `stages` binds the modules of `modules`, one stage per module and
/// in the same order.
pub open spec fn binds_all(
    stages: Seq<PipelineShaderStageCreateInfo>,
    modules: Seq<VulkanShaderModule>,
) -> bool {
    &&& stages.len() == modules.len()
    &&& forall|i: int| 0 <= i < modules.len() ==> binds(#[trigger] stages[i], modules[i])
}

/// The pipeline that was created on a device, with the layout and the render
/// pass under it.
#[derive(Clone, Copy, Debug, PartialEq, Eq, Structural)]
pub struct VulkanGraphicsPipeline {
    /// The device that created the three objects, and that destroys them.
    pub logical_device: u64,
    pub pipeline: u64,
    pub pipeline_layout: u64,
    pub render_pass: u64,
}

impl VulkanGraphicsPipeline {
    /// Describes the minimal pipeline that draws with `all_shader_modules`
    /// into images of the given size and format.
    pub fn new(
        swapchain_extend: Extent2D,
        swapchain_format: i32,
        all_shader_modules: &Vec<VulkanShaderModule>,
    ) -> (info: GraphicsPipelineCreateInfo)
        ensures
            binds_all(info.stages@, all_shader_modules@),
            info.fixed_function == minimal_fixed_function(swapchain_extend),
            info.layout == empty_layout(),
            info.render_pass == presenting_render_pass(swapchain_format),
            info.subpass == 0,
    {
        let mut stages: Vec<PipelineShaderStageCreateInfo> = Vec::new();
        let mut index: usize = 0;
        while index < all_shader_modules.len()
            invariant
                index <= all_shader_modules.len(),
                stages@.len() == index,
                forall|i: int| 0 <= i < index ==> binds(#[trigger] stages@[i], all_shader_modules@[i]),
            decreases all_shader_modules.len() - index,
        {
            let mut stage = PipelineShaderStageCreateInfo {
                stage: 0,
                module: 0,
                name: String::new(),
            };
            all_shader_modules[index].set_pipeline_stage(&mut stage);
            stages.push(stage);
            index += 1;
        }
        GraphicsPipelineCreateInfo {
            stages,
            fixed_function: FixedFunctionState {
                vertex_binding_count: 0,
                vertex_attribute_count: 0,
                topology: PrimitiveTopology::TriangleList,
                primitive_restart_enable: false,
                viewport_count: 1,
                scissor_count: 1,
                dynamic_viewport: true,
                dynamic_scissor: true,
                full_scissor: Rect2D { x: 0, y: 0, extent: swapchain_extend },
                depth_clamp_enable: false,
                rasterizer_discard_enable: false,
                polygon_mode: PolygonMode::Fill,
                cull_mode: CullMode::Back,
                front_face: FrontFace::Clockwise,
                depth_bias_enable: false,
                sample_shading_enable: false,
                rasterization_samples: 1,
                logic_op_enable: false,
                color_blend_attachment_count: 1,
                blend_enable: false,
                color_write_mask: ColorComponents { r: true, g: true, b: true, a: true },
            },
            layout: PipelineLayoutCreateInfo { set_layout_count: 0, push_constant_range_count: 0 },
            render_pass: RenderPassCreateInfo {
                color_attachment: AttachmentDescription {
                    format: swapchain_format,
                    samples: 1,
                    load_op: AttachmentLoadOp::Clear,
                    store_op: AttachmentStoreOp::Store,
                    stencil_load_op: AttachmentLoadOp::DontCare,
                    stencil_store_op: AttachmentStoreOp::DontCare,
                    initial_layout: ImageLayout::Undefined,
                    final_layout: ImageLayout::PresentSrc,
                },
                subpass_bind_point: PipelineBindPoint::Graphics,
                subpass_color_attachment: AttachmentReference {
                    attachment: 0,
                    layout: ImageLayout::ColorAttachmentOptimal,
                },
            },
            subpass: 0,
        }
    }

    /// Records the three objects that `vulkan_device` created.
    pub fn from_handles(
        vulkan_device: &VulkanDevice,
        render_pass: u64,
        pipeline_layout: u64,
        pipeline: u64,
    ) -> (created: Self)
        ensures
            created == (VulkanGraphicsPipeline {
                logical_device: vulkan_device.logical_device,
                pipeline,
                pipeline_layout,
                render_pass,
            }),
    {
        VulkanGraphicsPipeline {
            logical_device: vulkan_device.logical_device,
            pipeline,
            pipeline_layout,
            render_pass,
        }
    }

    /// The three objects in the order in which they are destroyed: the
    /// pipeline, then its layout, then the render pass.
    pub open spec fn destruction_order(&self) -> Seq<Resource> {
        seq![
            Resource { kind: ResourceKind::Pipeline, handle: self.pipeline },
            Resource { kind: ResourceKind::PipelineLayout, handle: self.pipeline_layout },
            Resource { kind: ResourceKind::RenderPass, handle: self.render_pass },
        ]
    }

    /// Gives up the three objects, in the order in which the caller destroys
    /// them.
    pub fn destroy(self) -> (order: Vec<Resource>)
        ensures
            order@ == self.destruction_order(),
    {
        let mut order: Vec<Resource> = Vec::new();
        order.push(Resource { kind: ResourceKind::Pipeline, handle: self.pipeline });
        order.push(Resource { kind: ResourceKind::PipelineLayout, handle: self.pipeline_layout });
        order.push(Resource { kind: ResourceKind::RenderPass, handle: self.render_pass });
        proof {
            assert(order@ =~= self.destruction_order());
        }
        order
    }
}

} // verus!
