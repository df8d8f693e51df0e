use crate::swapchain::Extent;
use vstd::prelude::*;

verus! {

/// A colour by its four channels, each from 0 (none) to 255 (full).
#[derive(Clone, Copy, Debug, PartialEq, Eq, Structural)]
pub struct ClearColor {
    pub red: u8,
    pub green: u8,
    pub blue: u8,
    pub alpha: u8,
}

/// One entry of a frame's command buffer.
#[derive(Clone, Copy, Debug, PartialEq, Eq, Structural)]
pub enum Command {
    Begin,
    BeginRenderPass { framebuffer: u64, area: Extent, clear: ClearColor },
    BindPipeline,
    /// The viewport starts at the origin and spans depth 0 to 1.
    SetViewport { width: u32, height: u32 },
    /// The scissor rectangle starts at the origin.
    SetScissor { extent: Extent },
    Draw { vertex_count: u32, instance_count: u32, first_vertex: u32, first_instance: u32 },
    EndRenderPass,
    End,
}

/// The background every frame is cleared to: transparent black.
pub open spec fn background() -> ClearColor {
    ClearColor { red: 0, green: 0, blue: 0, alpha: 0 }
}

/// The commands of one frame drawn into `framebuffer`.
pub open spec fn recorded(framebuffer: u64, extent: Extent) -> Seq<Command> {
    seq![
        Command::Begin,
        Command::BeginRenderPass { framebuffer, area: extent, clear: background() },
        Command::BindPipeline,
        Command::SetViewport { width: extent.width, height: extent.height },
        Command::SetScissor { extent },
        Command::Draw { vertex_count: 4, instance_count: 1, first_vertex: 0, first_instance: 0 },
        Command::EndRenderPass,
        Command::End,
    ]
}

/// Lists what is recorded for one frame: one render pass on the framebuffer
/// of the acquired image, cleared to the background, with the pipeline
/// bound, viewport and scissor set to the chain's extent, and a single draw
/// of four vertices.
pub fn record_into_buffer(framebuffer: u64, extent: Extent) -> (out: Vec<Command>)
    ensures
        out@ == recorded(framebuffer, extent),
{
    let mut out: Vec<Command> = Vec::new();
    out.push(Command::Begin);
    out.push(
        Command::BeginRenderPass {
            framebuffer,
            area: extent,
            clear: ClearColor { red: 0, green: 0, blue: 0, alpha: 0 },
        },
    );
    out.push(Command::BindPipeline);
    out.push(Command::SetViewport { width: extent.width, height: extent.height });
    out.push(Command::SetScissor { extent });
    out.push(
        Command::Draw { vertex_count: 4, instance_count: 1, first_vertex: 0, first_instance: 0 },
    );
    out.push(Command::EndRenderPass);
    out.push(Command::End);
    out
}

} // verus!
