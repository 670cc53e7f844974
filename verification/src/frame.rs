//! What is recorded for one frame: a single render pass that clears the
//! target and draws the mesh once.

use crate::pipeline::IndexFormat;
use vstd::prelude::*;

verus! {

/// A colour with an opacity. Each channel runs from 0 to 255, where 255 is
/// full intensity.
#[derive(Debug, Clone, Copy, PartialEq, Eq, Structural)]
pub struct Color {
    pub red: u8,
    pub green: u8,
    pub blue: u8,
    pub alpha: u8,
}

/// The background of every frame: blue, fully opaque.
pub open spec fn opaque_blue() -> Color {
    Color { red: 0, green: 0, blue: 255, alpha: 255 }
}

/// What happens to the target when a pass begins.
#[derive(Debug, Clone, Copy, PartialEq, Eq, Structural)]
pub enum LoadOp {
    /// Every pixel is set to the colour.
    Clear(Color),
    /// The pixels are kept.
    Load,
}

/// What happens to the target when a pass ends.
#[derive(Debug, Clone, Copy, PartialEq, Eq, Structural)]
pub enum StoreOp {
    /// The pixels are written back.
    Store,
    /// The pixels are dropped.
    Discard,
}

/// A half-open range of indices or instances.
#[derive(Debug, Clone, Copy, PartialEq, Eq, Structural)]
pub struct Span {
    pub start: u32,
    pub end: u32,
}

impl Span {
    /// How many numbers lie in the range.
    pub open spec fn len(self) -> nat {
        if self.start <= self.end {
            (self.end - self.start) as nat
        } else {
            0
        }
    }
}

/// One command inside a render pass.
#[derive(Debug, Clone, Copy, PartialEq, Eq, Structural)]
pub enum DrawCommand {
    /// Binds the render pipeline.
    SetPipeline,
    /// Binds the whole vertex buffer at a slot.
    SetVertexBuffer { slot: u32 },
    /// Binds the whole index buffer, read at the given width.
    SetIndexBuffer { format: IndexFormat },
    /// Draws the indices of a range for the instances of a range, each index
    /// offset by `base_vertex`.
    DrawIndexed { indices: Span, base_vertex: i32, instances: Span },
}

/// A render pass on one colour target, with no depth or stencil target.
#[derive(Debug, PartialEq, Eq)]
pub struct RenderPass {
    pub load: LoadOp,
    pub store: StoreOp,
    pub commands: Vec<DrawCommand>,
}

/// A render pass as a value of mathematics.
pub struct PassView {
    pub load: LoadOp,
    pub store: StoreOp,
    pub commands: Seq<DrawCommand>,
}

impl View for RenderPass {
    type V = PassView;

    open spec fn view(&self) -> PassView {
        PassView { load: self.load, store: self.store, commands: self.commands@ }
    }
}

/// The commands of a frame that draws `index_count` indices: bind the
/// pipeline, bind the vertex buffer at slot 0, bind the index buffer with
/// indices of 32 bits, draw every index once.
pub open spec fn frame_commands(index_count: u32) -> Seq<DrawCommand> {
    seq![
        DrawCommand::SetPipeline,
        DrawCommand::SetVertexBuffer { slot: 0 },
        DrawCommand::SetIndexBuffer { format: IndexFormat::Uint32 },
        DrawCommand::DrawIndexed {
            indices: Span { start: 0, end: index_count },
            base_vertex: 0,
            instances: Span { start: 0, end: 1 },
        },
    ]
}

/// The pass of a frame that draws `index_count` indices: clear to opaque
/// blue, run the commands of the frame, keep the result.
pub open spec fn frame_pass(index_count: u32) -> PassView {
    PassView {
        load: LoadOp::Clear(opaque_blue()),
        store: StoreOp::Store,
        commands: frame_commands(index_count),
    }
}

impl RenderPass {
    /// Records the pass of a frame that draws `index_count` indices.
    pub fn record(index_count: u32) -> (pass: RenderPass)
        ensures
            pass@ == frame_pass(index_count),
    {
        let mut commands: Vec<DrawCommand> = Vec::new();
        commands.push(DrawCommand::SetPipeline);
        commands.push(DrawCommand::SetVertexBuffer { slot: 0 });
        commands.push(DrawCommand::SetIndexBuffer { format: IndexFormat::Uint32 });
        commands.push(
            DrawCommand::DrawIndexed {
                indices: Span { start: 0, end: index_count },
                base_vertex: 0,
                instances: Span { start: 0, end: 1 },
            },
        );
        assert(commands@ =~= frame_commands(index_count));
        RenderPass {
            load: LoadOp::Clear(Color { red: 0, green: 0, blue: 255, alpha: 255 }),
            store: StoreOp::Store,
            commands,
        }
    }
}

} // verus!
