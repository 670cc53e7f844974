//! The graphics context: everything that is created once, before the first
//! frame, and the one operation that records a frame.

use crate::frame::{frame_pass, opaque_blue, DrawCommand, LoadOp, PassView, RenderPass, StoreOp};
use crate::geometry::{position_words, Mesh, MeshView, POSITION_STRIDE};
use crate::pipeline::{fixed_pipeline, fixed_primitive, IndexFormat, PipelineState};
use crate::shader::{
    container_fault, module_words, starts_with_magic, ShaderBinary, ShaderError,
};
use crate::words::stored_bytes;
use vstd::prelude::*;

verus! {

/// What is asked of a device before anything is created on it.
#[derive(Debug, Clone, Copy, PartialEq, Eq, Structural)]
pub struct DeviceRequest {
    /// The device takes shader modules as SPIR-V words and hands them to the
    /// driver as they are.
    pub spirv_shader_passthrough: bool,
}

/// What a buffer on the device is for.
#[derive(Debug, Clone, Copy, PartialEq, Eq, Structural)]
pub enum BufferUsage {
    /// The vertex stage reads its inputs from the buffer.
    Vertex,
    /// An indexed draw reads its indices from the buffer.
    Index,
}

/// A buffer that is created with its contents and never written again.
#[derive(Debug, PartialEq, Eq)]
pub struct BufferInit {
    pub usage: BufferUsage,
    pub contents: Vec<u8>,
}

/// A buffer as a value of mathematics.
pub struct BufferView {
    pub usage: BufferUsage,
    pub contents: Seq<u8>,
}

impl View for BufferInit {
    type V = BufferView;

    open spec fn view(&self) -> BufferView {
        BufferView { usage: self.usage, contents: self.contents@ }
    }
}

/// Why no context could be made.
#[derive(Debug, Clone, Copy, PartialEq, Eq, Structural)]
pub enum InitError {
    /// The binary of the vertex stage was not accepted.
    VertexShader(ShaderError),
    /// The binary of the fragment stage was not accepted.
    FragmentShader(ShaderError),
}

/// What stands in the way of a context with these shader binaries, if
/// anything. The vertex stage is judged first.
pub open spec fn init_fault(vertex_spirv: Seq<u8>, fragment_spirv: Seq<u8>) -> Option<InitError> {
    match container_fault(vertex_spirv) {
        Some(fault) => Some(InitError::VertexShader(fault)),
        None => match container_fault(fragment_spirv) {
            Some(fault) => Some(InitError::FragmentShader(fault)),
            None => None,
        },
    }
}

/// The graphics context: the contents of both buffers, both shader modules
/// and the state of the pipeline. Nothing in it changes once it is made.
#[derive(Debug, PartialEq, Eq)]
pub struct App {
    vertex_buffer: BufferInit,
    index_buffer: BufferInit,
    index_count: u32,
    vertex_shader: ShaderBinary,
    fragment_shader: ShaderBinary,
    pipeline: PipelineState,
}

/// A context as a value of mathematics.
pub struct AppView {
    /// The vertex buffer.
    pub vertex_buffer: BufferView,
    /// The index buffer.
    pub index_buffer: BufferView,
    /// The number of indices that every frame draws.
    pub draw_count: u32,
    /// The words of the vertex stage.
    pub vertex_module: Seq<u32>,
    /// The words of the fragment stage.
    pub fragment_module: Seq<u32>,
    /// The state of the render pipeline.
    pub pipeline: PipelineState,
}

impl AppView {
    /// Each buffer is for what its name says; the vertex buffer holds a whole
    /// number of positions; the index buffer holds exactly the indices that a
    /// frame draws, four bytes each; both shader modules start with the magic
    /// number; the pipeline is the fixed one for its own target format.
    pub open spec fn wf(self) -> bool {
        &&& self.vertex_buffer.usage == BufferUsage::Vertex
        &&& self.vertex_buffer.contents.len() % (POSITION_STRIDE as nat) == 0
        &&& self.index_buffer.usage == BufferUsage::Index
        &&& self.index_buffer.contents.len() == 4 * self.draw_count
        &&& starts_with_magic(self.vertex_module)
        &&& starts_with_magic(self.fragment_module)
        &&& self.pipeline == fixed_pipeline(self.pipeline.target.format)
    }

    /// The pass that a frame records.
    pub open spec fn frame(self) -> PassView {
        frame_pass(self.draw_count)
    }

    /// What rendering does: the context afterwards, and the pass recorded.
    pub open spec fn rendered(self) -> (AppView, PassView) {
        (self, self.frame())
    }

    /// The context after `n` frames.
    pub open spec fn after_frames(self, n: nat) -> AppView
        decreases n,
    {
        if n == 0 {
            self
        } else {
            self.after_frames((n - 1) as nat).rendered().0
        }
    }

    /// The pass recorded for frame `k` of a run of frames, counted from 0.
    pub open spec fn nth_frame(self, k: nat) -> PassView {
        self.after_frames(k).rendered().1
    }
}

/// The context that is made of a mesh, the binaries of both shader stages
/// and the pixel format of the surface.
pub open spec fn context_of(
    mesh: MeshView,
    vertex_spirv: Seq<u8>,
    fragment_spirv: Seq<u8>,
    format: wgpu::TextureFormat,
) -> AppView
    recommends
        mesh.wf(),
        init_fault(vertex_spirv, fragment_spirv) is None,
{
    AppView {
        vertex_buffer: BufferView {
            usage: BufferUsage::Vertex,
            contents: stored_bytes(position_words(mesh.positions)),
        },
        index_buffer: BufferView { usage: BufferUsage::Index, contents: stored_bytes(mesh.indices) },
        draw_count: mesh.indices.len() as u32,
        vertex_module: module_words(vertex_spirv),
        fragment_module: module_words(fragment_spirv),
        pipeline: fixed_pipeline(format),
    }
}

impl View for App {
    type V = AppView;

    closed spec fn view(&self) -> AppView {
        AppView {
            vertex_buffer: self.vertex_buffer@,
            index_buffer: self.index_buffer@,
            draw_count: self.index_count,
            vertex_module: self.vertex_shader@,
            fragment_module: self.fragment_shader@,
            pipeline: self.pipeline,
        }
    }
}

impl App {
    #[verifier::type_invariant]
    closed spec fn inv(&self) -> bool {
        self@.wf()
    }

    /// What a device must offer for a context to be of use on it: shader
    /// modules made of SPIR-V words as they are.
    pub fn device_request() -> (request: DeviceRequest)
        ensures
            request == (DeviceRequest { spirv_shader_passthrough: true }),
    {
        DeviceRequest { spirv_shader_passthrough: true }
    }

    /// Prepares everything that the frames need: the contents of the vertex
    /// and index buffers of `mesh`, the modules of both shader stages, and
    /// the pipeline state for a target of the given format.
    ///
    /// Fails exactly when the container of a shader binary is faulty, and
    /// names the stage and the fault.
    pub fn new(
        mesh: &Mesh,
        vertex_spirv: &[u8],
        fragment_spirv: &[u8],
        format: wgpu::TextureFormat,
    ) -> (made: Result<App, InitError>)
        ensures
            match made {
                Ok(app) => {
                    &&& init_fault(vertex_spirv@, fragment_spirv@) is None
                    &&& app@ == context_of(mesh@, vertex_spirv@, fragment_spirv@, format)
                    &&& app@.wf()
                },
                Err(fault) => init_fault(vertex_spirv@, fragment_spirv@) == Some(fault),
            },
    {
        let vertex_buffer = BufferInit { usage: BufferUsage::Vertex, contents: mesh.vertex_bytes() };
        let index_buffer = BufferInit { usage: BufferUsage::Index, contents: mesh.index_bytes() };
        let index_count = mesh.index_count();
        let vertex_shader = match ShaderBinary::parse(vertex_spirv) {
            Ok(module) => module,
            Err(fault) => {
                return Err(InitError::VertexShader(fault));
            },
        };
        let fragment_shader = match ShaderBinary::parse(fragment_spirv) {
            Ok(module) => module,
            Err(fault) => {
                return Err(InitError::FragmentShader(fault));
            },
        };
        let pipeline = PipelineState::fixed(format);
        Ok(App { vertex_buffer, index_buffer, index_count, vertex_shader, fragment_shader, pipeline })
    }

    /// Records one frame: a single pass that clears the target to opaque
    /// blue, binds the pipeline and both buffers, and draws every index once.
    /// The context is left as it was.
    pub fn render(&mut self) -> (pass: RenderPass)
        ensures
            (final(self)@, pass@) == old(self)@.rendered(),
    {
        RenderPass::record(self.index_count)
    }

    /// The vertex buffer.
    pub fn vertex_buffer(&self) -> (buffer: &BufferInit)
        ensures
            buffer@ == self@.vertex_buffer,
            buffer.usage == BufferUsage::Vertex,
    {
        proof {
            use_type_invariant(self);
        }
        &self.vertex_buffer
    }

    /// The index buffer.
    pub fn index_buffer(&self) -> (buffer: &BufferInit)
        ensures
            buffer@ == self@.index_buffer,
            buffer.usage == BufferUsage::Index,
            buffer.contents@.len() == 4 * self@.draw_count,
    {
        proof {
            use_type_invariant(self);
        }
        &self.index_buffer
    }

    /// The number of indices that every frame draws.
    pub fn index_count(&self) -> (count: u32)
        ensures
            count == self@.draw_count,
    {
        self.index_count
    }

    /// The module of the vertex stage.
    pub fn vertex_shader(&self) -> (module: &ShaderBinary)
        ensures
            module@ == self@.vertex_module,
            module.wf(),
    {
        proof {
            use_type_invariant(self);
        }
        &self.vertex_shader
    }

    /// The module of the fragment stage.
    pub fn fragment_shader(&self) -> (module: &ShaderBinary)
        ensures
            module@ == self@.fragment_module,
            module.wf(),
    {
        proof {
            use_type_invariant(self);
        }
        &self.fragment_shader
    }

    /// The state of the render pipeline.
    pub fn pipeline(&self) -> (state: PipelineState)
        ensures
            state == self@.pipeline,
            state == fixed_pipeline(state.target.format),
    {
        proof {
            use_type_invariant(self);
        }
        self.pipeline
    }
}

/// A context made of a mesh is sound, and draws the whole mesh: the vertex
/// buffer holds twelve bytes for each position, the index buffer four bytes
/// for each index, and every frame draws as many indices as the mesh has.
pub proof fn lemma_context_holds_whole_mesh(
    mesh: MeshView,
    vertex_spirv: Seq<u8>,
    fragment_spirv: Seq<u8>,
    format: wgpu::TextureFormat,
)
    requires
        mesh.wf(),
        init_fault(vertex_spirv, fragment_spirv) is None,
    ensures
        context_of(mesh, vertex_spirv, fragment_spirv, format).wf(),
        context_of(mesh, vertex_spirv, fragment_spirv, format).draw_count == mesh.indices.len(),
        context_of(mesh, vertex_spirv, fragment_spirv, format).index_buffer.contents.len() == 4
            * mesh.indices.len(),
        context_of(mesh, vertex_spirv, fragment_spirv, format).vertex_buffer.contents.len()
            == POSITION_STRIDE * mesh.positions.len(),
{
}

/// Every frame of a context records the same commands in the same order: one
/// clear to opaque blue, one bind of the pipeline, one bind of the vertex
/// buffer at slot 0, one bind of the index buffer with indices of 32 bits,
/// and one indexed draw of a single instance that reads as many indices as
/// the index buffer holds.
pub proof fn lemma_frame_contents(app: AppView, k: nat)
    requires
        app.wf(),
    ensures
        app.nth_frame(k).load == LoadOp::Clear(opaque_blue()),
        app.nth_frame(k).store == StoreOp::Store,
        app.nth_frame(k).commands.len() == 4,
        app.nth_frame(k).commands[0] == DrawCommand::SetPipeline,
        app.nth_frame(k).commands[1] == (DrawCommand::SetVertexBuffer { slot: 0 }),
        app.nth_frame(k).commands[2] == (DrawCommand::SetIndexBuffer {
            format: IndexFormat::Uint32,
        }),
        match app.nth_frame(k).commands[3] {
            DrawCommand::DrawIndexed { indices, base_vertex, instances } => {
                &&& indices.start == 0
                &&& indices.len() == app.draw_count
                &&& 4 * indices.len() == app.index_buffer.contents.len()
                &&& base_vertex == 0
                &&& instances.start == 0
                &&& instances.len() == 1
            },
            _ => false,
        },
{
    lemma_render_idempotent(app, k, 0);
}

/// Rendering is idempotent: however many frames came before, the context is
/// what it was at first, and any two frames record the same pass.
pub proof fn lemma_render_idempotent(app: AppView, i: nat, j: nat)
    ensures
        app.after_frames(i) == app,
        app.nth_frame(i) == app.nth_frame(j),
    decreases i + j,
{
    if i > 0 {
        lemma_render_idempotent(app, (i - 1) as nat, j);
    } else if j > 0 {
        lemma_render_idempotent(app, i, (j - 1) as nat);
    }
}

/// A mesh without indices gives frames that still clear the target and draw
/// nothing: the index buffer is empty, and so is the range of the one draw.
pub proof fn lemma_empty_mesh_clears_only(
    mesh: MeshView,
    vertex_spirv: Seq<u8>,
    fragment_spirv: Seq<u8>,
    format: wgpu::TextureFormat,
    k: nat,
)
    requires
        mesh.wf(),
        mesh.indices.len() == 0,
        init_fault(vertex_spirv, fragment_spirv) is None,
    ensures
        ({
            let app = context_of(mesh, vertex_spirv, fragment_spirv, format);
            &&& app.nth_frame(k).load == LoadOp::Clear(opaque_blue())
            &&& app.index_buffer.contents.len() == 0
            &&& match app.nth_frame(k).commands[3] {
                DrawCommand::DrawIndexed { indices, .. } => indices.len() == 0,
                _ => false,
            }
        }),
{
    let app = context_of(mesh, vertex_spirv, fragment_spirv, format);
    lemma_context_holds_whole_mesh(mesh, vertex_spirv, fragment_spirv, format);
    lemma_frame_contents(app, k);
}

/// The fixed-function state of the pipeline is the same in every context.
/// Two contexts can differ in the pixel format of the colour target and in
/// nothing else of the pipeline: culling, winding, topology, fill mode,
/// blending, write mask, sampling, vertex layout, entry points and bindings
/// are constant.
pub proof fn lemma_pipeline_is_constant(a: AppView, b: AppView)
    requires
        a.wf(),
        b.wf(),
    ensures
        a.pipeline.primitive == fixed_primitive(),
        a.pipeline.primitive == b.pipeline.primitive,
        a.pipeline.target.blend == b.pipeline.target.blend,
        a.pipeline.target.write_mask == b.pipeline.target.write_mask,
        a.pipeline.multisample == b.pipeline.multisample,
        a.pipeline.depth_stencil == b.pipeline.depth_stencil,
        a.pipeline.vertex_buffer == b.pipeline.vertex_buffer,
        a.pipeline.vertex_entry_point == b.pipeline.vertex_entry_point,
        a.pipeline.fragment_entry_point == b.pipeline.fragment_entry_point,
        a.pipeline.layout == b.pipeline.layout,
        a.pipeline.target.format == b.pipeline.target.format ==> a.pipeline == b.pipeline,
{
}

} // verus!
