//! A model of the single rendering context the demos own: the driver's
//! shader and program objects, the one bound vertex buffer, the canvas
//! backing-buffer size, the two uniforms, the error channel, and the
//! draw calls issued so far.
//!
//! Every driver verdict (compile status, link status) reaches the model
//! as an argument, and each method's contract states exactly how the
//! session state and the returned handle follow from it.

use vstd::prelude::*;

use crate::fixed::{Color, Fixed};
use crate::geometry::rectangle_points;
use crate::geometry::rectangle_vertices;
use crate::shader::{CompileVerdict, LinkVerdict, ProgramHandle, ShaderHandle, ShaderKind};

verus! {

/// What the bound vertex buffer holds after an upload: the uploaded
/// data alone, whatever was there before.
pub open spec fn buffer_after_upload(prior: Seq<Fixed>, data: Seq<Fixed>) -> Seq<Fixed> {
    data
}

/// One shader object the driver has handed out. `live` is false once
/// the object was deleted, whether on compile failure or by an explicit
/// release after linking.
#[derive(Clone, Copy, Debug, PartialEq, Eq, Structural)]
pub struct ShaderSlot {
    pub kind: ShaderKind,
    pub live: bool,
}

/// One program object: the two shaders captured at link time, and
/// whether the object is still usable (linked and not deleted).
#[derive(Clone, Copy, Debug, PartialEq, Eq, Structural)]
pub struct ProgramSlot {
    pub vertex: usize,
    pub fragment: usize,
    pub live: bool,
}

/// One issued draw call: the first vertex and the vertex count.
#[derive(Clone, Copy, Debug, PartialEq, Eq, Structural)]
pub struct DrawCall {
    pub first: u32,
    pub count: u32,
}

/// The rendering-context state. Handles are indices into `shaders` and
/// `programs`; the driver hands them out in creation order and never
/// reuses one.
pub struct GlContext {
    pub shaders: Vec<ShaderSlot>,
    pub programs: Vec<ProgramSlot>,
    pub buffer: Vec<Fixed>,
    pub canvas_width: u32,
    pub canvas_height: u32,
    pub current_program: Option<usize>,
    pub resolution_uniform: Option<(Fixed, Fixed)>,
    pub color_uniform: Option<Color>,
    pub errors: Vec<String>,
    pub draws: Vec<DrawCall>,
}

impl GlContext {
    /// Well-formedness: a program only ever captures existing shaders
    /// of the right stages, and the program in use exists. A program is
    /// made only from shaders that compiled, so a live program is one
    /// whose link succeeded: the state a draw call demands.
    pub open spec fn wf(&self) -> bool {
        &&& forall|i: int|
            0 <= i < self.programs@.len() ==> {
                &&& (#[trigger] self.programs@[i]).vertex < self.shaders@.len()
                &&& self.programs@[i].fragment < self.shaders@.len()
                &&& self.shaders@[self.programs@[i].vertex as int].kind == ShaderKind::Vertex
                &&& self.shaders@[self.programs@[i].fragment as int].kind == ShaderKind::Fragment
            }
        &&& match self.current_program {
            Some(p) => p < self.programs@.len(),
            None => true,
        }
    }

    /// A fresh context: no objects, an empty buffer, a zero-sized
    /// canvas backing buffer, no uniforms set, nothing drawn, and an
    /// empty error channel.
    pub fn new() -> (c: GlContext)
        ensures
            c.wf(),
            c.shaders@.len() == 0,
            c.programs@.len() == 0,
            c.buffer@.len() == 0,
            c.canvas_width == 0,
            c.canvas_height == 0,
            c.current_program is None,
            c.resolution_uniform is None,
            c.color_uniform is None,
            c.errors@.len() == 0,
            c.draws@.len() == 0,
    {
        GlContext {
            shaders: Vec::new(),
            programs: Vec::new(),
            buffer: Vec::new(),
            canvas_width: 0,
            canvas_height: 0,
            current_program: None,
            resolution_uniform: None,
            color_uniform: None,
            errors: Vec::new(),
            draws: Vec::new(),
        }
    }

    /// Requests a shader object, submits `source`, asks the driver to
    /// compile it, and checks the compile status.
    ///
    /// Returns the owned handle exactly when the driver accepted the
    /// source. On rejection the driver's diagnostic goes to the error
    /// channel, the object is deleted, and no handle is produced — so a
    /// handle always names a compiled, live shader of `kind`.
    pub fn create_shader(&mut self, kind: ShaderKind, source: &str, verdict: CompileVerdict) -> (r:
        Option<ShaderHandle>)
        requires
            old(self).wf(),
        ensures
            final(self).wf(),
            final(self).shaders@.len() == old(self).shaders@.len() + 1,
            final(self).shaders@.subrange(0, old(self).shaders@.len() as int) == old(
                self,
            ).shaders@,
            final(self).shaders@.last().kind == kind,
            final(self).shaders@.last().live == verdict.is_accepted(),
            r is Some <==> verdict.is_accepted(),
            r matches Some(handle) ==> handle.id == old(self).shaders@.len(),
            verdict.is_accepted() ==> final(self).errors@ == old(self).errors@,
            verdict matches CompileVerdict::Rejected(log) ==> final(self).errors@ == old(
                self,
            ).errors@.push(log),
            verdict matches CompileVerdict::Rejected(log)
                ==> (log@.len() > 0 ==> final(self).errors@.last()@.len() > 0),
            final(self).programs@ == old(self).programs@,
            final(self).buffer@ == old(self).buffer@,
            final(self).canvas_width == old(self).canvas_width,
            final(self).canvas_height == old(self).canvas_height,
            final(self).current_program == old(self).current_program,
            final(self).resolution_uniform == old(self).resolution_uniform,
            final(self).color_uniform == old(self).color_uniform,
            final(self).draws@ == old(self).draws@,
    {
        let _ = source;
        let id = self.shaders.len();
        match verdict {
            CompileVerdict::Accepted => {
                self.shaders.push(ShaderSlot { kind, live: true });
                Some(ShaderHandle { id })
            },
            CompileVerdict::Rejected(log) => {
                // The driver's diagnostic is surfaced, then the object
                // is deleted: no dangling driver-side resource remains.
                self.errors.push(log);
                self.shaders.push(ShaderSlot { kind, live: false });
                None
            },
        }
    }

    /// Requests a program object, attaches the two compiled shaders,
    /// asks the driver to link, and checks the link status.
    ///
    /// Both inputs must already be compiled and not yet released; the
    /// routine does not re-validate them. Returns the owned handle
    /// exactly when the driver accepted the link; on rejection the
    /// diagnostic goes to the error channel and the object is deleted.
    pub fn create_program(
        &mut self,
        vertex_shader: &ShaderHandle,
        fragment_shader: &ShaderHandle,
        verdict: LinkVerdict,
    ) -> (r: Option<ProgramHandle>)
        requires
            old(self).wf(),
            vertex_shader.id < old(self).shaders@.len(),
            old(self).shaders@[vertex_shader.id as int].live,
            old(self).shaders@[vertex_shader.id as int].kind == ShaderKind::Vertex,
            fragment_shader.id < old(self).shaders@.len(),
            old(self).shaders@[fragment_shader.id as int].live,
            old(self).shaders@[fragment_shader.id as int].kind == ShaderKind::Fragment,
        ensures
            final(self).wf(),
            final(self).programs@.len() == old(self).programs@.len() + 1,
            final(self).programs@.subrange(0, old(self).programs@.len() as int) == old(
                self,
            ).programs@,
            final(self).programs@.last().vertex == vertex_shader.id,
            final(self).programs@.last().fragment == fragment_shader.id,
            final(self).programs@.last().live == verdict.is_accepted(),
            r is Some <==> verdict.is_accepted(),
            r matches Some(handle) ==> handle.id == old(self).programs@.len(),
            verdict.is_accepted() ==> final(self).errors@ == old(self).errors@,
            verdict matches LinkVerdict::Rejected(log) ==> final(self).errors@ == old(
                self,
            ).errors@.push(log),
            final(self).shaders@ == old(self).shaders@,
            final(self).buffer@ == old(self).buffer@,
            final(self).canvas_width == old(self).canvas_width,
            final(self).canvas_height == old(self).canvas_height,
            final(self).current_program == old(self).current_program,
            final(self).resolution_uniform == old(self).resolution_uniform,
            final(self).color_uniform == old(self).color_uniform,
            final(self).draws@ == old(self).draws@,
    {
        let id = self.programs.len();
        match verdict {
            LinkVerdict::Accepted => {
                self.programs.push(
                    ProgramSlot { vertex: vertex_shader.id, fragment: fragment_shader.id, live: true },
                );
                Some(ProgramHandle { id })
            },
            LinkVerdict::Rejected(log) => {
                self.errors.push(log);
                self.programs.push(
                    ProgramSlot {
                        vertex: vertex_shader.id,
                        fragment: fragment_shader.id,
                        live: false,
                    },
                );
                None
            },
        }
    }

    /// Releases a shader object. A program that captured the shader at
    /// link time stays untouched: the capture is link-time only, so
    /// releasing shaders after a successful link keeps the program
    /// usable.
    pub fn delete_shader(&mut self, shader: &ShaderHandle)
        requires
            old(self).wf(),
            shader.id < old(self).shaders@.len(),
        ensures
            final(self).wf(),
            final(self).shaders@ == old(self).shaders@.update(
                shader.id as int,
                ShaderSlot { kind: old(self).shaders@[shader.id as int].kind, live: false },
            ),
            final(self).programs@ == old(self).programs@,
            final(self).buffer@ == old(self).buffer@,
            final(self).canvas_width == old(self).canvas_width,
            final(self).canvas_height == old(self).canvas_height,
            final(self).current_program == old(self).current_program,
            final(self).resolution_uniform == old(self).resolution_uniform,
            final(self).color_uniform == old(self).color_uniform,
            final(self).errors@ == old(self).errors@,
            final(self).draws@ == old(self).draws@,
    {
        let kind = self.shaders[shader.id].kind;
        self.shaders.set(shader.id, ShaderSlot { kind, live: false });
    }

    /// Makes a linked program the one draw calls execute.
    pub fn use_program(&mut self, program: &ProgramHandle)
        requires
            old(self).wf(),
            program.id < old(self).programs@.len(),
            old(self).programs@[program.id as int].live,
        ensures
            final(self).wf(),
            final(self).current_program == Some(program.id),
            final(self).shaders@ == old(self).shaders@,
            final(self).programs@ == old(self).programs@,
            final(self).buffer@ == old(self).buffer@,
            final(self).canvas_width == old(self).canvas_width,
            final(self).canvas_height == old(self).canvas_height,
            final(self).resolution_uniform == old(self).resolution_uniform,
            final(self).color_uniform == old(self).color_uniform,
            final(self).errors@ == old(self).errors@,
            final(self).draws@ == old(self).draws@,
    {
        self.current_program = Some(program.id);
    }

    /// Uploads `data` into the bound vertex buffer, replacing whatever
    /// it held: the buffer afterwards equals `data` alone, whatever its
    /// prior contents or size.
    pub fn buffer_data(&mut self, data: Vec<Fixed>)
        requires
            old(self).wf(),
        ensures
            final(self).wf(),
            final(self).buffer@ == data@,
            final(self).buffer@ == buffer_after_upload(old(self).buffer@, data@),
            final(self).shaders@ == old(self).shaders@,
            final(self).programs@ == old(self).programs@,
            final(self).canvas_width == old(self).canvas_width,
            final(self).canvas_height == old(self).canvas_height,
            final(self).current_program == old(self).current_program,
            final(self).resolution_uniform == old(self).resolution_uniform,
            final(self).color_uniform == old(self).color_uniform,
            final(self).errors@ == old(self).errors@,
            final(self).draws@ == old(self).draws@,
    {
        self.buffer = data;
    }

    /// Overwrites the bound vertex buffer with the six points (two
    /// triangles) of the rectangle at `(x, y)` with extent
    /// `(width, height)`.
    pub fn set_rectangle(&mut self, x: u32, y: u32, width: u32, height: u32)
        requires
            old(self).wf(),
        ensures
            final(self).wf(),
            final(self).buffer@ == rectangle_points(x, y, width, height),
            final(self).shaders@ == old(self).shaders@,
            final(self).programs@ == old(self).programs@,
            final(self).canvas_width == old(self).canvas_width,
            final(self).canvas_height == old(self).canvas_height,
            final(self).current_program == old(self).current_program,
            final(self).resolution_uniform == old(self).resolution_uniform,
            final(self).color_uniform == old(self).color_uniform,
            final(self).errors@ == old(self).errors@,
            final(self).draws@ == old(self).draws@,
    {
        let vertices = rectangle_vertices(x, y, width, height);
        self.buffer_data(vertices);
    }

    /// The canvas backing-buffer size after one resize against the
    /// displayed size: if either dimension differs, the backing buffer
    /// is set to the displayed size, else it is left alone.
    pub open spec fn resized_dims(
        backing_width: u32,
        backing_height: u32,
        client_width: u32,
        client_height: u32,
    ) -> (u32, u32) {
        if backing_width != client_width || backing_height != client_height {
            (client_width, client_height)
        } else {
            (backing_width, backing_height)
        }
    }

    /// Resizes the canvas backing buffer to the displayed size where
    /// the two differ.
    pub fn resize_canvas_to_display_size(&mut self, client_width: u32, client_height: u32)
        requires
            old(self).wf(),
        ensures
            final(self).wf(),
            (final(self).canvas_width, final(self).canvas_height) == GlContext::resized_dims(
                old(self).canvas_width,
                old(self).canvas_height,
                client_width,
                client_height,
            ),
            final(self).canvas_width == client_width,
            final(self).canvas_height == client_height,
            final(self).shaders@ == old(self).shaders@,
            final(self).programs@ == old(self).programs@,
            final(self).buffer@ == old(self).buffer@,
            final(self).current_program == old(self).current_program,
            final(self).resolution_uniform == old(self).resolution_uniform,
            final(self).color_uniform == old(self).color_uniform,
            final(self).errors@ == old(self).errors@,
            final(self).draws@ == old(self).draws@,
    {
        if self.canvas_width != client_width || self.canvas_height != client_height {
            self.canvas_width = client_width;
            self.canvas_height = client_height;
        }
    }

    /// Sets the resolution uniform of the program in use.
    pub fn set_resolution_uniform(&mut self, width: Fixed, height: Fixed)
        requires
            old(self).wf(),
            old(self).current_program is Some,
        ensures
            final(self).wf(),
            final(self).resolution_uniform == Some((width, height)),
            final(self).shaders@ == old(self).shaders@,
            final(self).programs@ == old(self).programs@,
            final(self).buffer@ == old(self).buffer@,
            final(self).canvas_width == old(self).canvas_width,
            final(self).canvas_height == old(self).canvas_height,
            final(self).current_program == old(self).current_program,
            final(self).color_uniform == old(self).color_uniform,
            final(self).errors@ == old(self).errors@,
            final(self).draws@ == old(self).draws@,
    {
        self.resolution_uniform = Some((width, height));
    }

    /// Sets the color uniform of the program in use.
    pub fn set_color_uniform(&mut self, color: Color)
        requires
            old(self).wf(),
            old(self).current_program is Some,
        ensures
            final(self).wf(),
            final(self).color_uniform == Some(color),
            final(self).shaders@ == old(self).shaders@,
            final(self).programs@ == old(self).programs@,
            final(self).buffer@ == old(self).buffer@,
            final(self).canvas_width == old(self).canvas_width,
            final(self).canvas_height == old(self).canvas_height,
            final(self).current_program == old(self).current_program,
            final(self).resolution_uniform == old(self).resolution_uniform,
            final(self).errors@ == old(self).errors@,
            final(self).draws@ == old(self).draws@,
    {
        self.color_uniform = Some(color);
    }

    /// Issues one draw call of `count` vertices starting at `first`,
    /// through the live program in use. The bound buffer must hold the
    /// two scalars of every vertex drawn.
    pub fn draw_arrays(&mut self, first: u32, count: u32)
        requires
            old(self).wf(),
            old(self).current_program matches Some(p) && old(self).programs@[p as int].live,
            2 * (first as int + count as int) <= old(self).buffer@.len(),
        ensures
            final(self).wf(),
            final(self).draws@ == old(self).draws@.push(DrawCall { first, count }),
            final(self).shaders@ == old(self).shaders@,
            final(self).programs@ == old(self).programs@,
            final(self).buffer@ == old(self).buffer@,
            final(self).canvas_width == old(self).canvas_width,
            final(self).canvas_height == old(self).canvas_height,
            final(self).current_program == old(self).current_program,
            final(self).resolution_uniform == old(self).resolution_uniform,
            final(self).color_uniform == old(self).color_uniform,
            final(self).errors@ == old(self).errors@,
    {
        self.draws.push(DrawCall { first, count });
    }

    /// The whole setup pipeline: compile the vertex shader, compile the
    /// fragment shader, link the two into a program.
    ///
    /// A handle comes back exactly when the driver accepted all three
    /// requests. The first failure is terminal for the attempt: its
    /// diagnostic alone reaches the error channel, no later stage is
    /// requested — in particular, no program object is ever created
    /// when either compile fails — and no draw call occurs.
    pub fn build_program(
        &mut self,
        vertex_source: &str,
        fragment_source: &str,
        vertex_verdict: CompileVerdict,
        fragment_verdict: CompileVerdict,
        link_verdict: LinkVerdict,
    ) -> (r: Option<ProgramHandle>)
        requires
            old(self).wf(),
        ensures
            final(self).wf(),
            r is Some <==> vertex_verdict.is_accepted() && fragment_verdict.is_accepted()
                && link_verdict.is_accepted(),
            r matches Some(handle) ==> handle.id == old(self).programs@.len(),
            r is Some ==> final(self).errors@ == old(self).errors@,
            !(vertex_verdict.is_accepted() && fragment_verdict.is_accepted())
                ==> final(self).programs@ == old(self).programs@,
            vertex_verdict matches CompileVerdict::Rejected(log) ==> {
                &&& final(self).shaders@.len() == old(self).shaders@.len() + 1
                &&& final(self).errors@ == old(self).errors@.push(log)
            },
            vertex_verdict.is_accepted()
                ==> final(self).shaders@.len() == old(self).shaders@.len() + 2,
            vertex_verdict.is_accepted() ==> (fragment_verdict matches CompileVerdict::Rejected(
                log,
            ) ==> final(self).errors@ == old(self).errors@.push(log)),
            vertex_verdict.is_accepted() && fragment_verdict.is_accepted() ==> {
                &&& final(self).programs@.len() == old(self).programs@.len() + 1
                &&& final(self).programs@.last().vertex == old(self).shaders@.len()
                &&& final(self).programs@.last().fragment == old(self).shaders@.len() + 1
                &&& final(self).programs@.last().live == link_verdict.is_accepted()
                &&& (link_verdict matches LinkVerdict::Rejected(log) ==> final(self).errors@
                    == old(self).errors@.push(log))
            },
            final(self).shaders@.subrange(0, old(self).shaders@.len() as int)
                == old(self).shaders@,
            final(self).programs@.subrange(0, old(self).programs@.len() as int)
                == old(self).programs@,
            final(self).buffer@ == old(self).buffer@,
            final(self).canvas_width == old(self).canvas_width,
            final(self).canvas_height == old(self).canvas_height,
            final(self).current_program == old(self).current_program,
            final(self).resolution_uniform == old(self).resolution_uniform,
            final(self).color_uniform == old(self).color_uniform,
            final(self).draws@ == old(self).draws@,
    {
        let vertex_shader = match self.create_shader(
            ShaderKind::Vertex,
            vertex_source,
            vertex_verdict,
        ) {
            Some(handle) => handle,
            None => {
                return None;
            },
        };
        let ghost after_vertex = self.shaders@;
        let fragment_shader = match self.create_shader(
            ShaderKind::Fragment,
            fragment_source,
            fragment_verdict,
        ) {
            Some(handle) => handle,
            None => {
                return None;
            },
        };
        proof {
            // The vertex slot is untouched by the second compile: the
            // new shader list restricted to the old length is the old
            // list, and indexing that restriction reaches the slot.
            assert(self.shaders@.subrange(0, after_vertex.len() as int)[vertex_shader.id as int]
                == after_vertex[vertex_shader.id as int]);
        }
        self.create_program(&vertex_shader, &fragment_shader, link_verdict)
    }
}

/// The resize step is idempotent: a second resize against unchanged
/// displayed dimensions leaves the backing-buffer size exactly as the
/// first one did.
pub proof fn lemma_resize_idempotent(
    backing_width: u32,
    backing_height: u32,
    client_width: u32,
    client_height: u32,
)
    ensures
        ({
            let once = GlContext::resized_dims(
                backing_width,
                backing_height,
                client_width,
                client_height,
            );
            GlContext::resized_dims(once.0, once.1, client_width, client_height) == once
        }),
{
}

/// A vertex-buffer upload is a total overwrite: uploading `a` and then
/// `b` leaves the buffer equal to `b` alone, whatever `a` and the prior
/// contents were.
pub proof fn lemma_upload_total_overwrite(prior: Seq<Fixed>, a: Seq<Fixed>, b: Seq<Fixed>)
    ensures
        buffer_after_upload(buffer_after_upload(prior, a), b) == b,
{
}

} // verus!
