//! Shader programs: their sources, the calls that build and use them, and
//! the resource that owns the native objects.

use vstd::prelude::*;

use crate::gl::{GLenum, GLint, GLuint, GlCall, ShaderStage, UNSIGNED_INT};
use crate::opengl::{Gl, GlHandle, GlResource};

verus! {

/// The bytes of `source` followed by one zero byte.
pub open spec fn terminated(source: Seq<u8>) -> Seq<u8> {
    source.push(0u8)
}

/// Makes a C string of `source`: the same bytes and a terminating zero.
/// There is none where `source` itself holds a zero byte, since the driver
/// would take the text to end there.
pub fn null_terminated(source: &[u8]) -> (text: Option<Vec<u8>>)
    ensures
        text is Some <==> !source@.contains(0u8),
        text matches Some(bytes) ==> bytes@ == terminated(source@),
{
    let mut bytes: Vec<u8> = Vec::new();
    let mut i: usize = 0;
    while i < source.len()
        invariant
            i <= source@.len(),
            bytes@ == source@.take(i as int),
            forall|j: int| 0 <= j < i ==> source@[j] != 0u8,
        decreases source@.len() - i,
    {
        if source[i] == 0u8 {
            assert(source@.contains(0u8));
            return None;
        }
        bytes.push(source[i]);
        i = i + 1;
        assert(bytes@ =~= source@.take(i as int));
    }
    assert(source@.take(i as int) =~= source@);
    bytes.push(0u8);
    Some(bytes)
}

/// Whether the driver compiled a shader, told from the compile status it
/// answers with: zero means failure. A shader that failed to compile still
/// becomes part of its program, which then fails to link.
pub fn compiled(status: GLint) -> (ok: bool)
    ensures
        ok == (status != 0),
{
    status != 0
}

/// The calls that build a program from the sources of its two stages: each
/// stage is given its source and compiled, the vertex stage first, then both
/// are attached to the program and the program is linked.
pub open spec fn create_calls(vs: GLuint, fs: GLuint, program: GLuint) -> Seq<GlCall> {
    seq![
        GlCall::ShaderSource { shader: vs, stage: ShaderStage::Vertex },
        GlCall::CompileShader { shader: vs },
        GlCall::ShaderSource { shader: fs, stage: ShaderStage::Fragment },
        GlCall::CompileShader { shader: fs },
        GlCall::AttachShader { program, shader: vs },
        GlCall::AttachShader { program, shader: fs },
        GlCall::LinkProgram { program },
    ]
}

/// What a shader program is to a contract: the reference that it holds to
/// the function table while it is alive, and the names of its three native
/// objects.
pub struct GlShaderView {
    pub handle: Option<nat>,
    pub vs: GLuint,
    pub fs: GLuint,
    pub program: GLuint,
}

/// A program of a vertex and a fragment stage.
#[derive(Debug)]
pub struct GlShader {
    gl: Option<GlHandle>,
    vs: GLuint,
    fs: GLuint,
    program: GLuint,
}

/// A new program together with what the driver needs to build it: the two
/// sources, each with its terminating zero, and the calls to issue.
#[derive(Debug)]
pub struct ShaderBuild {
    pub shader: GlShader,
    pub vertex_source: Vec<u8>,
    pub fragment_source: Vec<u8>,
    pub calls: Vec<GlCall>,
}

impl View for GlShader {
    type V = GlShaderView;

    closed spec fn view(&self) -> GlShaderView {
        GlShaderView {
            handle: match self.gl {
                Some(handle) => Some(handle.key()),
                None => None,
            },
            vs: self.vs,
            fs: self.fs,
            program: self.program,
        }
    }
}

impl Default for GlShader {
    /// A program that is not alive: it holds no reference and no object.
    fn default() -> (shader: GlShader)
        ensures
            shader@ == (GlShaderView { handle: None, vs: 0, fs: 0, program: 0 }),
    {
        GlShader { gl: None, vs: 0, fs: 0, program: 0 }
    }
}

impl GlShader {
    /// Builds a program from the sources of its two stages, under the names
    /// `vs`, `fs` and `program` that the driver generated. The program takes
    /// a reference to the function table.
    ///
    /// The build never fails here: whether a stage compiles shows only in
    /// the status that the driver answers with, see [`compiled`], and a
    /// program with a stage that did not compile can still be bound.
    pub fn new(
        gl: &mut Gl,
        vs: GLuint,
        fs: GLuint,
        program: GLuint,
        vert: &[u8],
        frag: &[u8],
    ) -> (build: ShaderBuild)
        requires
            old(gl).wf(),
            old(gl).has_room(),
            !vert@.contains(0u8),
            !frag@.contains(0u8),
        ensures
            final(gl).wf(),
            final(gl)@ == old(gl)@.acquire(),
            build.shader@ == (GlShaderView { handle: Some(old(gl)@.issued), vs, fs, program }),
            build.vertex_source@ == terminated(vert@),
            build.fragment_source@ == terminated(frag@),
            build.calls@ == create_calls(vs, fs, program),
    {
        // ensure null termination
        let vertex_source = null_terminated(vert).unwrap();
        let fragment_source = null_terminated(frag).unwrap();
        let calls = vec![
            GlCall::ShaderSource { shader: vs, stage: ShaderStage::Vertex },
            GlCall::CompileShader { shader: vs },
            GlCall::ShaderSource { shader: fs, stage: ShaderStage::Fragment },
            GlCall::CompileShader { shader: fs },
            GlCall::AttachShader { program, shader: vs },
            GlCall::AttachShader { program, shader: fs },
            GlCall::LinkProgram { program },
        ];
        let handle = gl.acquire();
        ShaderBuild {
            shader: GlShader { gl: Some(handle), vs, fs, program },
            vertex_source,
            fragment_source,
            calls,
        }
    }

    /// Makes the program the one that draws.
    pub fn bind(&mut self) -> (calls: Vec<GlCall>)
        requires
            old(self)@.handle is Some,
        ensures
            final(self)@ == old(self)@,
            calls@ == seq![GlCall::UseProgram { program: old(self)@.program }],
    {
        vec![GlCall::UseProgram { program: self.program }]
    }

    /// Leaves no program to draw with.
    pub fn unbind(&mut self) -> (calls: Vec<GlCall>)
        requires
            old(self)@.handle is Some,
        ensures
            final(self)@ == old(self)@,
            calls@ == seq![GlCall::UseProgram { program: 0 }],
    {
        vec![GlCall::UseProgram { program: 0 }]
    }

    /// Ties a uniform block of the program to the binding point `unit`.
    /// `index` is the block's index, which the driver finds by the block's
    /// name.
    pub fn link_uniform(&mut self, unit: GLuint, index: GLuint) -> (calls: Vec<GlCall>)
        requires
            old(self)@.handle is Some,
        ensures
            final(self)@ == old(self)@,
            calls@ == seq![
                GlCall::UniformBlockBinding {
                    program: old(self)@.program,
                    index,
                    binding: unit,
                },
            ],
    {
        vec![GlCall::UniformBlockBinding { program: self.program, index, binding: unit }]
    }

    /// Ties a sampler of the program to the texture unit `unit`. `location`
    /// is the sampler's location, which the driver finds by the sampler's
    /// name.
    pub fn link_texture(&mut self, unit: GLint, location: GLint) -> (calls: Vec<GlCall>)
        requires
            old(self)@.handle is Some,
        ensures
            final(self)@ == old(self)@,
            calls@ == seq![GlCall::Uniform1i { location, value: unit }],
    {
        vec![GlCall::Uniform1i { location, value: unit }]
    }

    /// Draws `vertex_count` vertices from the start of the bound buffers.
    pub fn draw_arrays(&mut self, mode: GLenum, vertex_count: usize) -> (calls: Vec<GlCall>)
        requires
            old(self)@.handle is Some,
        ensures
            final(self)@ == old(self)@,
            calls@ == seq![GlCall::DrawArrays { mode, first: 0, count: vertex_count }],
    {
        vec![GlCall::DrawArrays { mode, first: 0, count: vertex_count }]
    }

    /// Draws `index_count` indices of the bound index buffer.
    pub fn draw_elements(&mut self, mode: GLenum, index_count: usize) -> (calls: Vec<GlCall>)
        requires
            old(self)@.handle is Some,
        ensures
            final(self)@ == old(self)@,
            calls@ == seq![GlCall::DrawElements { mode, count: index_count, type_: UNSIGNED_INT }],
    {
        vec![GlCall::DrawElements { mode, count: index_count, type_: UNSIGNED_INT }]
    }

    /// Draws `index_count` indices of the bound index buffer, once for each
    /// of `instance_count` instances.
    pub fn draw_elements_instanced(
        &mut self,
        mode: GLenum,
        index_count: usize,
        instance_count: usize,
    ) -> (calls: Vec<GlCall>)
        requires
            old(self)@.handle is Some,
        ensures
            final(self)@ == old(self)@,
            calls@ == seq![
                GlCall::DrawElementsInstanced {
                    mode,
                    count: index_count,
                    type_: UNSIGNED_INT,
                    instances: instance_count,
                },
            ],
    {
        vec![
            GlCall::DrawElementsInstanced {
                mode,
                count: index_count,
                type_: UNSIGNED_INT,
                instances: instance_count,
            },
        ]
    }

    /// The name of the native program object.
    pub fn program(&self) -> (program: GLuint)
        ensures
            program == self@.program,
    {
        self.program
    }
}

impl GlResource for GlShader {
    open spec fn handle(&self) -> Option<nat> {
        self@.handle
    }

    /// Both stages are detached from the program, then the stages and the
    /// program are deleted.
    open spec fn release_calls(&self) -> Seq<GlCall> {
        seq![
            GlCall::DetachShader { program: self@.program, shader: self@.vs },
            GlCall::DetachShader { program: self@.program, shader: self@.fs },
            GlCall::DeleteShader { shader: self@.vs },
            GlCall::DeleteShader { shader: self@.fs },
            GlCall::DeleteProgram { program: self@.program },
        ]
    }

    fn is_alive(&self) -> (alive: bool) {
        self.gl.is_some()
    }

    fn release(&mut self, gl: &mut Gl) -> (calls: Vec<GlCall>)
        ensures
            final(self)@ == (GlShaderView { handle: None, ..old(self)@ }),
    {
        match self.gl.take() {
            Some(handle) => {
                gl.release(handle);
                vec![
                    GlCall::DetachShader { program: self.program, shader: self.vs },
                    GlCall::DetachShader { program: self.program, shader: self.fs },
                    GlCall::DeleteShader { shader: self.vs },
                    GlCall::DeleteShader { shader: self.fs },
                    GlCall::DeleteProgram { program: self.program },
                ]
            },
            None => Vec::new(),
        }
    }
}

} // verus!
