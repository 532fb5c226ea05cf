//! The driver's vocabulary: scalar types, the enumerants the library hands to
//! the driver, and the calls it asks the embedding program to issue.

use vstd::prelude::*;

verus! {

pub type GLenum = u32;

pub type GLuint = u32;

pub type GLint = i32;

pub type GLboolean = u8;

pub const NO_ERROR: GLenum = 0;

pub const FALSE: GLboolean = 0;

pub const TRUE: GLboolean = 1;

pub const TRIANGLES: GLenum = 0x0004;

pub const TRIANGLE_STRIP: GLenum = 0x0005;

pub const DEPTH_BUFFER_BIT: GLenum = 0x0100;

pub const COLOR_BUFFER_BIT: GLenum = 0x4000;

pub const SRC_ALPHA: GLenum = 0x0302;

pub const ONE_MINUS_SRC_ALPHA: GLenum = 0x0303;

pub const BACK: GLenum = 0x0405;

pub const CULL_FACE: GLenum = 0x0B44;

pub const DEPTH_TEST: GLenum = 0x0B71;

pub const BLEND: GLenum = 0x0BE2;

pub const UNSIGNED_BYTE: GLenum = 0x1401;

pub const UNSIGNED_SHORT: GLenum = 0x1403;

pub const UNSIGNED_INT: GLenum = 0x1405;

pub const FLOAT: GLenum = 0x1406;

pub const RED: GLenum = 0x1903;

pub const RGB: GLenum = 0x1907;

pub const RGBA: GLenum = 0x1908;

pub const RENDERER: GLenum = 0x1F01;

pub const VERSION: GLenum = 0x1F02;

pub const LINEAR: GLenum = 0x2601;

pub const TEXTURE_MAG_FILTER: GLenum = 0x2800;

pub const TEXTURE_MIN_FILTER: GLenum = 0x2801;

pub const TEXTURE_WRAP_S: GLenum = 0x2802;

pub const TEXTURE_WRAP_T: GLenum = 0x2803;

pub const RGB8: GLenum = 0x8051;

pub const RGBA8: GLenum = 0x8058;

pub const CLAMP_TO_EDGE: GLenum = 0x812F;

pub const R8: GLenum = 0x8229;

pub const TEXTURE0: GLenum = 0x84C0;

pub const RGBA16F: GLenum = 0x881A;

pub const STATIC_DRAW: GLenum = 0x88E4;

pub const DYNAMIC_DRAW: GLenum = 0x88E8;

pub const ARRAY_BUFFER: GLenum = 0x8892;

pub const ELEMENT_ARRAY_BUFFER: GLenum = 0x8893;

pub const UNIFORM_BUFFER: GLenum = 0x8A11;

pub const FRAGMENT_SHADER: GLenum = 0x8B30;

pub const VERTEX_SHADER: GLenum = 0x8B31;

pub const COMPILE_STATUS: GLenum = 0x8B81;

pub const SHADING_LANGUAGE_VERSION: GLenum = 0x8B8C;

pub const TEXTURE_2D_ARRAY: GLenum = 0x8C1A;

/// The number of indexed binding points that a resource keeps track of.
pub const SLOTS: usize = 32;

/// Which of the two stages of a program a shader object is.
#[derive(Clone, Copy, Debug, PartialEq, Eq, Structural)]
pub enum ShaderStage {
    Vertex,
    Fragment,
}

impl ShaderStage {
    /// The enumerant under which the driver knows the stage.
    pub open spec fn kind_spec(self) -> GLenum {
        match self {
            ShaderStage::Vertex => VERTEX_SHADER,
            ShaderStage::Fragment => FRAGMENT_SHADER,
        }
    }

    #[verifier::when_used_as_spec(kind_spec)]
    pub fn kind(self) -> (kind: GLenum)
        ensures
            kind == self.kind_spec(),
    {
        match self {
            ShaderStage::Vertex => VERTEX_SHADER,
            ShaderStage::Fragment => FRAGMENT_SHADER,
        }
    }
}

/// One call that the embedding program is asked to issue to the driver.
///
/// The fields carry the arguments that the library decides. Sizes and counts
/// are in the machine's own width; the data that a call uploads is what the
/// caller handed to the operation that asked for the call.
#[derive(Clone, Copy, Debug, PartialEq, Eq, Structural)]
pub enum GlCall {
    BindVertexArray { array: GLuint },
    DeleteVertexArrays { array: GLuint },
    BindBuffer { target: GLenum, buffer: GLuint },
    /// Allocates `size` bytes and fills them from the caller's data.
    BufferData { target: GLenum, size: usize, usage: GLenum },
    /// Overwrites `size` bytes from `offset` on with the caller's data.
    BufferSubData { target: GLenum, offset: usize, size: usize },
    BindBufferBase { target: GLenum, index: GLuint, buffer: GLuint },
    DeleteBuffers { buffer: GLuint },
    VertexAttribPointer {
        index: GLuint,
        components: GLint,
        type_: GLenum,
        normalized: GLboolean,
        stride: usize,
        offset: usize,
    },
    VertexAttribDivisor { index: GLuint, divisor: GLuint },
    EnableVertexAttribArray { index: GLuint },
    DisableVertexAttribArray { index: GLuint },
    ActiveTexture { unit: GLenum },
    BindTexture { target: GLenum, texture: GLuint },
    TexStorage3D {
        target: GLenum,
        levels: u32,
        internal_format: GLenum,
        width: u32,
        height: u32,
        depth: usize,
    },
    /// Uploads one image of the caller's set, the one at index `layer`, into
    /// that layer of mip level 0.
    TexSubImage3D {
        target: GLenum,
        layer: usize,
        width: u32,
        height: u32,
        format: GLenum,
        type_: GLenum,
    },
    TexParameteri { target: GLenum, pname: GLenum, param: GLenum },
    GenerateMipmap { target: GLenum },
    DeleteTextures { texture: GLuint },
    /// Hands the stage's source, with its terminating zero, to the shader.
    ShaderSource { shader: GLuint, stage: ShaderStage },
    CompileShader { shader: GLuint },
    AttachShader { program: GLuint, shader: GLuint },
    DetachShader { program: GLuint, shader: GLuint },
    LinkProgram { program: GLuint },
    UseProgram { program: GLuint },
    DeleteShader { shader: GLuint },
    DeleteProgram { program: GLuint },
    UniformBlockBinding { program: GLuint, index: GLuint, binding: GLuint },
    Uniform1i { location: GLint, value: GLint },
    DrawArrays { mode: GLenum, first: GLint, count: usize },
    DrawElements { mode: GLenum, count: usize, type_: GLenum },
    DrawElementsInstanced { mode: GLenum, count: usize, type_: GLenum, instances: usize },
    Enable { cap: GLenum },
    Disable { cap: GLenum },
    CullFace { mode: GLenum },
    BlendFunc { sfactor: GLenum, dfactor: GLenum },
    DepthMask { flag: GLboolean },
    Viewport { x: GLint, y: GLint, width: u32, height: u32 },
    /// The colour to clear with. Each channel is held as the bits of a
    /// single-precision number.
    ClearColor { red: u32, green: u32, blue: u32, alpha: u32 },
    /// The depth to clear with, held as the bits of a single-precision
    /// number.
    ClearDepthf { d: u32 },
    Clear { mask: GLenum },
}

} // verus!
