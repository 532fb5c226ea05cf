//! What the consumer shares with the game loop while it runs.

use vstd::prelude::*;

use crate::gl::{
    GLuint, GlCall, BACK, BLEND, COLOR_BUFFER_BIT, CULL_FACE, DEPTH_BUFFER_BIT, DEPTH_TEST, FALSE,
    ONE_MINUS_SRC_ALPHA, SRC_ALPHA,
};
use crate::file::Files;
use crate::opengl::{Gl, GlHandle};
use crate::texture::{uniform, ColorType, GlTexture, GlTextureView, Image};

verus! {

/// The consumer's word to the game loop.
#[derive(Debug, Default)]
pub struct RawGameContext {
    request_exit: bool,
}

impl View for RawGameContext {
    type V = bool;

    /// Whether the consumer has asked for the game loop to end.
    closed spec fn view(&self) -> bool {
        self.request_exit
    }
}

impl RawGameContext {
    /// A context in which no exit was asked for.
    pub fn new() -> (ctx: RawGameContext)
        ensures
            !ctx@,
    {
        RawGameContext { request_exit: false }
    }

    pub fn request_exit(&self) -> (request_exit: bool)
        ensures
            request_exit == self@,
    {
        self.request_exit
    }

    /// The assets of the program.
    pub fn files(&self) -> Files {
        Files::new()
    }

    /// Asks for the game loop to end. The loop ends after the tick in which
    /// it was asked to.
    pub fn exit(&mut self)
        ensures
            final(self)@,
    {
        self.request_exit = true;
    }
}

//////////////////////////////////////////////////
// Graphics

/// The bits of the single-precision number 1.
pub const ONE: u32 = 0x3F80_0000;

/// The red, green, blue and alpha of the colour that a frame is cleared
/// with, each as the bits of a single-precision number: 1, 0.2, 0.3 and 1.
pub const CLEAR_COLOR: [u32; 4] = [0x3F80_0000, 0x3E4C_CCCD, 0x3E99_999A, 0x3F80_0000];

/// The calls that set up the device for drawing: back faces are culled,
/// colours are blended by their alpha, and depth is neither tested nor
/// written.
pub open spec fn setup_calls() -> Seq<GlCall> {
    seq![
        GlCall::Enable { cap: CULL_FACE },
        GlCall::CullFace { mode: BACK },
        GlCall::Enable { cap: BLEND },
        GlCall::BlendFunc { sfactor: SRC_ALPHA, dfactor: ONE_MINUS_SRC_ALPHA },
        GlCall::Disable { cap: DEPTH_TEST },
        GlCall::DepthMask { flag: FALSE },
    ]
}

/// The calls that clear colour and depth of a frame.
pub open spec fn clear_calls() -> Seq<GlCall> {
    seq![
        GlCall::ClearColor {
            red: CLEAR_COLOR[0],
            green: CLEAR_COLOR[1],
            blue: CLEAR_COLOR[2],
            alpha: CLEAR_COLOR[3],
        },
        GlCall::ClearDepthf { d: ONE },
        GlCall::Clear { mask: COLOR_BUFFER_BIT | DEPTH_BUFFER_BIT },
    ]
}

/// The calls that clear the depth of a frame.
pub open spec fn clear_depth_calls() -> Seq<GlCall> {
    seq![GlCall::ClearDepthf { d: ONE }, GlCall::Clear { mask: DEPTH_BUFFER_BIT }]
}

/// What the graphics context is to a contract: the reference that it holds
/// to the function table while the device exists, and the resolution of the
/// screen, width and height.
pub struct RawGraphicsContextView {
    pub handle: Option<nat>,
    pub resolution: (u32, u32),
}

/// The consumer's view of the device: whether it exists, and the resolution
/// of the screen.
#[derive(Debug)]
pub struct RawGraphicsContext {
    gl: Option<GlHandle>,
    resolution: (u32, u32),
}

impl View for RawGraphicsContext {
    type V = RawGraphicsContextView;

    closed spec fn view(&self) -> RawGraphicsContextView {
        RawGraphicsContextView {
            handle: match self.gl {
                Some(handle) => Some(handle.key()),
                None => None,
            },
            resolution: self.resolution,
        }
    }
}

impl Default for RawGraphicsContext {
    /// A graphics context without a device.
    fn default() -> (graphics: RawGraphicsContext)
        ensures
            graphics@ == (RawGraphicsContextView { handle: None, resolution: (0, 0) }),
    {
        RawGraphicsContext { gl: None, resolution: (0, 0) }
    }
}

/// A texture that was built from encoded images: the texture, the decoded
/// images that the calls upload, and the calls.
#[derive(Debug)]
pub struct TextureBuild {
    pub texture: GlTexture,
    pub images: Vec<Image>,
    pub calls: Vec<GlCall>,
}

/// Decodes an encoded image to RGBA with 8 bits a channel: calls
/// `image::load_from_memory`, which guesses the format, then `to_rgba8` on
/// the image. Returns width, height and the pixels of what came out, and
/// nothing where the image could not be decoded. Nothing is promised of the
/// outcome.
#[verifier::external_body]
fn decode_rgba8(buffer: &[u8]) -> (decoded: Option<(u32, u32, Vec<u8>)>) {
    match image::load_from_memory(buffer) {
        Ok(image) => {
            let rgba = image.to_rgba8();
            let (width, height) = rgba.dimensions();
            Some((width, height, rgba.into_raw()))
        },
        Err(_) => None,
    }
}

impl RawGraphicsContext {
    /// The device was created: returns the calls that set it up for
    /// drawing, see [`setup_calls`], and takes a reference to the function
    /// table, in place of the one it may hold.
    pub fn create(&mut self, gl: &mut Gl) -> (calls: Vec<GlCall>)
        requires
            old(gl).wf(),
            old(gl).has_room(),
        ensures
            final(gl).wf(),
            final(gl)@ == old(gl)@.released(old(self)@.handle).acquire(),
            final(self)@ == (RawGraphicsContextView {
                handle: Some(old(gl)@.issued),
                ..old(self)@
            }),
            calls@ == setup_calls(),
    {
        match self.gl.take() {
            Some(handle) => {
                gl.release(handle);
            },
            None => {},
        }
        self.gl = Some(gl.acquire());
        vec![
            GlCall::Enable { cap: CULL_FACE },
            GlCall::CullFace { mode: BACK },
            GlCall::Enable { cap: BLEND },
            GlCall::BlendFunc { sfactor: SRC_ALPHA, dfactor: ONE_MINUS_SRC_ALPHA },
            GlCall::Disable { cap: DEPTH_TEST },
            GlCall::DepthMask { flag: FALSE },
        ]
    }

    /// Whether the device exists.
    pub fn has_device(&self) -> (has: bool)
        ensures
            has == (self@.handle is Some),
    {
        self.gl.is_some()
    }

    /// The screen has a new size: remembers it and returns the call that
    /// makes the whole screen the viewport. The device must exist.
    pub fn resize(&mut self, width: u32, height: u32) -> (calls: Vec<GlCall>)
        requires
            old(self)@.handle is Some,
        ensures
            final(self)@ == (RawGraphicsContextView { resolution: (width, height), ..old(self)@ }),
            calls@ == seq![GlCall::Viewport { x: 0, y: 0, width, height }],
    {
        self.resolution = (width, height);
        vec![GlCall::Viewport { x: 0, y: 0, width, height }]
    }

    /// The device is destroyed: gives the reference to the function table
    /// back.
    pub fn destroy(&mut self, gl: &mut Gl)
        requires
            old(gl).wf(),
        ensures
            final(gl).wf(),
            final(gl)@ == old(gl)@.released(old(self)@.handle),
            final(self)@ == (RawGraphicsContextView { handle: None, ..old(self)@ }),
    {
        match self.gl.take() {
            Some(handle) => {
                gl.release(handle);
            },
            None => {},
        }
    }

    /// The resolution of the screen, width and height.
    pub fn resolution(&self) -> (resolution: (u32, u32))
        ensures
            resolution == self@.resolution,
    {
        self.resolution
    }

    /// The calls that clear the frame, see [`clear_calls`]. Without a
    /// device there is nothing to clear.
    pub fn clear(&mut self) -> (calls: Vec<GlCall>)
        ensures
            final(self)@ == old(self)@,
            calls@ == if old(self)@.handle is Some {
                clear_calls()
            } else {
                Seq::empty()
            },
    {
        if self.gl.is_some() {
            vec![
                GlCall::ClearColor {
                    red: CLEAR_COLOR[0],
                    green: CLEAR_COLOR[1],
                    blue: CLEAR_COLOR[2],
                    alpha: CLEAR_COLOR[3],
                },
                GlCall::ClearDepthf { d: ONE },
                GlCall::Clear { mask: COLOR_BUFFER_BIT | DEPTH_BUFFER_BIT },
            ]
        } else {
            Vec::new()
        }
    }

    /// The calls that clear the depth of the frame, see
    /// [`clear_depth_calls`]. Without a device there is nothing to clear.
    pub fn clear_depth(&mut self) -> (calls: Vec<GlCall>)
        ensures
            final(self)@ == old(self)@,
            calls@ == if old(self)@.handle is Some {
                clear_depth_calls()
            } else {
                Seq::empty()
            },
    {
        if self.gl.is_some() {
            vec![GlCall::ClearDepthf { d: ONE }, GlCall::Clear { mask: DEPTH_BUFFER_BIT }]
        } else {
            Vec::new()
        }
    }

    /// Builds a texture from decoded images, under the name `id` that the
    /// driver generated, if a texture can be built from them, see
    /// [`uniform`]. Otherwise nothing is built and nothing changes.
    pub fn texture_from_images(&self, gl: &mut Gl, id: GLuint, images: Vec<Image>) -> (build: Option<
        TextureBuild,
    >)
        requires
            old(gl).wf(),
            old(gl).has_room(),
        ensures
            final(gl).wf(),
            build is Some <==> uniform(images@),
            match build {
                Some(build) => {
                    &&& final(gl)@ == old(gl)@.acquire()
                    &&& build.images@ == images@
                    &&& build.texture@ == (GlTextureView {
                        handle: Some(old(gl)@.issued),
                        id,
                        slots: crate::opengl::no_slots(),
                    })
                    &&& build.calls@ == crate::texture::create_calls(id, images@)
                },
                None => final(gl)@ == old(gl)@,
            },
    {
        if crate::texture::images_uniform(images.as_slice()) {
            let (texture, calls) = GlTexture::new(gl, id, images.as_slice());
            Some(TextureBuild { texture, images, calls })
        } else {
            None
        }
    }

    /// Builds a texture with one layer for each of the encoded images, as
    /// RGBA with 8 bits a channel, under the name `id` that the driver
    /// generated.
    ///
    /// There is a texture only if every image can be decoded and all are of
    /// one size; without any image there is none. Otherwise nothing
    /// changes.
    pub fn create_texture(&self, gl: &mut Gl, id: GLuint, textures: &[&[u8]]) -> (build: Option<
        TextureBuild,
    >)
        requires
            old(gl).wf(),
            old(gl).has_room(),
        ensures
            final(gl).wf(),
            textures@.len() == 0 ==> build is None,
            match build {
                Some(build) => {
                    &&& final(gl)@ == old(gl)@.acquire()
                    &&& build.images@.len() == textures@.len()
                    &&& uniform(build.images@)
                    &&& build.images@[0]@.color == ColorType::Rgba8
                    &&& build.texture@ == (GlTextureView {
                        handle: Some(old(gl)@.issued),
                        id,
                        slots: crate::opengl::no_slots(),
                    })
                    &&& build.calls@ == crate::texture::create_calls(id, build.images@)
                },
                None => final(gl)@ == old(gl)@,
            },
    {
        let mut images: Vec<Image> = Vec::new();
        let mut i: usize = 0;
        while i < textures.len()
            invariant
                i <= textures@.len(),
                images@.len() == i,
                forall|j: int| 0 <= j < i ==> (#[trigger] images@[j])@.color == ColorType::Rgba8,
                *gl == *old(gl),
                gl.wf(),
            decreases textures@.len() - i,
        {
            let decoded = match decode_rgba8(textures[i]) {
                Some(decoded) => decoded,
                None => {
                    return None;
                },
            };
            let image = match Image::new(decoded.0, decoded.1, ColorType::Rgba8, decoded.2) {
                Some(image) => image,
                None => {
                    return None;
                },
            };
            images.push(image);
            i = i + 1;
        }
        self.texture_from_images(gl, id, images)
    }
}

} // verus!
