//! Layered textures: the images they are built from, the number of mip
//! levels, and the resource that owns the native texture object.

use vstd::arithmetic::power2::{
    lemma2_to64, lemma_pow2_strictly_increases, lemma_pow2_unfold, pow2,
};
use vstd::prelude::*;

use crate::gl::{
    GLenum, GLuint, GlCall, CLAMP_TO_EDGE, LINEAR, R8, RED, RGB, RGB8, RGBA, RGBA16F, RGBA8, SLOTS,
    TEXTURE0, TEXTURE_2D_ARRAY, TEXTURE_MAG_FILTER, TEXTURE_MIN_FILTER, TEXTURE_WRAP_S,
    TEXTURE_WRAP_T, UNSIGNED_BYTE, UNSIGNED_SHORT,
};
use crate::opengl::{marked, no_slots, ActiveSlots, Gl, GlHandle, GlResource};

verus! {

/// How the pixels of an image are laid out: which channels, and how many
/// bits each has.
#[derive(Clone, Copy, Debug, PartialEq, Eq, Structural)]
pub enum ColorType {
    L8,
    La8,
    Rgb8,
    Rgba8,
    L16,
    La16,
    Rgb16,
    Rgba16,
    Rgb32F,
    Rgba32F,
}

/// The two names under which the driver knows a pixel layout: the format of
/// the pixels it is handed, and the format in which it stores them.
#[derive(Clone, Copy, Debug, PartialEq, Eq, Structural)]
pub struct PixelFormats {
    pub format: GLenum,
    pub internal_format: GLenum,
}

impl ColorType {
    pub open spec fn channels_spec(self) -> u8 {
        match self {
            ColorType::L8 | ColorType::L16 => 1,
            ColorType::La8 | ColorType::La16 => 2,
            ColorType::Rgb8 | ColorType::Rgb16 | ColorType::Rgb32F => 3,
            ColorType::Rgba8 | ColorType::Rgba16 | ColorType::Rgba32F => 4,
        }
    }

    /// The number of channels of a pixel.
    #[verifier::when_used_as_spec(channels_spec)]
    pub fn channels(self) -> (n: u8)
        ensures
            n == self.channels_spec(),
    {
        match self {
            ColorType::L8 | ColorType::L16 => 1,
            ColorType::La8 | ColorType::La16 => 2,
            ColorType::Rgb8 | ColorType::Rgb16 | ColorType::Rgb32F => 3,
            ColorType::Rgba8 | ColorType::Rgba16 | ColorType::Rgba32F => 4,
        }
    }

    pub open spec fn bytes_per_channel_spec(self) -> u8 {
        match self {
            ColorType::L8 | ColorType::La8 | ColorType::Rgb8 | ColorType::Rgba8 => 1,
            ColorType::L16 | ColorType::La16 | ColorType::Rgb16 | ColorType::Rgba16 => 2,
            ColorType::Rgb32F | ColorType::Rgba32F => 4,
        }
    }

    /// The number of bytes of one channel of a pixel.
    #[verifier::when_used_as_spec(bytes_per_channel_spec)]
    pub fn bytes_per_channel(self) -> (n: u8)
        ensures
            n == self.bytes_per_channel_spec(),
    {
        match self {
            ColorType::L8 | ColorType::La8 | ColorType::Rgb8 | ColorType::Rgba8 => 1,
            ColorType::L16 | ColorType::La16 | ColorType::Rgb16 | ColorType::Rgba16 => 2,
            ColorType::Rgb32F | ColorType::Rgba32F => 4,
        }
    }

    pub open spec fn formats_spec(self) -> Option<PixelFormats> {
        match self {
            ColorType::L8 => Some(PixelFormats { format: RED, internal_format: R8 }),
            ColorType::Rgb8 => Some(PixelFormats { format: RGB, internal_format: RGB8 }),
            ColorType::Rgb16 => Some(PixelFormats { format: RGB, internal_format: RGBA16F }),
            ColorType::Rgba8 => Some(PixelFormats { format: RGBA, internal_format: RGBA8 }),
            ColorType::Rgba16 => Some(PixelFormats { format: RGBA, internal_format: RGBA16F }),
            _ => None,
        }
    }

    /// The pixel format and the internal format under which the driver takes
    /// pixels of this layout, for the layouts that a texture can be built
    /// from: 8-bit gray, and 8-bit and 16-bit RGB and RGBA.
    #[verifier::when_used_as_spec(formats_spec)]
    pub fn formats(self) -> (formats: Option<PixelFormats>)
        ensures
            formats == self.formats_spec(),
    {
        match self {
            ColorType::L8 => Some(PixelFormats { format: RED, internal_format: R8 }),
            ColorType::Rgb8 => Some(PixelFormats { format: RGB, internal_format: RGB8 }),
            ColorType::Rgb16 => Some(PixelFormats { format: RGB, internal_format: RGBA16F }),
            ColorType::Rgba8 => Some(PixelFormats { format: RGBA, internal_format: RGBA8 }),
            ColorType::Rgba16 => Some(PixelFormats { format: RGBA, internal_format: RGBA16F }),
            _ => None,
        }
    }

    pub open spec fn pixel_type_spec(self) -> GLenum {
        if self.bytes_per_channel_spec() == 1 {
            UNSIGNED_BYTE
        } else {
            UNSIGNED_SHORT
        }
    }

    /// The type under which the driver reads one channel: a byte for the
    /// layouts with one byte a channel, a short for all others.
    #[verifier::when_used_as_spec(pixel_type_spec)]
    pub fn pixel_type(self) -> (pixel_type: GLenum)
        ensures
            pixel_type == self.pixel_type_spec(),
    {
        if self.bytes_per_channel() == 1 {
            UNSIGNED_BYTE
        } else {
            UNSIGNED_SHORT
        }
    }
}

/// The number of bytes that the pixels of an image take.
pub open spec fn byte_len(width: u32, height: u32, color: ColorType) -> nat {
    (width * height * color.channels_spec() * color.bytes_per_channel_spec()) as nat
}

/// What an image is to a contract.
pub struct ImageView {
    pub width: u32,
    pub height: u32,
    pub color: ColorType,
    pub data: Seq<u8>,
}

impl ImageView {
    /// The buffer holds at least the pixels that the dimensions promise.
    pub open spec fn wf(self) -> bool {
        self.data.len() >= byte_len(self.width, self.height, self.color)
    }
}

/// A decoded image: its dimensions, the layout of its pixels, and the
/// pixels themselves, row by row. The buffer is never shorter than the
/// dimensions promise.
#[derive(Debug)]
pub struct Image {
    width: u32,
    height: u32,
    color: ColorType,
    data: Vec<u8>,
}

impl View for Image {
    type V = ImageView;

    closed spec fn view(&self) -> ImageView {
        ImageView { width: self.width, height: self.height, color: self.color, data: self.data@ }
    }
}

impl Image {
    #[verifier::type_invariant]
    spec fn inv(self) -> bool {
        self@.wf()
    }

    /// Makes an image of a buffer of pixels. There is no image where the
    /// buffer is too short for the dimensions.
    pub fn new(width: u32, height: u32, color: ColorType, data: Vec<u8>) -> (image: Option<Image>)
        ensures
            image is Some <==> data@.len() >= byte_len(width, height, color),
            image matches Some(img) ==> img@ == (ImageView { width, height, color, data: data@ }),
    {
        let per_pixel: u128 = (color.channels() as u128) * (color.bytes_per_channel() as u128);
        assert(width * height <= 0xffff_ffff * 0xffff_ffff) by (nonlinear_arith)
            requires
                0 <= width <= 0xffff_ffff,
                0 <= height <= 0xffff_ffff,
        ;
        let pixels: u128 = (width as u128) * (height as u128);
        assert(pixels * per_pixel <= 0xffff_ffff * 0xffff_ffff * 16) by (nonlinear_arith)
            requires
                0 <= pixels <= 0xffff_ffff * 0xffff_ffff,
                0 <= per_pixel <= 16,
        ;
        let needed: u128 = pixels * per_pixel;
        assert(needed == byte_len(width, height, color)) by (nonlinear_arith)
            requires
                needed == (width * height) * (color.channels_spec() * color.bytes_per_channel_spec()),
                byte_len(width, height, color) == width * height * color.channels_spec()
                    * color.bytes_per_channel_spec(),
        ;
        if data.len() as u128 >= needed {
            Some(Image { width, height, color, data })
        } else {
            None
        }
    }

    pub fn width(&self) -> (width: u32)
        ensures
            width == self@.width,
    {
        self.width
    }

    pub fn height(&self) -> (height: u32)
        ensures
            height == self@.height,
    {
        self.height
    }

    pub fn dimensions(&self) -> (dimensions: (u32, u32))
        ensures
            dimensions == (self@.width, self@.height),
    {
        (self.width, self.height)
    }

    pub fn color(&self) -> (color: ColorType)
        ensures
            color == self@.color,
    {
        self.color
    }

    /// The pixels. They are at least as many bytes as the dimensions promise.
    pub fn data(&self) -> (data: &Vec<u8>)
        ensures
            data@ == self@.data,
            self@.wf(),
    {
        proof {
            use_type_invariant(self);
        }
        &self.data
    }
}

/// The whole part of the binary logarithm, and 0 for 0.
pub open spec fn log2_floor(n: nat) -> nat
    decreases n,
{
    if n <= 1 {
        0
    } else {
        1 + log2_floor(n / 2)
    }
}

/// The binary logarithm of `n` lies between `log2_floor(n)` and the next
/// whole number.
pub proof fn lemma_log2_floor_bounds(n: nat)
    requires
        n >= 1,
    ensures
        pow2(log2_floor(n)) <= n < pow2(log2_floor(n) + 1),
    decreases n,
{
    lemma2_to64();
    if n > 1 {
        lemma_log2_floor_bounds(n / 2);
        lemma_pow2_unfold(log2_floor(n));
        lemma_pow2_unfold(log2_floor(n) + 1);
    }
}

/// The whole part of the binary logarithm grows with its argument.
pub proof fn lemma_log2_floor_monotonic(m: nat, n: nat)
    requires
        m <= n,
    ensures
        log2_floor(m) <= log2_floor(n),
    decreases n,
{
    if m > 1 {
        lemma_log2_floor_monotonic(m / 2, n / 2);
    }
}

/// The number of mip levels of a texture whose layers have the given
/// dimensions: one for the image itself, and one for each time its shorter
/// side can be halved.
pub open spec fn mip_levels_spec(width: u32, height: u32) -> nat {
    1 + log2_floor(
        if width <= height {
            width as nat
        } else {
            height as nat
        },
    )
}

/// A texture never has more than 32 mip levels.
pub proof fn lemma_mip_levels_bound(width: u32, height: u32)
    ensures
        1 <= mip_levels_spec(width, height) <= 32,
{
    let m: nat = if width <= height {
        width as nat
    } else {
        height as nat
    };
    if m >= 1 {
        lemma_log2_floor_bounds(m);
        lemma2_to64();
        if log2_floor(m) > 32 {
            lemma_pow2_strictly_increases(32, log2_floor(m));
        }
    }
}

/// Computes the number of mip levels.
pub fn mip_levels(width: u32, height: u32) -> (levels: u32)
    ensures
        levels == mip_levels_spec(width, height),
{
    let shorter = if width <= height {
        width
    } else {
        height
    };
    let mut rest: u32 = shorter;
    let mut levels: u32 = 1;
    proof {
        lemma_mip_levels_bound(width, height);
    }
    while rest > 1
        invariant
            levels >= 1,
            levels + log2_floor(rest as nat) == 1 + log2_floor(shorter as nat),
            1 + log2_floor(shorter as nat) <= 32,
        decreases rest,
    {
        rest = rest / 2;
        levels = levels + 1;
    }
    levels
}

/// Whether a texture can be built from the images: there is at least one,
/// all have the dimensions and the pixel layout of the first, and that
/// layout is one the driver takes.
pub open spec fn uniform(images: Seq<Image>) -> bool {
    &&& images.len() > 0
    &&& images[0]@.color.formats_spec() is Some
    &&& forall|i: int|
        0 <= i < images.len() ==> {
            &&& (#[trigger] images[i])@.width == images[0]@.width
            &&& images[i]@.height == images[0]@.height
            &&& images[i]@.color == images[0]@.color
        }
}

/// Decides whether a texture can be built from the images.
pub fn images_uniform(images: &[Image]) -> (ok: bool)
    ensures
        ok == uniform(images@),
{
    if images.len() == 0 {
        return false;
    }
    let first = &images[0];
    if first.color().formats().is_none() {
        return false;
    }
    let mut i: usize = 1;
    while i < images.len()
        invariant
            1 <= i <= images@.len(),
            *first == images@[0],
            first@.color.formats_spec() is Some,
            forall|j: int|
                0 <= j < i ==> {
                    &&& (#[trigger] images@[j])@.width == images@[0]@.width
                    &&& images@[j]@.height == images@[0]@.height
                    &&& images@[j]@.color == images@[0]@.color
                },
        decreases images@.len() - i,
    {
        let image = &images[i];
        if image.width() != first.width() || image.height() != first.height() || image.color()
            != first.color() {
            return false;
        }
        i = i + 1;
    }
    true
}

/// The call that uploads the image at index `layer` into its layer.
pub open spec fn upload_call(images: Seq<Image>, layer: int) -> GlCall {
    GlCall::TexSubImage3D {
        target: TEXTURE_2D_ARRAY,
        layer: layer as usize,
        width: images[layer]@.width,
        height: images[layer]@.height,
        format: images[0]@.color.formats_spec().unwrap().format,
        type_: images[0]@.color.pixel_type_spec(),
    }
}

/// The calls that build a layered texture under the name `id`: storage for
/// one layer an image and for every mip level, the upload of each image into
/// its layer, linear filtering, clamping at the edges, and the mip levels
/// made from the uploaded images.
pub open spec fn create_calls(id: GLuint, images: Seq<Image>) -> Seq<GlCall> {
    seq![
        GlCall::BindTexture { target: TEXTURE_2D_ARRAY, texture: id },
        GlCall::TexStorage3D {
            target: TEXTURE_2D_ARRAY,
            levels: mip_levels_spec(images[0]@.width, images[0]@.height) as u32,
            internal_format: images[0]@.color.formats_spec().unwrap().internal_format,
            width: images[0]@.width,
            height: images[0]@.height,
            depth: images.len() as usize,
        },
    ] + Seq::new(images.len(), |layer: int| upload_call(images, layer)) + seq![
        GlCall::TexParameteri {
            target: TEXTURE_2D_ARRAY,
            pname: TEXTURE_MAG_FILTER,
            param: LINEAR,
        },
        GlCall::TexParameteri {
            target: TEXTURE_2D_ARRAY,
            pname: TEXTURE_MIN_FILTER,
            param: LINEAR,
        },
        GlCall::TexParameteri {
            target: TEXTURE_2D_ARRAY,
            pname: TEXTURE_WRAP_S,
            param: CLAMP_TO_EDGE,
        },
        GlCall::TexParameteri {
            target: TEXTURE_2D_ARRAY,
            pname: TEXTURE_WRAP_T,
            param: CLAMP_TO_EDGE,
        },
        GlCall::GenerateMipmap { target: TEXTURE_2D_ARRAY },
        GlCall::BindTexture { target: TEXTURE_2D_ARRAY, texture: 0 },
    ]
}

/// Building a texture allocates storage once, with one layer for each image
/// and with the mip levels of the images' size, and then uploads each image
/// into the layer of its index.
pub proof fn lemma_create_calls_shape(id: GLuint, images: Seq<Image>)
    requires
        images.len() > 0,
    ensures
        create_calls(id, images).len() == images.len() + 8,
        create_calls(id, images)[1] == (GlCall::TexStorage3D {
            target: TEXTURE_2D_ARRAY,
            levels: mip_levels_spec(images[0]@.width, images[0]@.height) as u32,
            internal_format: images[0]@.color.formats_spec().unwrap().internal_format,
            width: images[0]@.width,
            height: images[0]@.height,
            depth: images.len() as usize,
        }),
        forall|i: int|
            0 <= i < create_calls(id, images).len() && i != 1 ==> !(#[trigger] create_calls(
                id,
                images,
            )[i] is TexStorage3D),
        forall|layer: int|
            0 <= layer < images.len() ==> #[trigger] create_calls(id, images)[2 + layer]
                == upload_call(images, layer),
{
}

/// The calls that take a texture off the texture units `slots`, one after
/// the other: the unit is made the active one and the texture target on it
/// is bound to nothing.
pub open spec fn unbind_calls(slots: Seq<GLuint>) -> Seq<GlCall>
    decreases slots.len(),
{
    if slots.len() == 0 {
        Seq::empty()
    } else {
        unbind_calls(slots.drop_last()) + seq![
            GlCall::ActiveTexture { unit: (TEXTURE0 + slots.last()) as GLenum },
            GlCall::BindTexture { target: TEXTURE_2D_ARRAY, texture: 0 },
        ]
    }
}

/// What a texture is to a contract: the reference that it holds to the
/// function table while it is alive, the name of its native object, and the
/// texture units it is bound to.
pub struct GlTextureView {
    pub handle: Option<nat>,
    pub id: GLuint,
    pub slots: Seq<bool>,
}

/// A layered texture: one native texture object with one layer for each image
/// it was built from.
#[derive(Debug)]
pub struct GlTexture {
    gl: Option<GlHandle>,
    id: GLuint,
    active_slots: ActiveSlots,
}

impl View for GlTexture {
    type V = GlTextureView;

    closed spec fn view(&self) -> GlTextureView {
        GlTextureView {
            handle: match self.gl {
                Some(handle) => Some(handle.key()),
                None => None,
            },
            id: self.id,
            slots: self.active_slots@,
        }
    }
}

impl Default for GlTexture {
    /// A texture that is not alive: it holds no reference and no object.
    fn default() -> (texture: GlTexture)
        ensures
            texture@ == (GlTextureView { handle: None, id: 0, slots: no_slots() }),
    {
        GlTexture { gl: None, id: 0, active_slots: ActiveSlots::new() }
    }
}

impl GlTexture {
    /// Builds a texture from images of one size and layout, under the name
    /// `id` that the driver generated for it. The texture takes a reference
    /// to the function table. The calls upload the images in their order,
    /// one into each layer.
    pub fn new(gl: &mut Gl, id: GLuint, images: &[Image]) -> (created: (GlTexture, Vec<GlCall>))
        requires
            old(gl).wf(),
            old(gl).has_room(),
            uniform(images@),
        ensures
            final(gl).wf(),
            final(gl)@ == old(gl)@.acquire(),
            created.0@ == (GlTextureView {
                handle: Some(old(gl)@.issued),
                id,
                slots: no_slots(),
            }),
            created.1@ == create_calls(id, images@),
    {
        let img = &images[0];
        let formats = img.color().formats().unwrap();
        let format = formats.format;
        let internal_format = formats.internal_format;
        let pixel_type = img.color().pixel_type();
        let num_mip_map = mip_levels(img.width(), img.height());

        let mut calls: Vec<GlCall> = Vec::new();
        calls.push(GlCall::BindTexture { target: TEXTURE_2D_ARRAY, texture: id });
        calls.push(
            GlCall::TexStorage3D {
                target: TEXTURE_2D_ARRAY,
                levels: num_mip_map,
                internal_format,
                width: img.width(),
                height: img.height(),
                depth: images.len(),
            },
        );
        let ghost head = calls@;
        let mut i: usize = 0;
        while i < images.len()
            invariant
                i <= images@.len(),
                uniform(images@),
                format == images@[0]@.color.formats_spec().unwrap().format,
                pixel_type == images@[0]@.color.pixel_type_spec(),
                calls@ == head + Seq::new(i as nat, |layer: int| upload_call(images@, layer)),
            decreases images@.len() - i,
        {
            let image = &images[i];
            calls.push(
                GlCall::TexSubImage3D {
                    target: TEXTURE_2D_ARRAY,
                    layer: i,
                    width: image.width(),
                    height: image.height(),
                    format,
                    type_: pixel_type,
                },
            );
            i = i + 1;
            assert(calls@ =~= head + Seq::new(i as nat, |layer: int| upload_call(images@, layer)));
        }
        calls.push(
            GlCall::TexParameteri {
                target: TEXTURE_2D_ARRAY,
                pname: TEXTURE_MAG_FILTER,
                param: LINEAR,
            },
        );
        calls.push(
            GlCall::TexParameteri {
                target: TEXTURE_2D_ARRAY,
                pname: TEXTURE_MIN_FILTER,
                param: LINEAR,
            },
        );
        calls.push(
            GlCall::TexParameteri {
                target: TEXTURE_2D_ARRAY,
                pname: TEXTURE_WRAP_S,
                param: CLAMP_TO_EDGE,
            },
        );
        calls.push(
            GlCall::TexParameteri {
                target: TEXTURE_2D_ARRAY,
                pname: TEXTURE_WRAP_T,
                param: CLAMP_TO_EDGE,
            },
        );
        calls.push(GlCall::GenerateMipmap { target: TEXTURE_2D_ARRAY });
        calls.push(GlCall::BindTexture { target: TEXTURE_2D_ARRAY, texture: 0 });
        assert(calls@ =~= create_calls(id, images@));

        let handle = gl.acquire();
        (GlTexture { gl: Some(handle), id, active_slots: ActiveSlots::new() }, calls)
    }

    /// Binds the texture to a texture unit and remembers the unit.
    pub fn bind(&mut self, unit: GLuint) -> (calls: Vec<GlCall>)
        requires
            old(self)@.handle is Some,
            unit < SLOTS,
        ensures
            final(self)@ == (GlTextureView {
                slots: old(self)@.slots.update(unit as int, true),
                ..old(self)@
            }),
            calls@ == seq![
                GlCall::ActiveTexture { unit: (TEXTURE0 + unit) as GLenum },
                GlCall::BindTexture { target: TEXTURE_2D_ARRAY, texture: old(self)@.id },
            ],
    {
        self.active_slots.set(unit);
        vec![
            GlCall::ActiveTexture { unit: TEXTURE0 + unit },
            GlCall::BindTexture { target: TEXTURE_2D_ARRAY, texture: self.id },
        ]
    }

    /// Takes the texture off every unit that it was bound to since it was
    /// last unbound, and off no other.
    pub fn unbind(&mut self) -> (calls: Vec<GlCall>)
        requires
            old(self)@.handle is Some,
        ensures
            final(self)@ == (GlTextureView { slots: no_slots(), ..old(self)@ }),
            calls@ == unbind_calls(marked(old(self)@.slots, SLOTS as nat)),
    {
        let mut calls: Vec<GlCall> = Vec::new();
        let mut slot: GLuint = 0;
        proof {
            self.active_slots.lemma_len();
        }
        while slot < 32
            invariant
                slot <= 32,
                self.gl == old(self).gl,
                self.id == old(self).id,
                self.active_slots@.len() == 32,
                old(self).active_slots@.len() == 32,
                calls@ == unbind_calls(marked(old(self).active_slots@, slot as nat)),
                forall|i: int| 0 <= i < slot ==> !self.active_slots@[i],
                forall|i: int| slot <= i < 32 ==> self.active_slots@[i] == old(self).active_slots@[i],
            decreases 32 - slot,
        {
            if self.active_slots.get(slot) {
                calls.push(GlCall::ActiveTexture { unit: TEXTURE0 + slot });
                calls.push(GlCall::BindTexture { target: TEXTURE_2D_ARRAY, texture: 0 });
                self.active_slots.clear(slot);
            }
            proof {
                let before = marked(old(self).active_slots@, slot as nat);
                assert(before.push(slot).drop_last() =~= before);
            }
            slot = slot + 1;
            assert(calls@ =~= unbind_calls(marked(old(self).active_slots@, slot as nat)));
        }
        assert(self.active_slots@ =~= no_slots());
        calls
    }

    /// The name of the native texture object.
    pub fn id(&self) -> (id: GLuint)
        ensures
            id == self@.id,
    {
        self.id
    }
}

impl GlResource for GlTexture {
    open spec fn handle(&self) -> Option<nat> {
        self@.handle
    }

    open spec fn release_calls(&self) -> Seq<GlCall> {
        seq![GlCall::DeleteTextures { texture: self@.id }]
    }

    fn is_alive(&self) -> (alive: bool) {
        self.gl.is_some()
    }

    fn release(&mut self, gl: &mut Gl) -> (calls: Vec<GlCall>)
        ensures
            final(self)@ == (GlTextureView { handle: None, ..old(self)@ }),
    {
        match self.gl.take() {
            Some(handle) => {
                gl.release(handle);
                vec![GlCall::DeleteTextures { texture: self.id }]
            },
            None => Vec::new(),
        }
    }
}

} // verus!
