//! Vertex arrays and buffers: the resources that own them and the calls that
//! fill, bind and delete them.

use std::marker::PhantomData;
use vstd::layout::{layout_of_primitives, layout_of_slices, size_of};
use vstd::prelude::*;

use crate::gl::{
    GLboolean, GLenum, GLint, GLuint, GlCall, ARRAY_BUFFER, ELEMENT_ARRAY_BUFFER, SLOTS,
    UNIFORM_BUFFER,
};
use crate::opengl::{marked, no_slots, ActiveSlots, Gl, GlHandle, GlResource};

verus! {

/// The calls that allocate the buffer `id` at `target` and fill it with
/// `size` bytes of the caller's data.
pub open spec fn create_calls(target: GLenum, id: GLuint, size: usize, usage: GLenum) -> Seq<
    GlCall,
> {
    seq![
        GlCall::BindBuffer { target, buffer: id },
        GlCall::BufferData { target, size, usage },
        GlCall::BindBuffer { target, buffer: 0 },
    ]
}

/// The calls that overwrite the first `size` bytes of the buffer `id` at
/// `target` with the caller's data.
pub open spec fn update_calls(target: GLenum, id: GLuint, size: usize) -> Seq<GlCall> {
    seq![
        GlCall::BindBuffer { target, buffer: id },
        GlCall::BufferSubData { target, offset: 0, size },
        GlCall::BindBuffer { target, buffer: 0 },
    ]
}

fn create(target: GLenum, id: GLuint, size: usize, usage: GLenum) -> (calls: Vec<GlCall>)
    ensures
        calls@ == create_calls(target, id, size, usage),
{
    vec![
        GlCall::BindBuffer { target, buffer: id },
        GlCall::BufferData { target, size, usage },
        GlCall::BindBuffer { target, buffer: 0 },
    ]
}

fn update(target: GLenum, id: GLuint, size: usize) -> (calls: Vec<GlCall>)
    ensures
        calls@ == update_calls(target, id, size),
{
    vec![
        GlCall::BindBuffer { target, buffer: id },
        GlCall::BufferSubData { target, offset: 0, size },
        GlCall::BindBuffer { target, buffer: 0 },
    ]
}

spec fn key_of(gl: Option<GlHandle>) -> Option<nat> {
    match gl {
        Some(handle) => Some(handle.key()),
        None => None,
    }
}

//////////////////////////////////////////////////
// Vertex Array Object

/// The calls that switch off the vertex attributes `slots`, one after the
/// other: the attribute's divisor is set back to zero and the attribute is
/// disabled.
pub open spec fn clear_attrib_calls(slots: Seq<GLuint>) -> Seq<GlCall>
    decreases slots.len(),
{
    if slots.len() == 0 {
        Seq::empty()
    } else {
        clear_attrib_calls(slots.drop_last()) + seq![
            GlCall::VertexAttribDivisor { index: slots.last(), divisor: 0 },
            GlCall::DisableVertexAttribArray { index: slots.last() },
        ]
    }
}

/// What a vertex array is to a contract: the reference that it holds to the
/// function table while it is alive, the name of its native object, and the
/// vertex attributes that it has switched on.
pub struct GlVertexArrayObjectView {
    pub handle: Option<nat>,
    pub id: GLuint,
    pub slots: Seq<bool>,
}

/// A vertex array: the ties between vertex attributes and the buffers that
/// feed them.
#[derive(Debug)]
pub struct GlVertexArrayObject {
    gl: Option<GlHandle>,
    id: GLuint,
    active_slots: ActiveSlots,
}

impl View for GlVertexArrayObject {
    type V = GlVertexArrayObjectView;

    closed spec fn view(&self) -> GlVertexArrayObjectView {
        GlVertexArrayObjectView {
            handle: key_of(self.gl),
            id: self.id,
            slots: self.active_slots@,
        }
    }
}

impl Default for GlVertexArrayObject {
    /// A vertex array that is not alive.
    fn default() -> (vao: GlVertexArrayObject)
        ensures
            vao@ == (GlVertexArrayObjectView { handle: None, id: 0, slots: no_slots() }),
    {
        GlVertexArrayObject { gl: None, id: 0, active_slots: ActiveSlots::new() }
    }
}

impl GlVertexArrayObject {
    /// Takes charge of the vertex array that the driver generated under the
    /// name `id`. The vertex array takes a reference to the function table.
    pub fn new(gl: &mut Gl, id: GLuint) -> (vao: GlVertexArrayObject)
        requires
            old(gl).wf(),
            old(gl).has_room(),
        ensures
            final(gl).wf(),
            final(gl)@ == old(gl)@.acquire(),
            vao@ == (GlVertexArrayObjectView {
                handle: Some(old(gl)@.issued),
                id,
                slots: no_slots(),
            }),
    {
        let handle = gl.acquire();
        GlVertexArrayObject { gl: Some(handle), id, active_slots: ActiveSlots::new() }
    }

    pub fn bind(&mut self) -> (calls: Vec<GlCall>)
        requires
            old(self)@.handle is Some,
        ensures
            final(self)@ == old(self)@,
            calls@ == seq![GlCall::BindVertexArray { array: old(self)@.id }],
    {
        vec![GlCall::BindVertexArray { array: self.id }]
    }

    pub fn unbind(&mut self) -> (calls: Vec<GlCall>)
        requires
            old(self)@.handle is Some,
        ensures
            final(self)@ == old(self)@,
            calls@ == seq![GlCall::BindVertexArray { array: 0 }],
    {
        vec![GlCall::BindVertexArray { array: 0 }]
    }

    /// Feeds the vertex attribute `slot` from a vertex buffer, switches the
    /// attribute on and remembers it.
    pub fn bind_attrib<T>(
        &mut self,
        vbo: &GlVertexBuffer<T>,
        slot: GLuint,
        count: GLint,
        type_: GLenum,
        normalized: GLboolean,
        offset: usize,
        stride: usize,
        divisor: GLuint,
    ) -> (calls: Vec<GlCall>)
        requires
            old(self)@.handle is Some,
            slot < SLOTS,
        ensures
            final(self)@ == (GlVertexArrayObjectView {
                slots: old(self)@.slots.update(slot as int, true),
                ..old(self)@
            }),
            calls@ == seq![
                GlCall::BindBuffer { target: ARRAY_BUFFER, buffer: vbo@.id },
                GlCall::VertexAttribPointer {
                    index: slot,
                    components: count,
                    type_,
                    normalized,
                    stride,
                    offset,
                },
                GlCall::VertexAttribDivisor { index: slot, divisor },
                GlCall::EnableVertexAttribArray { index: slot },
                GlCall::BindBuffer { target: ARRAY_BUFFER, buffer: 0 },
            ],
    {
        self.active_slots.set(slot);
        vec![
            GlCall::BindBuffer { target: ARRAY_BUFFER, buffer: vbo.id() },
            GlCall::VertexAttribPointer {
                index: slot,
                components: count,
                type_,
                normalized,
                stride,
                offset,
            },
            GlCall::VertexAttribDivisor { index: slot, divisor },
            GlCall::EnableVertexAttribArray { index: slot },
            GlCall::BindBuffer { target: ARRAY_BUFFER, buffer: 0 },
        ]
    }

    /// Switches off every vertex attribute that was switched on since the
    /// attributes were last cleared, and no other.
    pub fn clear_attribs(&mut self) -> (calls: Vec<GlCall>)
        requires
            old(self)@.handle is Some,
        ensures
            final(self)@ == (GlVertexArrayObjectView { slots: no_slots(), ..old(self)@ }),
            calls@ == clear_attrib_calls(marked(old(self)@.slots, SLOTS as nat)),
    {
        let mut calls: Vec<GlCall> = Vec::new();
        let mut slot: GLuint = 0;
        proof {
            self.active_slots.lemma_len();
        }
        while slot < 32
            invariant
                slot <= 32,
                self.gl == old(self).gl,
                self.id == old(self).id,
                self.active_slots@.len() == 32,
                old(self).active_slots@.len() == 32,
                calls@ == clear_attrib_calls(marked(old(self).active_slots@, slot as nat)),
                forall|i: int| 0 <= i < slot ==> !self.active_slots@[i],
                forall|i: int| slot <= i < 32 ==> self.active_slots@[i] == old(self).active_slots@[i],
            decreases 32 - slot,
        {
            if self.active_slots.get(slot) {
                calls.push(GlCall::VertexAttribDivisor { index: slot, divisor: 0 });
                calls.push(GlCall::DisableVertexAttribArray { index: slot });
                self.active_slots.clear(slot);
            }
            proof {
                let before = marked(old(self).active_slots@, slot as nat);
                assert(before.push(slot).drop_last() =~= before);
            }
            slot = slot + 1;
            assert(calls@ =~= clear_attrib_calls(marked(old(self).active_slots@, slot as nat)));
        }
        assert(self.active_slots@ =~= no_slots());
        calls
    }

    /// The name of the native vertex array object.
    pub fn id(&self) -> (id: GLuint)
        ensures
            id == self@.id,
    {
        self.id
    }
}

impl GlResource for GlVertexArrayObject {
    open spec fn handle(&self) -> Option<nat> {
        self@.handle
    }

    open spec fn release_calls(&self) -> Seq<GlCall> {
        seq![GlCall::DeleteVertexArrays { array: self@.id }]
    }

    fn is_alive(&self) -> (alive: bool) {
        self.gl.is_some()
    }

    fn release(&mut self, gl: &mut Gl) -> (calls: Vec<GlCall>)
        ensures
            final(self)@ == (GlVertexArrayObjectView { handle: None, ..old(self)@ }),
    {
        match self.gl.take() {
            Some(handle) => {
                gl.release(handle);
                vec![GlCall::DeleteVertexArrays { array: self.id }]
            },
            None => Vec::new(),
        }
    }
}

//////////////////////////////////////////////////
// Vertex Buffer

/// What a buffer of elements is to a contract: the reference that it holds
/// to the function table while it is alive, the name of its native object,
/// the number of elements that it holds and the number that it has room for.
pub struct GlBufferView {
    pub handle: Option<nat>,
    pub id: GLuint,
    pub count: usize,
    pub max_count: usize,
}

impl GlBufferView {
    /// A buffer never holds more than it has room for.
    pub open spec fn wf(self) -> bool {
        self.count <= self.max_count
    }
}

/// A buffer of vertices of type `T`. Its room is fixed when it is created.
#[derive(Debug)]
pub struct GlVertexBuffer<T> {
    gl: Option<GlHandle>,
    id: GLuint,
    count: usize,
    max_count: usize,
    phantom: PhantomData<T>,
}

impl<T> View for GlVertexBuffer<T> {
    type V = GlBufferView;

    closed spec fn view(&self) -> GlBufferView {
        GlBufferView {
            handle: key_of(self.gl),
            id: self.id,
            count: self.count,
            max_count: self.max_count,
        }
    }
}

impl<T> Default for GlVertexBuffer<T> {
    /// A vertex buffer that is not alive.
    fn default() -> (vbo: GlVertexBuffer<T>)
        ensures
            vbo@ == (GlBufferView { handle: None, id: 0, count: 0, max_count: 0 }),
    {
        GlVertexBuffer { gl: None, id: 0, count: 0, max_count: 0, phantom: PhantomData }
    }
}

impl<T> GlVertexBuffer<T> {
    #[verifier::type_invariant]
    spec fn inv(self) -> bool {
        self@.wf()
    }

    /// Fills the buffer that the driver generated under the name `id` with
    /// `data`. The buffer has room for as many elements as `data` has, and
    /// takes a reference to the function table.
    pub fn new(gl: &mut Gl, id: GLuint, usage: GLenum, data: &[T]) -> (created: (
        GlVertexBuffer<T>,
        Vec<GlCall>,
    ))
        requires
            old(gl).wf(),
            old(gl).has_room(),
        ensures
            final(gl).wf(),
            final(gl)@ == old(gl)@.acquire(),
            created.0@ == (GlBufferView {
                handle: Some(old(gl)@.issued),
                id,
                count: data@.len() as usize,
                max_count: data@.len() as usize,
            }),
            created.1@ == create_calls(
                ARRAY_BUFFER,
                id,
                (data@.len() * size_of::<T>()) as usize,
                usage,
            ),
    {
        broadcast use layout_of_slices;

        let calls = create(ARRAY_BUFFER, id, core::mem::size_of_val(data), usage);
        let count = data.len();
        let max_count = data.len();
        let handle = gl.acquire();
        (GlVertexBuffer { gl: Some(handle), id, count, max_count, phantom: PhantomData }, calls)
    }

    /// Overwrites the start of the buffer with `data`, which must fit into
    /// the buffer's room: a buffer does not grow.
    pub fn update(&mut self, data: &[T]) -> (calls: Vec<GlCall>)
        requires
            old(self)@.handle is Some,
            data@.len() <= old(self)@.max_count,
        ensures
            final(self)@ == (GlBufferView { count: data@.len() as usize, ..old(self)@ }),
            calls@ == update_calls(
                ARRAY_BUFFER,
                old(self)@.id,
                (data@.len() * size_of::<T>()) as usize,
            ),
    {
        broadcast use layout_of_slices;

        proof {
            use_type_invariant(&*self);
        }
        let calls = update(ARRAY_BUFFER, self.id, core::mem::size_of_val(data));
        self.count = data.len();
        calls
    }

    /// The number of elements that the buffer holds.
    pub fn count(&self) -> (count: usize)
        ensures
            count == self@.count,
            count <= self@.max_count,
    {
        proof {
            use_type_invariant(self);
        }
        self.count
    }

    /// The number of elements that the buffer has room for.
    pub fn max_count(&self) -> (max_count: usize)
        ensures
            max_count == self@.max_count,
    {
        self.max_count
    }

    /// The name of the native buffer object.
    pub fn id(&self) -> (id: GLuint)
        ensures
            id == self@.id,
    {
        self.id
    }
}

impl<T> GlResource for GlVertexBuffer<T> {
    open spec fn handle(&self) -> Option<nat> {
        self@.handle
    }

    open spec fn release_calls(&self) -> Seq<GlCall> {
        seq![GlCall::DeleteBuffers { buffer: self@.id }]
    }

    fn is_alive(&self) -> (alive: bool) {
        self.gl.is_some()
    }

    fn release(&mut self, gl: &mut Gl) -> (calls: Vec<GlCall>)
        ensures
            final(self)@ == (GlBufferView { handle: None, ..old(self)@ }),
    {
        proof {
            use_type_invariant(&*self);
        }
        let mut released = GlVertexBuffer::default();
        core::mem::swap(self, &mut released);
        let GlVertexBuffer { gl: held, id, count, max_count, phantom } = released;
        *self = GlVertexBuffer { gl: None, id, count, max_count, phantom };
        match held {
            Some(handle) => {
                gl.release(handle);
                vec![GlCall::DeleteBuffers { buffer: id }]
            },
            None => Vec::new(),
        }
    }
}

//////////////////////////////////////////////////
// Index Buffer

/// A buffer of 32-bit indices. Its room is fixed when it is created.
#[derive(Debug)]
pub struct GlIndexBuffer {
    gl: Option<GlHandle>,
    id: GLuint,
    count: usize,
    max_count: usize,
}

impl View for GlIndexBuffer {
    type V = GlBufferView;

    closed spec fn view(&self) -> GlBufferView {
        GlBufferView {
            handle: key_of(self.gl),
            id: self.id,
            count: self.count,
            max_count: self.max_count,
        }
    }
}

impl Default for GlIndexBuffer {
    /// An index buffer that is not alive.
    fn default() -> (ibo: GlIndexBuffer)
        ensures
            ibo@ == (GlBufferView { handle: None, id: 0, count: 0, max_count: 0 }),
    {
        GlIndexBuffer { gl: None, id: 0, count: 0, max_count: 0 }
    }
}

impl GlIndexBuffer {
    #[verifier::type_invariant]
    spec fn inv(self) -> bool {
        self@.wf()
    }

    /// Fills the buffer that the driver generated under the name `id` with
    /// `indices`. The buffer has room for as many indices as it is given,
    /// and takes a reference to the function table.
    pub fn new(gl: &mut Gl, id: GLuint, usage: GLenum, indices: &[u32]) -> (created: (
        GlIndexBuffer,
        Vec<GlCall>,
    ))
        requires
            old(gl).wf(),
            old(gl).has_room(),
        ensures
            final(gl).wf(),
            final(gl)@ == old(gl)@.acquire(),
            created.0@ == (GlBufferView {
                handle: Some(old(gl)@.issued),
                id,
                count: indices@.len() as usize,
                max_count: indices@.len() as usize,
            }),
            created.1@ == create_calls(
                ELEMENT_ARRAY_BUFFER,
                id,
                (indices@.len() * 4) as usize,
                usage,
            ),
    {
        broadcast use layout_of_slices, layout_of_primitives;

        let calls = create(ELEMENT_ARRAY_BUFFER, id, core::mem::size_of_val(indices), usage);
        let count = indices.len();
        let max_count = indices.len();
        let handle = gl.acquire();
        (GlIndexBuffer { gl: Some(handle), id, count, max_count }, calls)
    }

    pub fn bind(&mut self) -> (calls: Vec<GlCall>)
        requires
            old(self)@.handle is Some,
        ensures
            final(self)@ == old(self)@,
            calls@ == seq![
                GlCall::BindBuffer { target: ELEMENT_ARRAY_BUFFER, buffer: old(self)@.id },
            ],
    {
        vec![GlCall::BindBuffer { target: ELEMENT_ARRAY_BUFFER, buffer: self.id }]
    }

    pub fn unbind(&mut self) -> (calls: Vec<GlCall>)
        requires
            old(self)@.handle is Some,
        ensures
            final(self)@ == old(self)@,
            calls@ == seq![GlCall::BindBuffer { target: ELEMENT_ARRAY_BUFFER, buffer: 0 }],
    {
        vec![GlCall::BindBuffer { target: ELEMENT_ARRAY_BUFFER, buffer: 0 }]
    }

    /// Overwrites the start of the buffer with `indices`, which must fit
    /// into the buffer's room: a buffer does not grow.
    pub fn update(&mut self, indices: &[u32]) -> (calls: Vec<GlCall>)
        requires
            old(self)@.handle is Some,
            indices@.len() <= old(self)@.max_count,
        ensures
            final(self)@ == (GlBufferView { count: indices@.len() as usize, ..old(self)@ }),
            calls@ == update_calls(
                ELEMENT_ARRAY_BUFFER,
                old(self)@.id,
                (indices@.len() * 4) as usize,
            ),
    {
        broadcast use layout_of_slices, layout_of_primitives;

        proof {
            use_type_invariant(&*self);
        }
        let calls = update(ELEMENT_ARRAY_BUFFER, self.id, core::mem::size_of_val(indices));
        self.count = indices.len();
        calls
    }

    /// The number of indices that the buffer holds.
    pub fn count(&self) -> (count: usize)
        ensures
            count == self@.count,
            count <= self@.max_count,
    {
        proof {
            use_type_invariant(self);
        }
        self.count
    }

    /// The number of indices that the buffer has room for.
    pub fn max_count(&self) -> (max_count: usize)
        ensures
            max_count == self@.max_count,
    {
        self.max_count
    }
}

impl GlResource for GlIndexBuffer {
    open spec fn handle(&self) -> Option<nat> {
        self@.handle
    }

    open spec fn release_calls(&self) -> Seq<GlCall> {
        seq![GlCall::DeleteBuffers { buffer: self@.id }]
    }

    fn is_alive(&self) -> (alive: bool) {
        self.gl.is_some()
    }

    fn release(&mut self, gl: &mut Gl) -> (calls: Vec<GlCall>)
        ensures
            final(self)@ == (GlBufferView { handle: None, ..old(self)@ }),
    {
        proof {
            use_type_invariant(&*self);
        }
        let mut released = GlIndexBuffer::default();
        core::mem::swap(self, &mut released);
        let GlIndexBuffer { gl: held, id, count, max_count } = released;
        *self = GlIndexBuffer { gl: None, id, count, max_count };
        match held {
            Some(handle) => {
                gl.release(handle);
                vec![GlCall::DeleteBuffers { buffer: id }]
            },
            None => Vec::new(),
        }
    }
}

//////////////////////////////////////////////////
// Uniform Buffer

/// The calls that take a uniform buffer off the binding points `slots`, one
/// after the other.
pub open spec fn unbind_calls(slots: Seq<GLuint>) -> Seq<GlCall> {
    slots.map_values(
        |slot: GLuint| GlCall::BindBufferBase { target: UNIFORM_BUFFER, index: slot, buffer: 0 },
    )
}

/// What a uniform buffer is to a contract: the reference that it holds to
/// the function table while it is alive, the name of its native object, and
/// the binding points it is bound to.
pub struct GlUniformBufferView {
    pub handle: Option<nat>,
    pub id: GLuint,
    pub slots: Seq<bool>,
}

/// A buffer that holds one value of type `T` for the shaders to read.
#[derive(Debug)]
pub struct GlUniformBuffer<T> {
    gl: Option<GlHandle>,
    id: GLuint,
    active_slots: ActiveSlots,
    phantom: PhantomData<T>,
}

impl<T> View for GlUniformBuffer<T> {
    type V = GlUniformBufferView;

    closed spec fn view(&self) -> GlUniformBufferView {
        GlUniformBufferView {
            handle: key_of(self.gl),
            id: self.id,
            slots: self.active_slots@,
        }
    }
}

impl<T> Default for GlUniformBuffer<T> {
    /// A uniform buffer that is not alive.
    fn default() -> (ubo: GlUniformBuffer<T>)
        ensures
            ubo@ == (GlUniformBufferView { handle: None, id: 0, slots: no_slots() }),
    {
        GlUniformBuffer { gl: None, id: 0, active_slots: ActiveSlots::new(), phantom: PhantomData }
    }
}

impl<T> GlUniformBuffer<T> {
    /// Fills the buffer that the driver generated under the name `id` with
    /// the value `data`. The buffer takes a reference to the function table.
    pub fn new(gl: &mut Gl, id: GLuint, usage: GLenum, data: &T) -> (created: (
        GlUniformBuffer<T>,
        Vec<GlCall>,
    ))
        requires
            old(gl).wf(),
            old(gl).has_room(),
        ensures
            final(gl).wf(),
            final(gl)@ == old(gl)@.acquire(),
            created.0@ == (GlUniformBufferView {
                handle: Some(old(gl)@.issued),
                id,
                slots: no_slots(),
            }),
            created.1@ == create_calls(UNIFORM_BUFFER, id, size_of::<T>() as usize, usage),
    {
        let calls = create(UNIFORM_BUFFER, id, core::mem::size_of::<T>(), usage);
        let handle = gl.acquire();
        (
            GlUniformBuffer {
                gl: Some(handle),
                id,
                active_slots: ActiveSlots::new(),
                phantom: PhantomData,
            },
            calls,
        )
    }

    /// Binds the buffer to a binding point and remembers the point.
    pub fn bind(&mut self, unit: GLuint) -> (calls: Vec<GlCall>)
        requires
            old(self)@.handle is Some,
            unit < SLOTS,
        ensures
            final(self)@ == (GlUniformBufferView {
                slots: old(self)@.slots.update(unit as int, true),
                ..old(self)@
            }),
            calls@ == seq![
                GlCall::BindBufferBase {
                    target: UNIFORM_BUFFER,
                    index: unit,
                    buffer: old(self)@.id,
                },
            ],
    {
        self.active_slots.set(unit);
        vec![GlCall::BindBufferBase { target: UNIFORM_BUFFER, index: unit, buffer: self.id }]
    }

    /// Takes the buffer off every binding point that it was bound to since
    /// it was last unbound, and off no other.
    pub fn unbind(&mut self) -> (calls: Vec<GlCall>)
        requires
            old(self)@.handle is Some,
        ensures
            final(self)@ == (GlUniformBufferView { slots: no_slots(), ..old(self)@ }),
            calls@ == unbind_calls(marked(old(self)@.slots, SLOTS as nat)),
    {
        let mut calls: Vec<GlCall> = Vec::new();
        let mut slot: GLuint = 0;
        proof {
            self.active_slots.lemma_len();
        }
        while slot < 32
            invariant
                slot <= 32,
                self.gl == old(self).gl,
                self.id == old(self).id,
                self.active_slots@.len() == 32,
                old(self).active_slots@.len() == 32,
                calls@ == unbind_calls(marked(old(self).active_slots@, slot as nat)),
                forall|i: int| 0 <= i < slot ==> !self.active_slots@[i],
                forall|i: int| slot <= i < 32 ==> self.active_slots@[i] == old(self).active_slots@[i],
            decreases 32 - slot,
        {
            if self.active_slots.get(slot) {
                calls.push(GlCall::BindBufferBase { target: UNIFORM_BUFFER, index: slot, buffer: 0 });
                self.active_slots.clear(slot);
            }
            slot = slot + 1;
            assert(calls@ =~= unbind_calls(marked(old(self).active_slots@, slot as nat)));
        }
        assert(self.active_slots@ =~= no_slots());
        calls
    }

    /// Overwrites the buffer with the value `data`.
    pub fn update(&mut self, data: &T) -> (calls: Vec<GlCall>)
        requires
            old(self)@.handle is Some,
        ensures
            final(self)@ == old(self)@,
            calls@ == update_calls(UNIFORM_BUFFER, old(self)@.id, size_of::<T>() as usize),
    {
        update(UNIFORM_BUFFER, self.id, core::mem::size_of::<T>())
    }
}

impl<T> GlResource for GlUniformBuffer<T> {
    open spec fn handle(&self) -> Option<nat> {
        self@.handle
    }

    open spec fn release_calls(&self) -> Seq<GlCall> {
        seq![GlCall::DeleteBuffers { buffer: self@.id }]
    }

    fn is_alive(&self) -> (alive: bool) {
        self.gl.is_some()
    }

    fn release(&mut self, gl: &mut Gl) -> (calls: Vec<GlCall>)
        ensures
            final(self)@ == (GlUniformBufferView { handle: None, ..old(self)@ }),
    {
        match self.gl.take() {
            Some(handle) => {
                gl.release(handle);
                vec![GlCall::DeleteBuffers { buffer: self.id }]
            },
            None => Vec::new(),
        }
    }
}

} // verus!
