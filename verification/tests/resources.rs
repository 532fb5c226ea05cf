use game_gl::buffer::{GlIndexBuffer, GlUniformBuffer, GlVertexArrayObject, GlVertexBuffer};
use game_gl::gl::{
    GlCall, ARRAY_BUFFER, DYNAMIC_DRAW, ELEMENT_ARRAY_BUFFER, FALSE, FLOAT, NO_ERROR, STATIC_DRAW,
    TRIANGLES, TRIANGLE_STRIP, UNIFORM_BUFFER, UNSIGNED_INT,
};
use game_gl::opengl::{check_error, ActiveSlots, Gl, GlResource};
use game_gl::shader::{compiled, null_terminated, GlShader};

#[test]
fn new_table_has_one_reference() {
    let gl = Gl::new();
    assert_eq!(gl.strong_count(), 1);
    assert!(gl.is_unique());
}

#[test]
fn acquire_and_release_count() {
    let mut gl = Gl::new();
    let first = gl.acquire();
    let second = gl.acquire();
    assert_eq!(gl.strong_count(), 3);
    assert!(!gl.is_unique());
    gl.release(first);
    assert_eq!(gl.strong_count(), 2);
    gl.release(second);
    assert_eq!(gl.strong_count(), 1);
    assert!(gl.is_unique());
}

#[test]
fn release_of_a_foreign_reference_changes_nothing() {
    let mut gl = Gl::new();
    let mut other = Gl::new();
    let _held = gl.acquire();
    let _first = other.acquire();
    let foreign = other.acquire();
    assert_eq!(gl.strong_count(), 2);
    gl.release(foreign);
    assert_eq!(gl.strong_count(), 2);
}

#[test]
fn count_is_live_resources_plus_one() {
    let mut gl = Gl::new();
    let mut vao = GlVertexArrayObject::new(&mut gl, 1);
    let (mut vbo, _) = GlVertexBuffer::<[u32; 4]>::new(&mut gl, 2, STATIC_DRAW, &[[0; 4]; 4]);
    let (mut ibo, _) = GlIndexBuffer::new(&mut gl, 3, STATIC_DRAW, &[0; 4]);
    let (mut ubo, _) = GlUniformBuffer::<(u32, u32)>::new(&mut gl, 4, DYNAMIC_DRAW, &(0, 0));
    let mut shader = GlShader::new(&mut gl, 5, 6, 7, b"void main() {}", b"void main() {}").shader;
    assert_eq!(gl.strong_count(), 6);
    vao.release(&mut gl);
    assert_eq!(gl.strong_count(), 5);
    vbo.release(&mut gl);
    ibo.release(&mut gl);
    assert_eq!(gl.strong_count(), 3);
    ubo.release(&mut gl);
    shader.release(&mut gl);
    assert_eq!(gl.strong_count(), 1);
    assert!(gl.is_unique());
}

#[test]
fn release_twice_is_harmless() {
    let mut gl = Gl::new();
    let (mut kept, _) = GlIndexBuffer::new(&mut gl, 8, STATIC_DRAW, &[1, 2, 3]);
    let (mut ibo, _) = GlIndexBuffer::new(&mut gl, 9, STATIC_DRAW, &[1, 2, 3]);
    assert_eq!(gl.strong_count(), 3);
    assert_eq!(ibo.release(&mut gl), vec![GlCall::DeleteBuffers { buffer: 9 }]);
    assert_eq!(gl.strong_count(), 2);
    assert_eq!(ibo.release(&mut gl), vec![]);
    assert_eq!(gl.strong_count(), 2);
    assert_eq!(kept.release(&mut gl), vec![GlCall::DeleteBuffers { buffer: 8 }]);
    assert_eq!(gl.strong_count(), 1);
}

#[test]
fn release_of_a_default_resource_does_nothing() {
    let mut gl = Gl::new();
    let mut vao = GlVertexArrayObject::default();
    let mut vbo = GlVertexBuffer::<u8>::default();
    let mut ibo = GlIndexBuffer::default();
    let mut ubo = GlUniformBuffer::<u8>::default();
    let mut shader = GlShader::default();
    assert_eq!(vao.release(&mut gl), vec![]);
    assert_eq!(vbo.release(&mut gl), vec![]);
    assert_eq!(ibo.release(&mut gl), vec![]);
    assert_eq!(ubo.release(&mut gl), vec![]);
    assert_eq!(shader.release(&mut gl), vec![]);
    assert_eq!(gl.strong_count(), 1);
    assert_eq!(vbo.count(), 0);
    assert_eq!(vbo.max_count(), 0);
}

#[test]
fn vertex_array_binds_and_unbinds() {
    let mut gl = Gl::new();
    let mut vao = GlVertexArrayObject::new(&mut gl, 11);
    assert_eq!(vao.id(), 11);
    assert_eq!(vao.bind(), vec![GlCall::BindVertexArray { array: 11 }]);
    assert_eq!(vao.unbind(), vec![GlCall::BindVertexArray { array: 0 }]);
    assert_eq!(vao.release(&mut gl), vec![GlCall::DeleteVertexArrays { array: 11 }]);
}

#[test]
fn vertex_array_attributes() {
    let mut gl = Gl::new();
    let mut vao = GlVertexArrayObject::new(&mut gl, 11);
    let (vbo, _) = GlVertexBuffer::<[u32; 4]>::new(&mut gl, 12, STATIC_DRAW, &[[0; 4]; 4]);
    let calls = vao.bind_attrib(&vbo, 1, 2, FLOAT, FALSE, 8, 16, 0);
    assert_eq!(
        calls,
        vec![
            GlCall::BindBuffer { target: ARRAY_BUFFER, buffer: 12 },
            GlCall::VertexAttribPointer {
                index: 1,
                components: 2,
                type_: FLOAT,
                normalized: FALSE,
                stride: 16,
                offset: 8
            },
            GlCall::VertexAttribDivisor { index: 1, divisor: 0 },
            GlCall::EnableVertexAttribArray { index: 1 },
            GlCall::BindBuffer { target: ARRAY_BUFFER, buffer: 0 },
        ]
    );
    vao.bind_attrib(&vbo, 31, 2, FLOAT, FALSE, 0, 16, 1);
    vao.bind_attrib(&vbo, 0, 2, FLOAT, FALSE, 0, 16, 1);
    vao.bind_attrib(&vbo, 1, 2, FLOAT, FALSE, 0, 16, 1);
    assert_eq!(
        vao.clear_attribs(),
        vec![
            GlCall::VertexAttribDivisor { index: 0, divisor: 0 },
            GlCall::DisableVertexAttribArray { index: 0 },
            GlCall::VertexAttribDivisor { index: 1, divisor: 0 },
            GlCall::DisableVertexAttribArray { index: 1 },
            GlCall::VertexAttribDivisor { index: 31, divisor: 0 },
            GlCall::DisableVertexAttribArray { index: 31 },
        ]
    );
    assert_eq!(vao.clear_attribs(), vec![]);
}

#[test]
fn vertex_buffer_create_and_update() {
    let mut gl = Gl::new();
    let (mut vbo, calls) = GlVertexBuffer::<[u32; 4]>::new(&mut gl, 21, STATIC_DRAW, &[[0; 4]; 4]);
    assert_eq!(
        calls,
        vec![
            GlCall::BindBuffer { target: ARRAY_BUFFER, buffer: 21 },
            GlCall::BufferData { target: ARRAY_BUFFER, size: 64, usage: STATIC_DRAW },
            GlCall::BindBuffer { target: ARRAY_BUFFER, buffer: 0 },
        ]
    );
    assert_eq!(vbo.id(), 21);
    assert_eq!(vbo.count(), 4);
    assert_eq!(vbo.max_count(), 4);
    let calls = vbo.update(&[[1; 4]; 3]);
    assert_eq!(
        calls,
        vec![
            GlCall::BindBuffer { target: ARRAY_BUFFER, buffer: 21 },
            GlCall::BufferSubData { target: ARRAY_BUFFER, offset: 0, size: 48 },
            GlCall::BindBuffer { target: ARRAY_BUFFER, buffer: 0 },
        ]
    );
    assert_eq!(vbo.count(), 3);
    assert_eq!(vbo.max_count(), 4);
    vbo.update(&[]);
    assert_eq!(vbo.count(), 0);
    assert_eq!(vbo.max_count(), 4);
    assert_eq!(vbo.release(&mut gl), vec![GlCall::DeleteBuffers { buffer: 21 }]);
}

#[test]
fn empty_vertex_buffer() {
    let mut gl = Gl::new();
    let (vbo, calls) = GlVertexBuffer::<u64>::new(&mut gl, 22, DYNAMIC_DRAW, &[]);
    assert_eq!(calls[1], GlCall::BufferData { target: ARRAY_BUFFER, size: 0, usage: DYNAMIC_DRAW });
    assert_eq!(vbo.count(), 0);
    assert_eq!(vbo.max_count(), 0);
}

#[test]
fn index_buffer_create_bind_update() {
    let mut gl = Gl::new();
    let (mut ibo, calls) = GlIndexBuffer::new(&mut gl, 31, STATIC_DRAW, &[0; 4]);
    assert_eq!(
        calls,
        vec![
            GlCall::BindBuffer { target: ELEMENT_ARRAY_BUFFER, buffer: 31 },
            GlCall::BufferData { target: ELEMENT_ARRAY_BUFFER, size: 16, usage: STATIC_DRAW },
            GlCall::BindBuffer { target: ELEMENT_ARRAY_BUFFER, buffer: 0 },
        ]
    );
    assert_eq!(ibo.bind(), vec![GlCall::BindBuffer { target: ELEMENT_ARRAY_BUFFER, buffer: 31 }]);
    assert_eq!(ibo.unbind(), vec![GlCall::BindBuffer { target: ELEMENT_ARRAY_BUFFER, buffer: 0 }]);
    let calls = ibo.update(&[0, 1, 2, 3]);
    assert_eq!(
        calls,
        vec![
            GlCall::BindBuffer { target: ELEMENT_ARRAY_BUFFER, buffer: 31 },
            GlCall::BufferSubData { target: ELEMENT_ARRAY_BUFFER, offset: 0, size: 16 },
            GlCall::BindBuffer { target: ELEMENT_ARRAY_BUFFER, buffer: 0 },
        ]
    );
    assert_eq!(ibo.count(), 4);
    ibo.update(&[0, 1]);
    assert_eq!(ibo.count(), 2);
    assert_eq!(ibo.max_count(), 4);
}

#[test]
fn uniform_buffer_slots() {
    let mut gl = Gl::new();
    let (mut ubo, calls) = GlUniformBuffer::<(u32, u32, u32, u32)>::new(
        &mut gl,
        41,
        DYNAMIC_DRAW,
        &(0, 0, 0, 0),
    );
    assert_eq!(
        calls,
        vec![
            GlCall::BindBuffer { target: UNIFORM_BUFFER, buffer: 41 },
            GlCall::BufferData { target: UNIFORM_BUFFER, size: 16, usage: DYNAMIC_DRAW },
            GlCall::BindBuffer { target: UNIFORM_BUFFER, buffer: 0 },
        ]
    );
    assert_eq!(
        ubo.update(&(1, 2, 3, 4)),
        vec![
            GlCall::BindBuffer { target: UNIFORM_BUFFER, buffer: 41 },
            GlCall::BufferSubData { target: UNIFORM_BUFFER, offset: 0, size: 16 },
            GlCall::BindBuffer { target: UNIFORM_BUFFER, buffer: 0 },
        ]
    );
    assert_eq!(ubo.unbind(), vec![]);
    assert_eq!(
        ubo.bind(5),
        vec![GlCall::BindBufferBase { target: UNIFORM_BUFFER, index: 5, buffer: 41 }]
    );
    ubo.bind(1);
    ubo.bind(5);
    assert_eq!(
        ubo.unbind(),
        vec![
            GlCall::BindBufferBase { target: UNIFORM_BUFFER, index: 1, buffer: 0 },
            GlCall::BindBufferBase { target: UNIFORM_BUFFER, index: 5, buffer: 0 },
        ]
    );
    assert_eq!(ubo.unbind(), vec![]);
}

#[test]
fn slot_table() {
    let mut slots = ActiveSlots::new();
    for slot in 0..32 {
        assert!(!slots.get(slot));
    }
    slots.set(0);
    slots.set(31);
    assert!(slots.get(0));
    assert!(slots.get(31));
    assert!(!slots.get(1));
    slots.clear(0);
    assert!(!slots.get(0));
    assert!(slots.get(31));
}

#[test]
fn shader_build() {
    let mut gl = Gl::new();
    let build = GlShader::new(&mut gl, 51, 52, 53, b"vert", b"frag");
    assert_eq!(build.vertex_source, b"vert\0".to_vec());
    assert_eq!(build.fragment_source, b"frag\0".to_vec());
    assert_eq!(
        build.calls,
        vec![
            GlCall::ShaderSource { shader: 51, stage: game_gl::gl::ShaderStage::Vertex },
            GlCall::CompileShader { shader: 51 },
            GlCall::ShaderSource { shader: 52, stage: game_gl::gl::ShaderStage::Fragment },
            GlCall::CompileShader { shader: 52 },
            GlCall::AttachShader { program: 53, shader: 51 },
            GlCall::AttachShader { program: 53, shader: 52 },
            GlCall::LinkProgram { program: 53 },
        ]
    );
    assert_eq!(build.shader.program(), 53);
    assert_eq!(gl.strong_count(), 2);
}

#[test]
fn shader_with_invalid_fragment_source_is_still_usable() {
    let mut gl = Gl::new();
    let build = GlShader::new(&mut gl, 51, 52, 53, b"void main() {}", b"this is not a shader");
    let mut shader = build.shader;
    // the driver answers the fragment stage's compile status with zero
    assert!(compiled(1));
    assert!(!compiled(0));
    assert_eq!(shader.bind(), vec![GlCall::UseProgram { program: 53 }]);
    assert_eq!(shader.unbind(), vec![GlCall::UseProgram { program: 0 }]);
    assert_eq!(gl.strong_count(), 2);
}

#[test]
fn shader_links_and_draws() {
    let mut gl = Gl::new();
    let mut shader = GlShader::new(&mut gl, 51, 52, 53, b"", b"").shader;
    assert_eq!(
        shader.link_uniform(1, 4),
        vec![GlCall::UniformBlockBinding { program: 53, index: 4, binding: 1 }]
    );
    assert_eq!(shader.link_texture(2, -1), vec![GlCall::Uniform1i { location: -1, value: 2 }]);
    assert_eq!(
        shader.draw_arrays(TRIANGLES, 3),
        vec![GlCall::DrawArrays { mode: TRIANGLES, first: 0, count: 3 }]
    );
    assert_eq!(
        shader.draw_elements(TRIANGLE_STRIP, 4),
        vec![GlCall::DrawElements { mode: TRIANGLE_STRIP, count: 4, type_: UNSIGNED_INT }]
    );
    assert_eq!(
        shader.draw_elements_instanced(TRIANGLES, 6, 10),
        vec![GlCall::DrawElementsInstanced {
            mode: TRIANGLES,
            count: 6,
            type_: UNSIGNED_INT,
            instances: 10
        }]
    );
}

#[test]
fn shader_release_order() {
    let mut gl = Gl::new();
    let mut shader = GlShader::new(&mut gl, 51, 52, 53, b"", b"").shader;
    assert_eq!(
        shader.release(&mut gl),
        vec![
            GlCall::DetachShader { program: 53, shader: 51 },
            GlCall::DetachShader { program: 53, shader: 52 },
            GlCall::DeleteShader { shader: 51 },
            GlCall::DeleteShader { shader: 52 },
            GlCall::DeleteProgram { program: 53 },
        ]
    );
    assert_eq!(shader.release(&mut gl), vec![]);
    assert_eq!(gl.strong_count(), 1);
}

#[test]
fn null_termination() {
    assert_eq!(null_terminated(b"abc"), Some(vec![b'a', b'b', b'c', 0]));
    assert_eq!(null_terminated(b""), Some(vec![0]));
    assert_eq!(null_terminated(b"a\0b"), None);
    assert_eq!(null_terminated(b"\0"), None);
    assert_eq!(null_terminated(b"abc\0"), None);
}

#[test]
fn error_queue() {
    assert!(!check_error(&[]));
    assert!(!check_error(&[NO_ERROR]));
    assert!(check_error(&[0x0502, NO_ERROR]));
    assert!(check_error(&[0x0500, 0x0501, NO_ERROR]));
    assert!(!check_error(&[NO_ERROR, 0x0502]));
}

#[test]
fn shader_stage_kinds() {
    assert_eq!(game_gl::gl::ShaderStage::Vertex.kind(), 0x8B31);
    assert_eq!(game_gl::gl::ShaderStage::Fragment.kind(), 0x8B30);
}
