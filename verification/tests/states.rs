use game_gl::buffer::{GlIndexBuffer, GlVertexArrayObject};
use game_gl::context::RawGraphicsContext;
use game_gl::game_app::active_from;
use game_gl::gl::STATIC_DRAW;
use game_gl::opengl::{Gl, GlResource};
use game_gl::shader::GlShader;
use game_gl::texture::GlTexture;

#[test]
fn states_take_part_from_the_topmost_that_stands_alone() {
    assert_eq!(active_from(&[]), 0);
    assert_eq!(active_from(&[false]), 0);
    assert_eq!(active_from(&[true]), 0);
    assert_eq!(active_from(&[true, true, true]), 0);
    assert_eq!(active_from(&[false, true, true]), 0);
    assert_eq!(active_from(&[false, false, true]), 1);
    assert_eq!(active_from(&[true, false, true, true]), 1);
    assert_eq!(active_from(&[false, true, false]), 2);
    assert_eq!(active_from(&[true, true, false]), 2);
}

#[test]
fn resources_are_alive_until_released() {
    let mut gl = Gl::new();
    assert!(gl.can_acquire());
    let mut vao = GlVertexArrayObject::new(&mut gl, 1);
    let (mut ibo, _) = GlIndexBuffer::new(&mut gl, 2, STATIC_DRAW, &[]);
    let mut shader = GlShader::new(&mut gl, 3, 4, 5, b"", b"").shader;
    assert!(vao.is_alive());
    assert!(ibo.is_alive());
    assert!(shader.is_alive());
    vao.release(&mut gl);
    ibo.release(&mut gl);
    shader.release(&mut gl);
    assert!(!vao.is_alive());
    assert!(!ibo.is_alive());
    assert!(!shader.is_alive());
    assert!(!GlTexture::default().is_alive());
    assert!(gl.can_acquire());
}

#[test]
fn graphics_context_knows_its_device() {
    let mut gl = Gl::new();
    let mut graphics = RawGraphicsContext::default();
    assert!(!graphics.has_device());
    graphics.create(&mut gl);
    assert!(graphics.has_device());
    graphics.destroy(&mut gl);
    assert!(!graphics.has_device());
}
