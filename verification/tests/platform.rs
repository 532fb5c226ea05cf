use game_gl::config::{Api, Config, Platform};
use game_gl::context::{RawGameContext, RawGraphicsContext, CLEAR_COLOR, ONE};
use game_gl::file::{File, Files};
use game_gl::gl::{
    GlCall, BACK, BLEND, COLOR_BUFFER_BIT, CULL_FACE, DEPTH_BUFFER_BIT, DEPTH_TEST, FALSE,
    ONE_MINUS_SRC_ALPHA, SRC_ALPHA,
};
use game_gl::opengl::Gl;

#[test]
fn desktop_capabilities() {
    let config = Config::new(Platform::Desktop);
    assert!(config.srgb_support());
    assert!(config.vsync_support());
    assert_eq!(config.opengl_api_support(), Api::OpenGl);
    assert_eq!(config.opengl_version_support(), (4, 5));
}

#[test]
fn android_capabilities() {
    let config = Config::new(Platform::Android);
    assert!(!config.srgb_support());
    assert!(config.vsync_support());
    assert_eq!(config.opengl_api_support(), Api::OpenGlEs);
    assert_eq!(config.opengl_version_support(), (3, 0));
}

#[test]
fn string_of_valid_bytes() {
    assert_eq!(File::load_string(Some(b"hello".to_vec())), Some(String::from("hello")));
    assert_eq!(File::load_string(Some(vec![])), Some(String::new()));
    assert_eq!(
        File::load_string(Some(vec![0xe2, 0x82, 0xac, 0x20, 0xc3, 0xa4])),
        Some(String::from("\u{20ac} \u{e4}"))
    );
}

#[test]
fn no_string_of_invalid_bytes() {
    assert_eq!(File::load_string(Some(vec![0xff])), None);
    assert_eq!(File::load_string(Some(vec![b'a', 0xc3])), None);
    assert_eq!(File::load_string(Some(vec![0xed, 0xa0, 0x80])), None);
    assert_eq!(File::load_string(Some(vec![0xc0, 0x80])), None);
}

#[test]
fn no_string_of_a_missing_asset() {
    assert_eq!(File::load_string(None), None);
    assert_eq!(Files::new().load_string(None), None);
}

#[test]
fn files_of_the_game_context() {
    let ctx = RawGameContext::new();
    let files = ctx.files();
    assert_eq!(files.load_string(Some(b"asset".to_vec())), Some(String::from("asset")));
    assert_eq!(files.load_string(Some(vec![0x80])), None);
}

#[test]
fn game_context_exit() {
    let mut ctx = RawGameContext::new();
    assert!(!ctx.request_exit());
    ctx.exit();
    assert!(ctx.request_exit());
    ctx.exit();
    assert!(ctx.request_exit());
    assert!(!RawGameContext::default().request_exit());
}

#[test]
fn clear_colour_bits() {
    assert_eq!(f32::from_bits(ONE), 1.0);
    assert_eq!(f32::from_bits(CLEAR_COLOR[0]), 1.0);
    assert_eq!(f32::from_bits(CLEAR_COLOR[1]), 0.2);
    assert_eq!(f32::from_bits(CLEAR_COLOR[2]), 0.3);
    assert_eq!(f32::from_bits(CLEAR_COLOR[3]), 1.0);
}

#[test]
fn graphics_context_follows_the_device() {
    let mut gl = Gl::new();
    let mut graphics = RawGraphicsContext::default();
    assert_eq!(graphics.resolution(), (0, 0));
    assert_eq!(graphics.clear(), vec![]);
    assert_eq!(graphics.clear_depth(), vec![]);

    let calls = graphics.create(&mut gl);
    assert_eq!(
        calls,
        vec![
            GlCall::Enable { cap: CULL_FACE },
            GlCall::CullFace { mode: BACK },
            GlCall::Enable { cap: BLEND },
            GlCall::BlendFunc { sfactor: SRC_ALPHA, dfactor: ONE_MINUS_SRC_ALPHA },
            GlCall::Disable { cap: DEPTH_TEST },
            GlCall::DepthMask { flag: FALSE },
        ]
    );
    assert_eq!(gl.strong_count(), 2);

    assert_eq!(
        graphics.resize(800, 600),
        vec![GlCall::Viewport { x: 0, y: 0, width: 800, height: 600 }]
    );
    assert_eq!(graphics.resolution(), (800, 600));

    assert_eq!(
        graphics.clear(),
        vec![
            GlCall::ClearColor {
                red: 1.0f32.to_bits(),
                green: 0.2f32.to_bits(),
                blue: 0.3f32.to_bits(),
                alpha: 1.0f32.to_bits()
            },
            GlCall::ClearDepthf { d: 1.0f32.to_bits() },
            GlCall::Clear { mask: COLOR_BUFFER_BIT | DEPTH_BUFFER_BIT },
        ]
    );
    assert_eq!(
        graphics.clear_depth(),
        vec![
            GlCall::ClearDepthf { d: 1.0f32.to_bits() },
            GlCall::Clear { mask: DEPTH_BUFFER_BIT },
        ]
    );

    graphics.destroy(&mut gl);
    assert_eq!(gl.strong_count(), 1);
    assert_eq!(graphics.clear(), vec![]);
    assert_eq!(graphics.resolution(), (800, 600));
    graphics.destroy(&mut gl);
    assert_eq!(gl.strong_count(), 1);
}

#[test]
fn graphics_context_created_twice_holds_one_reference() {
    let mut gl = Gl::new();
    let mut graphics = RawGraphicsContext::default();
    graphics.create(&mut gl);
    graphics.create(&mut gl);
    assert_eq!(gl.strong_count(), 2);
    graphics.destroy(&mut gl);
    assert_eq!(gl.strong_count(), 1);
}
