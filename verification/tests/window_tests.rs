use efl::ColorFormat;
use efl::DepthBits;
use efl::Engine;
use efl::EventKind;
use efl::GlOptions;
use efl::InitError;
use efl::InputHandler;
use efl::MultisampleBits;
use efl::NativeHost;
use efl::StencilBits;
use efl::Window;
use efl::events::InputEvent;

struct NoopEvent;

impl efl::EventHandler for NoopEvent {
    fn on_event(&mut self, _kind: EventKind) {}
}

struct NoopInput;

impl InputHandler for NoopInput {
    fn on_input(&mut self, _event: &InputEvent) {}
}

fn host() -> NativeHost {
    NativeHost {
        create_ok: true,
        default_engine: String::from("software_x11"),
        screen_x: 0,
        screen_y: 0,
        screen_w: 1920,
        screen_h: 1080,
        screen_xdpi: 96,
        screen_ydpi: 96,
        pointer_x: 10,
        pointer_y: 20,
    }
}

fn context() -> efl::Context {
    efl::init(
        false,
        true,
        true,
        vec![String::from("software_x11"), String::from("opengl_x11"), String::from("quartz")],
    )
    .unwrap()
}

#[test]
fn init_reports_already_initialized() {
    let r = efl::init(true, true, true, vec![]);
    assert_eq!(r.err(), Some(InitError::AlreadyInitialized));
}

#[test]
fn init_reports_first_stage_failure() {
    let r = efl::init(false, false, true, vec![]);
    assert_eq!(r.err(), Some(InitError::EcoreInitError));
}

#[test]
fn init_reports_second_stage_failure() {
    let r = efl::init(false, true, false, vec![]);
    assert_eq!(r.err(), Some(InitError::EcoreEvasInitError));
}

#[test]
fn init_parses_discovered_engines() {
    let ctx = context();
    let engines = ctx.get_supported_engines();
    assert_eq!(engines.len(), 3);
    assert_eq!(engines[0], Engine::SoftwareX11);
    assert_eq!(engines[1], Engine::OpenGlX11);
    assert_eq!(engines[2], Engine::Unknown(String::from("quartz")));
}

#[test]
fn successful_creation_reports_geometry() {
    let ctx = context();
    let w: Window<NoopEvent, NoopInput> =
        ctx.build_window(0, 0, 800, 600).create(&host()).unwrap();
    assert_eq!(w.get_size(), (800, 600));
    assert_eq!(w.get_position(), (0, 0));
}

#[test]
fn failed_creation_returns_opaque_error() {
    let ctx = context();
    let mut failing = host();
    failing.create_ok = false;
    let r: Result<Window<NoopEvent, NoopInput>, ()> =
        ctx.build_window(0, 0, 800, 600).create(&failing);
    assert_eq!(r.err(), Some(()));
}

#[test]
fn builder_passes_chosen_engine_through() {
    let ctx = context();
    let w: Window<NoopEvent, NoopInput> = ctx
        .build_window(0, 0, 100, 100)
        .with_engine(Engine::OpenGlX11)
        .create(&host())
        .unwrap();
    assert_eq!(w.get_engine_name(), String::from("opengl_x11"));
}

#[test]
fn builder_without_engine_takes_native_default() {
    let ctx = context();
    let w: Window<NoopEvent, NoopInput> =
        ctx.build_window(0, 0, 100, 100).create(&host()).unwrap();
    assert_eq!(w.get_engine_name(), String::from("software_x11"));
}

#[test]
fn builder_accumulates_surface_configuration() {
    let ctx = context();
    let b = ctx
        .build_window(5, 6, 320, 240)
        .with_color_format(ColorFormat::Rgba8888)
        .with_gl_depth(Some(DepthBits::DepthBits24))
        .with_gl_stencil(Some(StencilBits::StencilBits8))
        .with_gl_options(GlOptions::direct())
        .with_gl_multisample(Some(MultisampleBits::MultisampleHigh));
    assert_eq!(b.gl_config.color_format, Some(ColorFormat::Rgba8888));
    assert_eq!(b.gl_config.depth, Some(DepthBits::DepthBits24));
    assert_eq!(b.gl_config.stencil, Some(StencilBits::StencilBits8));
    assert_eq!(b.gl_config.options, GlOptions::direct());
    assert_eq!(b.gl_config.multisample, Some(MultisampleBits::MultisampleHigh));
    let w: Window<NoopEvent, NoopInput> = b.create(&host()).unwrap();
    assert_eq!(w.gl_config.color_format, Some(ColorFormat::Rgba8888));
}

#[test]
fn creation_runs_post_creation_sequence() {
    let ctx = context();
    let w: Window<NoopEvent, NoopInput> =
        ctx.build_window(0, 0, 800, 600).create(&host()).unwrap();
    assert!(w.native.object_visible);
    assert!(w.native.focused);
    assert!(w.native.back_pointer_registered);
    assert!(!w.native.visible);
    assert_eq!(Window::<NoopEvent, NoopInput>::data_ptr_key(), "WINDOW_PTR");
}

#[test]
fn window_flag_accessors_round_trip() {
    let ctx = context();
    let mut w: Window<NoopEvent, NoopInput> =
        ctx.build_window(0, 0, 100, 100).create(&host()).unwrap();
    assert!(!w.is_iconified());
    w.set_iconified(true);
    assert!(w.is_iconified());
    assert!(!w.is_borderless());
    w.set_borderless(true);
    assert!(w.is_borderless());
    assert!(!w.is_fullscreen());
    w.set_fullscreen(true);
    assert!(w.is_fullscreen());
    assert!(!w.is_maximized());
    w.set_maximized(true);
    assert!(w.is_maximized());
    assert!(!w.demands_attention());
    w.set_demand_attention(true);
    assert!(w.demands_attention());
    assert!(!w.ignores_events());
    w.set_ignore_events(true);
    assert!(w.ignores_events());
    assert!(!w.is_manual_render());
    w.set_manual_render(true);
    assert!(w.is_manual_render());
    w.manual_render();
    assert!(w.is_manual_render());
}

#[test]
fn window_title_round_trips() {
    let ctx = context();
    let mut w: Window<NoopEvent, NoopInput> =
        ctx.build_window(0, 0, 100, 100).create(&host()).unwrap();
    assert_eq!(w.get_title(), String::new());
    w.set_title("canvas window");
    assert_eq!(w.get_title(), String::from("canvas window"));
}

#[test]
fn window_sizes_round_trip() {
    let ctx = context();
    let mut w: Window<NoopEvent, NoopInput> =
        ctx.build_window(0, 0, 100, 100).create(&host()).unwrap();
    assert_eq!(w.get_size_min(), (0, 0));
    w.set_size_min(32, 24);
    assert_eq!(w.get_size_min(), (32, 24));
    w.set_size_max(1600, 1200);
    assert_eq!(w.get_size_max(), (1600, 1200));
    w.set_size_base(64, 48);
    assert_eq!(w.get_size_base(), (64, 48));
    w.set_size_step(8, 8);
    assert_eq!(w.get_size_step(), (8, 8));
}

#[test]
fn window_visibility_and_focus() {
    let ctx = context();
    let mut w: Window<NoopEvent, NoopInput> =
        ctx.build_window(0, 0, 100, 100).create(&host()).unwrap();
    w.show();
    assert!(w.native.visible);
    w.hide_window();
    assert!(!w.native.visible);
    w.activate();
    assert!(w.native.focused);
}

#[test]
fn window_screen_and_pointer_state() {
    let ctx = context();
    let mut w: Window<NoopEvent, NoopInput> =
        ctx.build_window(0, 0, 100, 100).create(&host()).unwrap();
    assert_eq!(w.get_screen_position(), (0, 0));
    assert_eq!(w.get_screen_size(), (1920, 1080));
    assert_eq!(w.get_screen_dpi(), (96, 96));
    assert_eq!(w.get_pointer_position(), (10, 20));
    w.warp_pointer(300, 400);
    assert_eq!(w.get_pointer_position(), (300, 400));
    w.input_event_register();
    assert!(w.native.input_events_registered);
    w.input_event_unregister();
    assert!(!w.native.input_events_registered);
}

#[test]
fn window_keeps_its_context() {
    let ctx = context();
    let w: Window<NoopEvent, NoopInput> =
        ctx.build_window(0, 0, 100, 100).create(&host()).unwrap();
    assert_eq!(w.get_context().supported_engines.len(), 3);
    assert_eq!(w.get_context().supported_engines[0], Engine::SoftwareX11);
}
