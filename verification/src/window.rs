//! Context, window builder and window.
//!
//! The native layer is represented by explicit plain-value state: a
//! [`NativeHost`] value stands for the observable behaviour of the native
//! subsystem at the two points where it can vary (window creation can
//! fail, and creation-time defaults come from the environment), and a
//! [`NativeWindow`] value models the per-window native state the wrapper
//! can observe through its property accessors. The host application owns
//! the real native calls and keeps this model in step; everything the
//! wrapper decides — initialization outcomes, the builder state machine,
//! the creation sequence and the callback bridge — is verified here.

use vstd::prelude::*;
use vstd::string::StringExecFns;

use crate::bridge::DispatchOutcome;
use crate::bridge::EVENT_KIND_COUNT;
use crate::bridge::EventHandler;
use crate::bridge::EventKind;
use crate::bridge::HandlerTable;
use crate::bridge::INPUT_KIND_COUNT;
use crate::bridge::InputHandler;
use crate::bridge::InputKind;
use crate::bridge::RegFlags;
use crate::bridge::dispatches;
use crate::bridge::event_kind_index;
use crate::bridge::input_kind_index;
use crate::config::GlConfig;
use crate::engine::Engine;
use crate::engine::is_known_engine_name;
use crate::engine::known_engine_of;
use crate::engine::spec_name;
use crate::events::InputEvent;
use crate::events::spec_input_event_kind;

verus! {

/// Why subsystem initialization failed.
#[derive(Clone, Copy, Debug, PartialEq, Eq, Structural)]
pub enum InitError {
    /// The first native initialization stage failed.
    EcoreInitError,
    /// The second native initialization stage failed; the first stage
    /// is torn down again on process exit.
    EcoreEvasInitError,
    /// The subsystem was already initialized; initialization runs at
    /// most once per process.
    AlreadyInitialized,
}

/// A successfully initialized native subsystem: holds the rendering
/// engines discovered at initialization time. Never mutated after
/// creation; teardown is deferred to process exit.
pub struct Context {
    pub supported_engines: Vec<Engine>,
}

/// Clones an engine list element by element, preserving each engine
/// exactly.
fn clone_engines(v: &Vec<Engine>) -> (r: Vec<Engine>)
    ensures
        r@ == v@,
{
    let mut r: Vec<Engine> = Vec::new();
    let mut i: usize = 0;
    while i < v.len()
        invariant
            0 <= i <= v@.len(),
            r@ == v@.take(i as int),
        decreases v@.len() - i,
    {
        r.push(v[i].clone());
        i = i + 1;
        proof {
            assert(r@ =~= v@.take(i as int));
        }
    }
    proof {
        assert(r@ =~= v@);
    }
    r
}

impl Clone for Context {
    fn clone(&self) -> (r: Context)
        ensures
            r.supported_engines@ == self.supported_engines@,
    {
        Context { supported_engines: clone_engines(&self.supported_engines) }
    }
}

/// Decides the outcome of the once-per-process subsystem initialization,
/// from what the native layer reported: whether a prior initialization
/// already ran, whether each of the two native initialization stages
/// succeeded, and the engine identifier strings the native layer listed.
/// The host application performs the native calls, guards them with a
/// process-wide once-check, and hands the results here.
pub fn init(
    already_initialized: bool,
    ecore_ok: bool,
    ecore_evas_ok: bool,
    engine_names: Vec<String>,
) -> (r: Result<Context, InitError>)
    ensures
        already_initialized ==> r == Err::<Context, InitError>(InitError::AlreadyInitialized),
        !already_initialized && !ecore_ok ==> r == Err::<Context, InitError>(
            InitError::EcoreInitError,
        ),
        !already_initialized && ecore_ok && !ecore_evas_ok ==> r == Err::<Context, InitError>(
            InitError::EcoreEvasInitError,
        ),
        !already_initialized && ecore_ok && ecore_evas_ok ==> (r matches Ok(c) && {
            &&& c.supported_engines@.len() == engine_names@.len()
            &&& forall|i: int|
                0 <= i < engine_names@.len() ==> spec_name(#[trigger] c.supported_engines@[i])
                    == engine_names@[i]@
            &&& forall|i: int|
                0 <= i < engine_names@.len() && is_known_engine_name(engine_names@[i]@)
                    ==> #[trigger] c.supported_engines@[i] == known_engine_of(engine_names@[i]@)
            &&& forall|i: int|
                0 <= i < engine_names@.len() && !is_known_engine_name(engine_names@[i]@)
                    ==> #[trigger] c.supported_engines@[i] == Engine::Unknown(engine_names@[i])
        }),
{
    if already_initialized {
        return Err(InitError::AlreadyInitialized);
    }
    if !ecore_ok {
        return Err(InitError::EcoreInitError);
    }
    if !ecore_evas_ok {
        return Err(InitError::EcoreEvasInitError);
    }
    let mut engines: Vec<Engine> = Vec::new();
    let mut i: usize = 0;
    while i < engine_names.len()
        invariant
            0 <= i <= engine_names@.len(),
            engines@.len() == i,
            forall|j: int|
                0 <= j < i ==> spec_name(#[trigger] engines@[j]) == engine_names@[j]@,
            forall|j: int|
                0 <= j < i && is_known_engine_name(engine_names@[j]@) ==> #[trigger] engines@[j]
                    == known_engine_of(engine_names@[j]@),
            forall|j: int|
                0 <= j < i && !is_known_engine_name(engine_names@[j]@) ==> #[trigger] engines@[j]
                    == Engine::Unknown(engine_names@[j]),
        decreases engine_names@.len() - i,
    {
        let name = engine_names[i].clone();
        engines.push(Engine::parse(name));
        i = i + 1;
    }
    Ok(Context { supported_engines: engines })
}

impl Context {
    /// The rendering engines the native layer reported as supported at
    /// initialization time.
    pub fn get_supported_engines(&self) -> (r: &Vec<Engine>)
        ensures
            r == &self.supported_engines,
    {
        &self.supported_engines
    }

    /// Starts building a window with the given geometry and an
    /// all-default surface configuration.
    pub fn build_window(&self, x: i32, y: i32, w: i32, h: i32) -> (b: WindowBuilder)
        ensures
            b.context.supported_engines@ == self.supported_engines@,
            b.engine is None,
            b.x == x && b.y == y && b.w == w && b.h == h,
            b.gl_config == GlConfig::spec_default(),
    {
        WindowBuilder {
            context: self.clone(),
            engine: None,
            x,
            y,
            w,
            h,
            gl_config: GlConfig::new(),
        }
    }
}

/// What the native layer would do and report, at the points where its
/// behaviour can vary. The host application fills this in from the real
/// native subsystem; a test fills it in by hand (including injecting a
/// creation failure).
pub struct NativeHost {
    /// Whether native window creation returns a handle (rather than the
    /// null failure signal).
    pub create_ok: bool,
    /// The identifier of the engine the native layer picks when the
    /// builder requests none: the first working engine.
    pub default_engine: String,
    pub screen_x: i32,
    pub screen_y: i32,
    pub screen_w: i32,
    pub screen_h: i32,
    pub screen_xdpi: i32,
    pub screen_ydpi: i32,
    /// Pointer position at creation time.
    pub pointer_x: i32,
    pub pointer_y: i32,
}

/// The observable per-window state of the native layer, as the wrapper
/// tracks it: the window/canvas/drawable handles' properties, and the
/// back-pointer registration that lets a native callback recover the
/// owning window.
pub struct NativeWindow {
    pub x: i32,
    pub y: i32,
    pub w: i32,
    pub h: i32,
    pub min_w: i32,
    pub min_h: i32,
    pub max_w: i32,
    pub max_h: i32,
    pub base_w: i32,
    pub base_h: i32,
    pub step_w: i32,
    pub step_h: i32,
    pub title: String,
    pub iconified: bool,
    pub borderless: bool,
    pub fullscreen: bool,
    pub maximized: bool,
    pub demand_attention: bool,
    pub ignore_events: bool,
    pub manual_render: bool,
    /// Whether the window itself is shown.
    pub visible: bool,
    /// Whether the drawable object is shown; set during creation.
    pub object_visible: bool,
    /// Whether the drawable object holds keyboard focus.
    pub focused: bool,
    /// Whether the default native input-event translation is registered.
    pub input_events_registered: bool,
    /// Whether the window's address is registered with the native layer
    /// as user data under the well-known key, so that callbacks can
    /// resolve the owning window. Established during creation; must
    /// remain in place while any native registration exists.
    pub back_pointer_registered: bool,
    pub screen_x: i32,
    pub screen_y: i32,
    pub screen_w: i32,
    pub screen_h: i32,
    pub screen_xdpi: i32,
    pub screen_ydpi: i32,
    pub pointer_x: i32,
    pub pointer_y: i32,
}

/// Accumulates a window's engine choice, geometry and surface
/// configuration; consumed exactly once by `create`.
pub struct WindowBuilder {
    pub context: Context,
    pub engine: Option<Engine>,
    pub x: i32,
    pub y: i32,
    pub w: i32,
    pub h: i32,
    pub gl_config: GlConfig,
}

impl WindowBuilder {
    /// Chooses the rendering engine for the window. If no engine is
    /// chosen, the native layer uses the first working one.
    pub fn with_engine(self, engine: Engine) -> (b: WindowBuilder)
        ensures
            b == (WindowBuilder { engine: Some(engine), ..self }),
    {
        let mut b = self;
        b.engine = Some(engine);
        b
    }

    /// Sets the surface color format.
    pub fn with_color_format(self, format: crate::config::ColorFormat) -> (b: WindowBuilder)
        ensures
            b == (WindowBuilder {
                gl_config: GlConfig { color_format: Some(format), ..self.gl_config },
                ..self
            }),
    {
        let mut b = self;
        b.gl_config.set_color_format(format);
        b
    }

    /// Sets the surface depth-buffer size; `None` requests no depth
    /// buffer.
    pub fn with_gl_depth(self, depth: Option<crate::config::DepthBits>) -> (b: WindowBuilder)
        ensures
            b == (WindowBuilder { gl_config: GlConfig { depth, ..self.gl_config }, ..self }),
    {
        let mut b = self;
        b.gl_config.set_depth(depth);
        b
    }

    /// Sets the surface stencil-buffer size; `None` requests no stencil
    /// buffer.
    pub fn with_gl_stencil(self, stencil: Option<crate::config::StencilBits>) -> (b: WindowBuilder)
        ensures
            b == (WindowBuilder { gl_config: GlConfig { stencil, ..self.gl_config }, ..self }),
    {
        let mut b = self;
        b.gl_config.set_stencil(stencil);
        b
    }

    /// Sets the surface option bits.
    pub fn with_gl_options(self, options: crate::config::GlOptions) -> (b: WindowBuilder)
        ensures
            b == (WindowBuilder { gl_config: GlConfig { options, ..self.gl_config }, ..self }),
    {
        let mut b = self;
        b.gl_config.set_options(options);
        b
    }

    /// Sets the surface multisample level; `None` requests no
    /// multisampling.
    pub fn with_gl_multisample(
        self,
        multisample: Option<crate::config::MultisampleBits>,
    ) -> (b: WindowBuilder)
        ensures
            b == (WindowBuilder { gl_config: GlConfig { multisample, ..self.gl_config }, ..self }),
    {
        let mut b = self;
        b.gl_config.set_multisample(multisample);
        b
    }

    /// Consumes the builder and attempts native window creation through
    /// `host`. On success the fixed post-creation sequence runs: the
    /// drawable object is resized to the requested dimensions, given
    /// keyboard focus and shown, and the window's address is registered
    /// as native user data under the well-known key so that future
    /// native callbacks can resolve it. On native failure the builder
    /// and its surface configuration are dropped and the single opaque
    /// creation error is returned; no partial window state escapes.
    pub fn create<E, I>(self, host: &NativeHost) -> (r: Result<Window<E, I>, ()>)
        ensures
            r is Ok <==> host.create_ok,
            !host.create_ok ==> r == Err::<Window<E, I>, ()>(()),
            r matches Ok(win) ==> {
                &&& win.wf()
                &&& win.context.supported_engines@ == self.context.supported_engines@
                &&& win.engine_name@ == match self.engine {
                    Some(e) => spec_name(e),
                    None => host.default_engine@,
                }
                &&& win.gl_config == self.gl_config
                &&& win.native.x == self.x && win.native.y == self.y
                &&& win.native.w == self.w && win.native.h == self.h
                &&& win.native.min_w == 0 && win.native.min_h == 0
                &&& win.native.max_w == 0 && win.native.max_h == 0
                &&& win.native.base_w == 0 && win.native.base_h == 0
                &&& win.native.step_w == 0 && win.native.step_h == 0
                &&& win.native.title@ == Seq::<char>::empty()
                &&& !win.native.iconified && !win.native.borderless && !win.native.fullscreen
                &&& !win.native.maximized && !win.native.demand_attention
                &&& !win.native.ignore_events && !win.native.manual_render
                &&& !win.native.visible
                &&& win.native.object_visible
                &&& win.native.focused
                &&& !win.native.input_events_registered
                &&& win.native.back_pointer_registered
                &&& win.native.screen_x == host.screen_x && win.native.screen_y == host.screen_y
                &&& win.native.screen_w == host.screen_w && win.native.screen_h == host.screen_h
                &&& win.native.screen_xdpi == host.screen_xdpi
                &&& win.native.screen_ydpi == host.screen_ydpi
                &&& win.native.pointer_x == host.pointer_x
                &&& win.native.pointer_y == host.pointer_y
                &&& forall|j: int|
                    0 <= j < EVENT_KIND_COUNT ==> #[trigger] win.event_handlers.slots@[j] is None
                &&& forall|j: int|
                    0 <= j < INPUT_KIND_COUNT ==> #[trigger] win.input_handlers.slots@[j] is None
                &&& forall|j: int| 0 <= j < EVENT_KIND_COUNT ==> !(#[trigger] win.event_regs.flags@[j])
                &&& forall|j: int| 0 <= j < INPUT_KIND_COUNT ==> !(#[trigger] win.input_regs.flags@[j])
            },
    {
        if !host.create_ok {
            return Err(());
        }
        let engine_name = match &self.engine {
            Some(e) => String::from_str(e.name()),
            None => host.default_engine.clone(),
        };
        let native = NativeWindow {
            x: self.x,
            y: self.y,
            w: self.w,
            h: self.h,
            min_w: 0,
            min_h: 0,
            max_w: 0,
            max_h: 0,
            base_w: 0,
            base_h: 0,
            step_w: 0,
            step_h: 0,
            title: String::new(),
            iconified: false,
            borderless: false,
            fullscreen: false,
            maximized: false,
            demand_attention: false,
            ignore_events: false,
            manual_render: false,
            visible: false,
            object_visible: true,
            focused: true,
            input_events_registered: false,
            back_pointer_registered: true,
            screen_x: host.screen_x,
            screen_y: host.screen_y,
            screen_w: host.screen_w,
            screen_h: host.screen_h,
            screen_xdpi: host.screen_xdpi,
            screen_ydpi: host.screen_ydpi,
            pointer_x: host.pointer_x,
            pointer_y: host.pointer_y,
        };
        Ok(
            Window {
                context: self.context,
                engine_name,
                gl_config: self.gl_config,
                native,
                event_handlers: HandlerTable::new(EVENT_KIND_COUNT),
                input_handlers: HandlerTable::new(INPUT_KIND_COUNT),
                event_regs: RegFlags::new(EVENT_KIND_COUNT),
                input_regs: RegFlags::new(INPUT_KIND_COUNT),
            },
        )
    }
}

/// A created window: the native window/canvas/drawable state it owns,
/// the surface configuration kept alive for its lifetime, and the two
/// callback vtables of the bridge, one for window-lifecycle events and
/// one for input events.
pub struct Window<E, I> {
    pub context: Context,
    /// The engine identifier the window was created with.
    pub engine_name: String,
    /// Kept alive for the window's lifetime, though no longer consulted
    /// after creation.
    pub gl_config: GlConfig,
    pub native: NativeWindow,
    pub event_handlers: HandlerTable<E>,
    pub input_handlers: HandlerTable<I>,
    pub event_regs: RegFlags,
    pub input_regs: RegFlags,
}

impl<E, I> Window<E, I> {
    /// Well-formedness of a window: the vtables and registration flags
    /// cover exactly the closed kind sets, the back pointer the native
    /// layer resolves the window by is in place, and every stored
    /// handler is backed by a live native registration. The converse is
    /// deliberately not required: a native registration may outlive its
    /// handler (the stale state the self-healing dispatch path
    /// reconciles).
    pub open spec fn wf(&self) -> bool {
        &&& self.event_handlers.slots@.len() == EVENT_KIND_COUNT
        &&& self.input_handlers.slots@.len() == INPUT_KIND_COUNT
        &&& self.event_regs.flags@.len() == EVENT_KIND_COUNT
        &&& self.input_regs.flags@.len() == INPUT_KIND_COUNT
        &&& self.native.back_pointer_registered
        &&& forall|j: int|
            0 <= j < EVENT_KIND_COUNT && #[trigger] self.event_handlers.slots@[j] is Some
                ==> self.event_regs.flags@[j]
        &&& forall|j: int|
            0 <= j < INPUT_KIND_COUNT && #[trigger] self.input_handlers.slots@[j] is Some
                ==> self.input_regs.flags@[j]
    }

    /// The well-known key the window's address is registered under as
    /// native user data.
    pub fn data_ptr_key() -> (r: &'static str)
        ensures
            r@ == "WINDOW_PTR"@,
    {
        "WINDOW_PTR"
    }

    /// The context this window was created from.
    pub fn get_context(&self) -> (r: &Context)
        ensures
            r == &self.context,
    {
        &self.context
    }

    /// Iconifies (minimizes) or restores the window.
    pub fn set_iconified(&mut self, on: bool)
        ensures
            *final(self) == (Window {
                native: NativeWindow { iconified: on, ..old(self).native },
                ..*old(self)
            }),
    {
        self.native.iconified = on;
    }

    /// Whether the window is iconified.
    pub fn is_iconified(&self) -> (r: bool)
        ensures
            r == self.native.iconified,
    {
        self.native.iconified
    }

    /// Removes or restores the window's border decoration.
    pub fn set_borderless(&mut self, on: bool)
        ensures
            *final(self) == (Window {
                native: NativeWindow { borderless: on, ..old(self).native },
                ..*old(self)
            }),
    {
        self.native.borderless = on;
    }

    /// Whether the window is borderless.
    pub fn is_borderless(&self) -> (r: bool)
        ensures
            r == self.native.borderless,
    {
        self.native.borderless
    }

    /// Puts the window into or out of fullscreen.
    pub fn set_fullscreen(&mut self, on: bool)
        ensures
            *final(self) == (Window {
                native: NativeWindow { fullscreen: on, ..old(self).native },
                ..*old(self)
            }),
    {
        self.native.fullscreen = on;
    }

    /// Whether the window is fullscreen.
    pub fn is_fullscreen(&self) -> (r: bool)
        ensures
            r == self.native.fullscreen,
    {
        self.native.fullscreen
    }

    /// Marks the window as demanding the user's attention, or clears
    /// the mark.
    pub fn set_demand_attention(&mut self, on: bool)
        ensures
            *final(self) == (Window {
                native: NativeWindow { demand_attention: on, ..old(self).native },
                ..*old(self)
            }),
    {
        self.native.demand_attention = on;
    }

    /// Whether the window demands the user's attention.
    pub fn demands_attention(&self) -> (r: bool)
        ensures
            r == self.native.demand_attention,
    {
        self.native.demand_attention
    }

    /// Makes the window ignore input events, or accept them again.
    pub fn set_ignore_events(&mut self, on: bool)
        ensures
            *final(self) == (Window {
                native: NativeWindow { ignore_events: on, ..old(self).native },
                ..*old(self)
            }),
    {
        self.native.ignore_events = on;
    }

    /// Whether the window ignores input events.
    pub fn ignores_events(&self) -> (r: bool)
        ensures
            r == self.native.ignore_events,
    {
        self.native.ignore_events
    }

    /// Maximizes or restores the window.
    pub fn set_maximized(&mut self, on: bool)
        ensures
            *final(self) == (Window {
                native: NativeWindow { maximized: on, ..old(self).native },
                ..*old(self)
            }),
    {
        self.native.maximized = on;
    }

    /// Whether the window is maximized.
    pub fn is_maximized(&self) -> (r: bool)
        ensures
            r == self.native.maximized,
    {
        self.native.maximized
    }

    /// Sets the window title.
    pub fn set_title(&mut self, title: &str)
        ensures
            final(self).native.title@ == title@,
            *final(self) == (Window {
                native: NativeWindow { title: final(self).native.title, ..old(self).native },
                ..*old(self)
            }),
    {
        self.native.title = String::from_str(title);
    }

    /// The window title, copied out.
    pub fn get_title(&self) -> (r: String)
        ensures
            r@ == self.native.title@,
    {
        self.native.title.clone()
    }

    /// The identifier of the rendering engine the window was created
    /// with, copied out.
    pub fn get_engine_name(&self) -> (r: String)
        ensures
            r@ == self.engine_name@,
    {
        self.engine_name.clone()
    }

    /// Shows the window.
    pub fn show(&mut self)
        ensures
            *final(self) == (Window {
                native: NativeWindow { visible: true, ..old(self).native },
                ..*old(self)
            }),
    {
        self.native.visible = true;
    }

    /// Hides the window.
    pub fn hide_window(&mut self)
        ensures
            *final(self) == (Window {
                native: NativeWindow { visible: false, ..old(self).native },
                ..*old(self)
            }),
    {
        self.native.visible = false;
    }

    /// Raises the window and gives it focus.
    pub fn activate(&mut self)
        ensures
            *final(self) == (Window {
                native: NativeWindow { focused: true, ..old(self).native },
                ..*old(self)
            }),
    {
        self.native.focused = true;
    }

    /// The window position.
    pub fn get_position(&self) -> (r: (i32, i32))
        ensures
            r.0 == self.native.x && r.1 == self.native.y,
    {
        (self.native.x, self.native.y)
    }

    /// The window size.
    pub fn get_size(&self) -> (r: (i32, i32))
        ensures
            r.0 == self.native.w && r.1 == self.native.h,
    {
        (self.native.w, self.native.h)
    }

    /// The window's minimum size.
    pub fn get_size_min(&self) -> (r: (i32, i32))
        ensures
            r.0 == self.native.min_w && r.1 == self.native.min_h,
    {
        (self.native.min_w, self.native.min_h)
    }

    /// The window's maximum size.
    pub fn get_size_max(&self) -> (r: (i32, i32))
        ensures
            r.0 == self.native.max_w && r.1 == self.native.max_h,
    {
        (self.native.max_w, self.native.max_h)
    }

    /// The window's base size.
    pub fn get_size_base(&self) -> (r: (i32, i32))
        ensures
            r.0 == self.native.base_w && r.1 == self.native.base_h,
    {
        (self.native.base_w, self.native.base_h)
    }

    /// The window's size-step increments.
    pub fn get_size_step(&self) -> (r: (i32, i32))
        ensures
            r.0 == self.native.step_w && r.1 == self.native.step_h,
    {
        (self.native.step_w, self.native.step_h)
    }

    /// Sets the window's minimum size.
    pub fn set_size_min(&mut self, w: i32, h: i32)
        ensures
            *final(self) == (Window {
                native: NativeWindow { min_w: w, min_h: h, ..old(self).native },
                ..*old(self)
            }),
    {
        self.native.min_w = w;
        self.native.min_h = h;
    }

    /// Sets the window's maximum size.
    pub fn set_size_max(&mut self, w: i32, h: i32)
        ensures
            *final(self) == (Window {
                native: NativeWindow { max_w: w, max_h: h, ..old(self).native },
                ..*old(self)
            }),
    {
        self.native.max_w = w;
        self.native.max_h = h;
    }

    /// Sets the window's base size.
    pub fn set_size_base(&mut self, w: i32, h: i32)
        ensures
            *final(self) == (Window {
                native: NativeWindow { base_w: w, base_h: h, ..old(self).native },
                ..*old(self)
            }),
    {
        self.native.base_w = w;
        self.native.base_h = h;
    }

    /// Sets the window's size-step increments.
    pub fn set_size_step(&mut self, w: i32, h: i32)
        ensures
            *final(self) == (Window {
                native: NativeWindow { step_w: w, step_h: h, ..old(self).native },
                ..*old(self)
            }),
    {
        self.native.step_w = w;
        self.native.step_h = h;
    }

    /// Switches manual rendering on or off: with it on, the native
    /// layer renders only when asked to.
    pub fn set_manual_render(&mut self, on: bool)
        ensures
            *final(self) == (Window {
                native: NativeWindow { manual_render: on, ..old(self).native },
                ..*old(self)
            }),
    {
        self.native.manual_render = on;
    }

    /// Whether manual rendering is on.
    pub fn is_manual_render(&self) -> (r: bool)
        ensures
            r == self.native.manual_render,
    {
        self.native.manual_render
    }

    /// Asks the native layer to render the window now. Rendering itself
    /// happens outside this model; no observable window state changes.
    pub fn manual_render(&mut self)
        ensures
            *final(self) == *old(self),
    {
    }

    /// Registers the default native input-event translation for the
    /// window.
    pub fn input_event_register(&mut self)
        ensures
            *final(self) == (Window {
                native: NativeWindow { input_events_registered: true, ..old(self).native },
                ..*old(self)
            }),
    {
        self.native.input_events_registered = true;
    }

    /// Unregisters the default native input-event translation.
    pub fn input_event_unregister(&mut self)
        ensures
            *final(self) == (Window {
                native: NativeWindow { input_events_registered: false, ..old(self).native },
                ..*old(self)
            }),
    {
        self.native.input_events_registered = false;
    }

    /// The position of the screen the window is on.
    pub fn get_screen_position(&self) -> (r: (i32, i32))
        ensures
            r.0 == self.native.screen_x && r.1 == self.native.screen_y,
    {
        (self.native.screen_x, self.native.screen_y)
    }

    /// The size of the screen the window is on.
    pub fn get_screen_size(&self) -> (r: (i32, i32))
        ensures
            r.0 == self.native.screen_w && r.1 == self.native.screen_h,
    {
        (self.native.screen_w, self.native.screen_h)
    }

    /// The dots-per-inch of the screen the window is on.
    pub fn get_screen_dpi(&self) -> (r: (i32, i32))
        ensures
            r.0 == self.native.screen_xdpi && r.1 == self.native.screen_ydpi,
    {
        (self.native.screen_xdpi, self.native.screen_ydpi)
    }

    /// The pointer position relative to the window.
    pub fn get_pointer_position(&self) -> (r: (i32, i32))
        ensures
            r.0 == self.native.pointer_x && r.1 == self.native.pointer_y,
    {
        (self.native.pointer_x, self.native.pointer_y)
    }

    /// Moves the pointer to the given position relative to the window.
    pub fn warp_pointer(&mut self, x: i32, y: i32)
        ensures
            *final(self) == (Window {
                native: NativeWindow { pointer_x: x, pointer_y: y, ..old(self).native },
                ..*old(self)
            }),
    {
        self.native.pointer_x = x;
        self.native.pointer_y = y;
    }

    /// Registers `handler` for the window-lifecycle event kind `kind`:
    /// (re-)registers the native trampoline for the kind — idempotent,
    /// re-registering overwrites, it does not stack — and stores the
    /// handler in the kind's vtable slot, handing back whatever handler
    /// previously occupied it.
    pub fn set_event_callback(&mut self, kind: EventKind, handler: E) -> (prev: Option<E>)
        requires
            old(self).wf(),
        ensures
            final(self).wf(),
            prev == old(self).event_handlers.slots@[event_kind_index(kind)],
            final(self).event_handlers.slots@ == old(self).event_handlers.slots@.update(
                event_kind_index(kind),
                Some(handler),
            ),
            final(self).event_regs.flags@ == old(self).event_regs.flags@.update(
                event_kind_index(kind),
                true,
            ),
            final(self).native == old(self).native,
            final(self).context == old(self).context,
            final(self).engine_name == old(self).engine_name,
            final(self).gl_config == old(self).gl_config,
            final(self).input_handlers == old(self).input_handlers,
            final(self).input_regs == old(self).input_regs,
    {
        let i = kind.index();
        self.event_regs.set(i);
        self.event_handlers.replace(i, handler)
    }

    /// Unregisters the handler for the window-lifecycle event kind
    /// `kind`: passes the "no callback" sentinel to the native layer
    /// for the kind, and removes and returns the stored handler, if
    /// any.
    pub fn unset_event_callback(&mut self, kind: EventKind) -> (prev: Option<E>)
        requires
            old(self).wf(),
        ensures
            final(self).wf(),
            prev == old(self).event_handlers.slots@[event_kind_index(kind)],
            final(self).event_handlers.slots@ == old(self).event_handlers.slots@.update(
                event_kind_index(kind),
                None,
            ),
            final(self).event_regs.flags@ == old(self).event_regs.flags@.update(
                event_kind_index(kind),
                false,
            ),
            final(self).native == old(self).native,
            final(self).context == old(self).context,
            final(self).engine_name == old(self).engine_name,
            final(self).gl_config == old(self).gl_config,
            final(self).input_handlers == old(self).input_handlers,
            final(self).input_regs == old(self).input_regs,
    {
        let i = kind.index();
        self.event_regs.clear(i);
        self.event_handlers.take(i)
    }

    /// The trampoline dispatch path for a window-lifecycle event, as
    /// the native layer invokes it: the owning window has been resolved
    /// through the registered back pointer, and `kind` triggered. If a
    /// handler occupies the kind's slot it is invoked, exactly once;
    /// if the slot is empty — the handler may have been unset between
    /// the native registration and this invocation — no handler runs
    /// and the stale native registration for the kind is de-registered
    /// instead, so the native layer's registration state reconciles
    /// lazily with the vtable.
    pub fn feed_event(&mut self, kind: EventKind) -> (outcome: DispatchOutcome)
        where
            E: EventHandler,
        requires
            old(self).wf(),
        ensures
            final(self).wf(),
            (outcome == DispatchOutcome::Dispatched) == dispatches(
                old(self).event_handlers.slots@,
                event_kind_index(kind),
            ),
            (final(self).event_handlers.slots@[event_kind_index(kind)] is Some) == (old(
                self,
            ).event_handlers.slots@[event_kind_index(kind)] is Some),
            final(self).event_handlers.slots@.len() == EVENT_KIND_COUNT,
            forall|j: int|
                0 <= j < EVENT_KIND_COUNT && j != event_kind_index(kind)
                    ==> #[trigger] final(self).event_handlers.slots@[j]
                    == old(self).event_handlers.slots@[j],
            outcome == DispatchOutcome::Healed ==> {
                &&& final(self).event_handlers.slots@ == old(self).event_handlers.slots@
                &&& final(self).event_regs.flags@ == old(self).event_regs.flags@.update(
                    event_kind_index(kind),
                    false,
                )
            },
            outcome == DispatchOutcome::Dispatched ==> final(self).event_regs.flags@ == old(
                self,
            ).event_regs.flags@,
            final(self).native == old(self).native,
            final(self).context == old(self).context,
            final(self).engine_name == old(self).engine_name,
            final(self).gl_config == old(self).gl_config,
            final(self).input_handlers == old(self).input_handlers,
            final(self).input_regs == old(self).input_regs,
    {
        let i = kind.index();
        let slot = self.event_handlers.take(i);
        match slot {
            Some(mut handler) => {
                handler.on_event(kind);
                self.event_handlers.put(i, handler);
                DispatchOutcome::Dispatched
            },
            None => {
                self.event_regs.clear(i);
                proof {
                    assert(self.event_handlers.slots@ =~= old(self).event_handlers.slots@);
                }
                DispatchOutcome::Healed
            },
        }
    }

    /// Registers `handler` for the input-event kind `kind`: registers
    /// the native trampoline for the kind with the window's address as
    /// its opaque payload — the address the back-pointer registration
    /// keeps stable — and stores the handler in the kind's vtable slot,
    /// handing back whatever handler previously occupied it.
    pub fn set_input_callback(&mut self, kind: InputKind, handler: I) -> (prev: Option<I>)
        requires
            old(self).wf(),
        ensures
            final(self).wf(),
            prev == old(self).input_handlers.slots@[input_kind_index(kind)],
            final(self).input_handlers.slots@ == old(self).input_handlers.slots@.update(
                input_kind_index(kind),
                Some(handler),
            ),
            final(self).input_regs.flags@ == old(self).input_regs.flags@.update(
                input_kind_index(kind),
                true,
            ),
            final(self).native == old(self).native,
            final(self).context == old(self).context,
            final(self).engine_name == old(self).engine_name,
            final(self).gl_config == old(self).gl_config,
            final(self).event_handlers == old(self).event_handlers,
            final(self).event_regs == old(self).event_regs,
    {
        let i = kind.index();
        self.input_regs.set(i);
        self.input_handlers.replace(i, handler)
    }

    /// Unregisters the handler for the input-event kind `kind`:
    /// de-registers the native trampoline for the kind, and removes and
    /// returns the stored handler, if any.
    pub fn unset_input_callback(&mut self, kind: InputKind) -> (prev: Option<I>)
        requires
            old(self).wf(),
        ensures
            final(self).wf(),
            prev == old(self).input_handlers.slots@[input_kind_index(kind)],
            final(self).input_handlers.slots@ == old(self).input_handlers.slots@.update(
                input_kind_index(kind),
                None,
            ),
            final(self).input_regs.flags@ == old(self).input_regs.flags@.update(
                input_kind_index(kind),
                false,
            ),
            final(self).native == old(self).native,
            final(self).context == old(self).context,
            final(self).engine_name == old(self).engine_name,
            final(self).gl_config == old(self).gl_config,
            final(self).event_handlers == old(self).event_handlers,
            final(self).event_regs == old(self).event_regs,
    {
        let i = kind.index();
        self.input_regs.clear(i);
        self.input_handlers.take(i)
    }

    /// The trampoline dispatch path for an input event, as the native
    /// layer invokes it: the owning window has been recovered from the
    /// opaque payload pointer, and `event` describes the trigger. If a
    /// handler occupies the slot of the event's kind it is invoked,
    /// exactly once, with the event payload; if the slot is empty, no
    /// handler runs and the stale native registration for the kind is
    /// de-registered instead.
    pub fn feed_input(&mut self, event: &InputEvent) -> (outcome: DispatchOutcome)
        where
            I: InputHandler,
        requires
            old(self).wf(),
        ensures
            final(self).wf(),
            (outcome == DispatchOutcome::Dispatched) == dispatches(
                old(self).input_handlers.slots@,
                input_kind_index(spec_input_event_kind(event)),
            ),
            (final(self).input_handlers.slots@[input_kind_index(spec_input_event_kind(event))]
                is Some) == (old(self).input_handlers.slots@[input_kind_index(
                spec_input_event_kind(event),
            )] is Some),
            final(self).input_handlers.slots@.len() == INPUT_KIND_COUNT,
            forall|j: int|
                0 <= j < INPUT_KIND_COUNT && j != input_kind_index(spec_input_event_kind(event))
                    ==> #[trigger] final(self).input_handlers.slots@[j]
                    == old(self).input_handlers.slots@[j],
            outcome == DispatchOutcome::Healed ==> {
                &&& final(self).input_handlers.slots@ == old(self).input_handlers.slots@
                &&& final(self).input_regs.flags@ == old(self).input_regs.flags@.update(
                    input_kind_index(spec_input_event_kind(event)),
                    false,
                )
            },
            outcome == DispatchOutcome::Dispatched ==> final(self).input_regs.flags@ == old(
                self,
            ).input_regs.flags@,
            final(self).native == old(self).native,
            final(self).context == old(self).context,
            final(self).engine_name == old(self).engine_name,
            final(self).gl_config == old(self).gl_config,
            final(self).event_handlers == old(self).event_handlers,
            final(self).event_regs == old(self).event_regs,
    {
        let i = event.kind().index();
        let slot = self.input_handlers.take(i);
        match slot {
            Some(mut handler) => {
                handler.on_input(event);
                self.input_handlers.put(i, handler);
                DispatchOutcome::Dispatched
            },
            None => {
                self.input_regs.clear(i);
                proof {
                    assert(self.input_handlers.slots@ =~= old(self).input_handlers.slots@);
                }
                DispatchOutcome::Healed
            },
        }
    }
}

} // verus!
