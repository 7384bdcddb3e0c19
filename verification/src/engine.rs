//! Registry of rendering-engine identifiers.
//!
//! The native layer identifies its rendering engines by short strings. The
//! wrapper keeps a closed set of identifiers it knows by name, plus an open
//! `Unknown` variant that preserves any identifier it does not recognize, so
//! that an engine added to the native layer later still round-trips through
//! this type unchanged.

use vstd::prelude::*;
use vstd::string::StringExecFns;

verus! {

/// A rendering engine identifier.
#[derive(Debug)]
pub enum Engine {
    Fb,
    OpenGlX11,
    SoftwareX11,
    Buffer,
    Ews,
    OpenglCocoa,
    Psl1ght,
    OpenglSdl,
    Sdl,
    WaylandShm,
    WaylandEgl,
    SoftwareGdi,
    SoftwareDdraw,
    Direct3d,
    OpenGlGlew,
    /// An engine this wrapper does not recognize by name; the original
    /// identifier string is kept so that it can be handed back to the
    /// native layer verbatim.
    Unknown(String),
}

/// Whether `s` is one of the engine identifiers of the closed set.
pub open spec fn is_known_engine_name(s: Seq<char>) -> bool {
    ||| s == "fb"@
    ||| s == "opengl_x11"@
    ||| s == "software_x11"@
    ||| s == "buffer"@
    ||| s == "ews"@
    ||| s == "opengl_cocoa"@
    ||| s == "psl1ght"@
    ||| s == "opengl_sdl"@
    ||| s == "sdl"@
    ||| s == "wayland_shm"@
    ||| s == "wayland_egl"@
    ||| s == "software_gdi"@
    ||| s == "software_ddraw"@
    ||| s == "direct3d"@
    ||| s == "opengl_glew"@
}

/// The variant a known engine identifier maps to. Only meaningful when
/// `is_known_engine_name(s)` holds; the final branch is never reached then.
pub open spec fn known_engine_of(s: Seq<char>) -> Engine {
    if s == "fb"@ {
        Engine::Fb
    } else if s == "opengl_x11"@ {
        Engine::OpenGlX11
    } else if s == "software_x11"@ {
        Engine::SoftwareX11
    } else if s == "buffer"@ {
        Engine::Buffer
    } else if s == "ews"@ {
        Engine::Ews
    } else if s == "opengl_cocoa"@ {
        Engine::OpenglCocoa
    } else if s == "psl1ght"@ {
        Engine::Psl1ght
    } else if s == "opengl_sdl"@ {
        Engine::OpenglSdl
    } else if s == "sdl"@ {
        Engine::Sdl
    } else if s == "wayland_shm"@ {
        Engine::WaylandShm
    } else if s == "wayland_egl"@ {
        Engine::WaylandEgl
    } else if s == "software_gdi"@ {
        Engine::SoftwareGdi
    } else if s == "software_ddraw"@ {
        Engine::SoftwareDdraw
    } else if s == "direct3d"@ {
        Engine::Direct3d
    } else {
        Engine::OpenGlGlew
    }
}

/// The identifier string of an engine, as the native layer spells it.
pub open spec fn spec_name(e: Engine) -> Seq<char> {
    match e {
        Engine::Fb => "fb"@,
        Engine::OpenGlX11 => "opengl_x11"@,
        Engine::SoftwareX11 => "software_x11"@,
        Engine::Buffer => "buffer"@,
        Engine::Ews => "ews"@,
        Engine::OpenglCocoa => "opengl_cocoa"@,
        Engine::Psl1ght => "psl1ght"@,
        Engine::OpenglSdl => "opengl_sdl"@,
        Engine::Sdl => "sdl"@,
        Engine::WaylandShm => "wayland_shm"@,
        Engine::WaylandEgl => "wayland_egl"@,
        Engine::SoftwareGdi => "software_gdi"@,
        Engine::SoftwareDdraw => "software_ddraw"@,
        Engine::Direct3d => "direct3d"@,
        Engine::OpenGlGlew => "opengl_glew"@,
        Engine::Unknown(s) => s@,
    }
}

impl Engine {
    /// Matches `src` against the closed identifier set, case-sensitively.
    /// An unmatched identifier is never an error: it is preserved in the
    /// `Unknown` variant.
    pub fn parse(src: String) -> (e: Engine)
        ensures
            is_known_engine_name(src@) ==> e == known_engine_of(src@),
            !is_known_engine_name(src@) ==> e == Engine::Unknown(src),
            spec_name(e) == src@,
    {
        let e = if src == String::from_str("fb") {
            Engine::Fb
        } else if src == String::from_str("opengl_x11") {
            Engine::OpenGlX11
        } else if src == String::from_str("software_x11") {
            Engine::SoftwareX11
        } else if src == String::from_str("buffer") {
            Engine::Buffer
        } else if src == String::from_str("ews") {
            Engine::Ews
        } else if src == String::from_str("opengl_cocoa") {
            Engine::OpenglCocoa
        } else if src == String::from_str("psl1ght") {
            Engine::Psl1ght
        } else if src == String::from_str("opengl_sdl") {
            Engine::OpenglSdl
        } else if src == String::from_str("sdl") {
            Engine::Sdl
        } else if src == String::from_str("wayland_shm") {
            Engine::WaylandShm
        } else if src == String::from_str("wayland_egl") {
            Engine::WaylandEgl
        } else if src == String::from_str("software_gdi") {
            Engine::SoftwareGdi
        } else if src == String::from_str("software_ddraw") {
            Engine::SoftwareDdraw
        } else if src == String::from_str("direct3d") {
            Engine::Direct3d
        } else if src == String::from_str("opengl_glew") {
            Engine::OpenGlGlew
        } else {
            Engine::Unknown(src)
        };
        e
    }

    /// The inverse mapping of `parse`: the identifier string of this engine.
    /// For `Unknown`, the stored original string.
    pub fn name(&self) -> (r: &str)
        ensures
            r@ == spec_name(*self),
    {
        match self {
            Engine::Fb => "fb",
            Engine::OpenGlX11 => "opengl_x11",
            Engine::SoftwareX11 => "software_x11",
            Engine::Buffer => "buffer",
            Engine::Ews => "ews",
            Engine::OpenglCocoa => "opengl_cocoa",
            Engine::Psl1ght => "psl1ght",
            Engine::OpenglSdl => "opengl_sdl",
            Engine::Sdl => "sdl",
            Engine::WaylandShm => "wayland_shm",
            Engine::WaylandEgl => "wayland_egl",
            Engine::SoftwareGdi => "software_gdi",
            Engine::SoftwareDdraw => "software_ddraw",
            Engine::Direct3d => "direct3d",
            Engine::OpenGlGlew => "opengl_glew",
            Engine::Unknown(s) => s.as_str(),
        }
    }
}

impl Clone for Engine {
    fn clone(&self) -> (r: Engine)
        ensures
            r == *self,
    {
        match self {
            Engine::Fb => Engine::Fb,
            Engine::OpenGlX11 => Engine::OpenGlX11,
            Engine::SoftwareX11 => Engine::SoftwareX11,
            Engine::Buffer => Engine::Buffer,
            Engine::Ews => Engine::Ews,
            Engine::OpenglCocoa => Engine::OpenglCocoa,
            Engine::Psl1ght => Engine::Psl1ght,
            Engine::OpenglSdl => Engine::OpenglSdl,
            Engine::Sdl => Engine::Sdl,
            Engine::WaylandShm => Engine::WaylandShm,
            Engine::WaylandEgl => Engine::WaylandEgl,
            Engine::SoftwareGdi => Engine::SoftwareGdi,
            Engine::SoftwareDdraw => Engine::SoftwareDdraw,
            Engine::Direct3d => Engine::Direct3d,
            Engine::OpenGlGlew => Engine::OpenGlGlew,
            Engine::Unknown(s) => Engine::Unknown(s.clone()),
        }
    }
}

impl PartialEq for Engine {
    fn eq(&self, other: &Engine) -> (r: bool) {
        match (self, other) {
            (Engine::Fb, Engine::Fb) => true,
            (Engine::OpenGlX11, Engine::OpenGlX11) => true,
            (Engine::SoftwareX11, Engine::SoftwareX11) => true,
            (Engine::Buffer, Engine::Buffer) => true,
            (Engine::Ews, Engine::Ews) => true,
            (Engine::OpenglCocoa, Engine::OpenglCocoa) => true,
            (Engine::Psl1ght, Engine::Psl1ght) => true,
            (Engine::OpenglSdl, Engine::OpenglSdl) => true,
            (Engine::Sdl, Engine::Sdl) => true,
            (Engine::WaylandShm, Engine::WaylandShm) => true,
            (Engine::WaylandEgl, Engine::WaylandEgl) => true,
            (Engine::SoftwareGdi, Engine::SoftwareGdi) => true,
            (Engine::SoftwareDdraw, Engine::SoftwareDdraw) => true,
            (Engine::Direct3d, Engine::Direct3d) => true,
            (Engine::OpenGlGlew, Engine::OpenGlGlew) => true,
            (Engine::Unknown(a), Engine::Unknown(b)) => *a == *b,
            _ => false,
        }
    }
}

impl vstd::std_specs::cmp::PartialEqSpecImpl for Engine {
    open spec fn obeys_eq_spec() -> bool {
        true
    }

    open spec fn eq_spec(&self, other: &Engine) -> bool {
        match (self, other) {
            (Engine::Fb, Engine::Fb) => true,
            (Engine::OpenGlX11, Engine::OpenGlX11) => true,
            (Engine::SoftwareX11, Engine::SoftwareX11) => true,
            (Engine::Buffer, Engine::Buffer) => true,
            (Engine::Ews, Engine::Ews) => true,
            (Engine::OpenglCocoa, Engine::OpenglCocoa) => true,
            (Engine::Psl1ght, Engine::Psl1ght) => true,
            (Engine::OpenglSdl, Engine::OpenglSdl) => true,
            (Engine::Sdl, Engine::Sdl) => true,
            (Engine::WaylandShm, Engine::WaylandShm) => true,
            (Engine::WaylandEgl, Engine::WaylandEgl) => true,
            (Engine::SoftwareGdi, Engine::SoftwareGdi) => true,
            (Engine::SoftwareDdraw, Engine::SoftwareDdraw) => true,
            (Engine::Direct3d, Engine::Direct3d) => true,
            (Engine::OpenGlGlew, Engine::OpenGlGlew) => true,
            (Engine::Unknown(a), Engine::Unknown(b)) => a@ == b@,
            _ => false,
        }
    }
}

/// Every known engine identifier round-trips: parsing it yields the matching
/// variant (never `Unknown`), and that variant's name is the identifier again.
pub proof fn lemma_known_name_round_trip(s: Seq<char>)
    requires
        is_known_engine_name(s),
    ensures
        !(known_engine_of(s) is Unknown),
        spec_name(known_engine_of(s)) == s,
{
}

/// Every variant of the closed set round-trips through its name: parsing the
/// name of a non-`Unknown` engine yields that engine again.
#[verifier::rlimit(100)]
pub proof fn lemma_engine_name_round_trip(e: Engine)
    requires
        !(e is Unknown),
    ensures
        is_known_engine_name(spec_name(e)),
        known_engine_of(spec_name(e)) == e,
{
    reveal_strlit("fb");
    reveal_strlit("opengl_x11");
    reveal_strlit("software_x11");
    reveal_strlit("buffer");
    reveal_strlit("ews");
    reveal_strlit("opengl_cocoa");
    reveal_strlit("psl1ght");
    reveal_strlit("opengl_sdl");
    reveal_strlit("sdl");
    reveal_strlit("wayland_shm");
    reveal_strlit("wayland_egl");
    reveal_strlit("software_gdi");
    reveal_strlit("software_ddraw");
    reveal_strlit("direct3d");
    reveal_strlit("opengl_glew");
    // Lengths distinguish most identifiers of the closed set from each other.
    assert("fb"@.len() == 2);
    assert("opengl_x11"@.len() == 10);
    assert("software_x11"@.len() == 12);
    assert("buffer"@.len() == 6);
    assert("ews"@.len() == 3);
    assert("opengl_cocoa"@.len() == 12);
    assert("psl1ght"@.len() == 7);
    assert("opengl_sdl"@.len() == 10);
    assert("sdl"@.len() == 3);
    assert("wayland_shm"@.len() == 11);
    assert("wayland_egl"@.len() == 11);
    assert("software_gdi"@.len() == 12);
    assert("software_ddraw"@.len() == 14);
    assert("direct3d"@.len() == 8);
    assert("opengl_glew"@.len() == 11);
    // Identifiers of equal length differ at some position.
    assert("opengl_sdl"@[7] == 's' && "opengl_x11"@[7] == 'x');
    assert("sdl"@[0] == 's' && "ews"@[0] == 'e');
    assert("opengl_cocoa"@[0] == 'o' && "software_x11"@[0] == 's');
    assert("software_gdi"@[9] == 'g' && "software_x11"@[9] == 'x');
    assert("wayland_egl"@[8] == 'e' && "wayland_shm"@[8] == 's');
    assert("opengl_glew"@[0] == 'o' && "wayland_shm"@[0] == 'w' && "wayland_egl"@[0] == 'w');
}

/// An unrecognized identifier is preserved exactly: the name of the
/// `Unknown` engine it parses to is the original string.
pub proof fn lemma_unknown_name_preserved(src: String)
    requires
        !is_known_engine_name(src@),
    ensures
        spec_name(Engine::Unknown(src)) == src@,
{
}

} // verus!
