use efl::Engine;

fn known_pairs() -> Vec<(&'static str, Engine)> {
    vec![
        ("fb", Engine::Fb),
        ("opengl_x11", Engine::OpenGlX11),
        ("software_x11", Engine::SoftwareX11),
        ("buffer", Engine::Buffer),
        ("ews", Engine::Ews),
        ("opengl_cocoa", Engine::OpenglCocoa),
        ("psl1ght", Engine::Psl1ght),
        ("opengl_sdl", Engine::OpenglSdl),
        ("sdl", Engine::Sdl),
        ("wayland_shm", Engine::WaylandShm),
        ("wayland_egl", Engine::WaylandEgl),
        ("software_gdi", Engine::SoftwareGdi),
        ("software_ddraw", Engine::SoftwareDdraw),
        ("direct3d", Engine::Direct3d),
        ("opengl_glew", Engine::OpenGlGlew),
    ]
}

#[test]
fn known_engine_names_round_trip() {
    for (name, variant) in known_pairs() {
        let parsed = Engine::parse(String::from(name));
        assert_eq!(parsed, variant);
        assert_eq!(parsed.name(), name);
    }
}

#[test]
fn known_engine_variants_round_trip() {
    for (name, variant) in known_pairs() {
        assert_eq!(Engine::parse(String::from(variant.name())), variant);
        assert_eq!(variant.name(), name);
    }
}

#[test]
fn unknown_engine_preserves_name() {
    for name in ["", "quartz", "OPENGL_X11", "fb ", " sdl", "opengl", "weird engine"] {
        let parsed = Engine::parse(String::from(name));
        assert_eq!(parsed, Engine::Unknown(String::from(name)));
        assert_eq!(parsed.name(), name);
    }
}

#[test]
fn parse_is_case_sensitive() {
    let parsed = Engine::parse(String::from("Fb"));
    assert!(matches!(parsed, Engine::Unknown(_)));
    assert_eq!(parsed.name(), "Fb");
}

#[test]
fn engine_clone_preserves_value() {
    let e = Engine::Unknown(String::from("custom"));
    let c = e.clone();
    assert_eq!(e, c);
    assert_eq!(c.name(), "custom");
    let k = Engine::WaylandEgl;
    assert_eq!(k.clone(), Engine::WaylandEgl);
}
