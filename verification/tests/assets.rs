use sprite_batch::animation::Animation;
use sprite_batch::resources::Error;
use sprite_batch::resources::Resources;
use sprite_batch::shader::ShaderKind;
use sprite_batch::shader::ShaderParseError;
use sprite_batch::shader::find_first_from;
use sprite_batch::shader::from_single_source;
use sprite_batch::shader::is_single_source_name;
use sprite_batch::shader::shader_kind_for_name;
use sprite_batch::texture::Texture;

#[test]
fn resource_path_joins_root_and_name() {
    let path = Resources::resource_name_to_path("root", "a/b/c.png");
    assert_eq!(path, "root/a/b/c.png");
}

#[test]
fn resources_keep_their_root() {
    let res = Resources::from_root_path(String::from("assets"));
    assert_eq!(res.root_path, "assets");
}

#[test]
fn cstring_bytes_without_nul_pass() {
    let bytes = vec![104u8, 105u8];
    assert!(Resources::check_cstring_bytes(&bytes).is_ok());
    let empty: Vec<u8> = Vec::new();
    assert!(Resources::check_cstring_bytes(&empty).is_ok());
}

#[test]
fn cstring_bytes_with_nul_are_refused() {
    let bytes = vec![104u8, 0u8, 105u8];
    let r = Resources::check_cstring_bytes(&bytes);
    assert!(matches!(r, Err(Error::FileContainsNil)));
}

#[test]
fn find_first_from_reports_first_occurrence() {
    let s = b"abcabc".to_vec();
    let pat = b"bc".to_vec();
    assert_eq!(find_first_from(&s, &pat, 0), Some(1));
    assert_eq!(find_first_from(&s, &pat, 2), Some(4));
    assert_eq!(find_first_from(&s, &pat, 5), None);
    let missing = b"zz".to_vec();
    assert_eq!(find_first_from(&s, &missing, 0), None);
    // the empty pattern occurs everywhere, even at the very end
    let empty: Vec<u8> = Vec::new();
    assert_eq!(find_first_from(&s, &empty, 2), Some(2));
    assert_eq!(find_first_from(&s, &empty, 6), Some(6));
    assert_eq!(find_first_from(&s, &empty, 7), None);
}

#[test]
fn single_source_splits_into_stages() {
    let source = b"!vert\nVS\n!frag\nFS".to_vec();
    let sources = from_single_source(&source).unwrap();
    assert_eq!(sources.vertex, b"\nVS".to_vec());
    assert_eq!(sources.fragment, b"\nFS".to_vec());
}

#[test]
fn single_source_fragment_first_also_splits() {
    let source = b"!frag\nFS code\n!vert\nVS code".to_vec();
    let sources = from_single_source(&source).unwrap();
    assert_eq!(sources.vertex, b"\nVS code".to_vec());
    assert_eq!(sources.fragment, b"\nFS code".to_vec());
}

#[test]
fn single_source_without_fragment_directive_is_refused() {
    let source = b"!vert\nVS".to_vec();
    let r = from_single_source(&source);
    assert!(matches!(r, Err(ShaderParseError::MissingFragmentDirective)));
}

#[test]
fn single_source_without_vertex_directive_is_refused() {
    let source = b"!frag\nFS".to_vec();
    let r = from_single_source(&source);
    assert!(matches!(r, Err(ShaderParseError::MissingVertexDirective)));
}

#[test]
fn single_source_without_any_directive_reports_fragment_first() {
    let source = b"no directives here".to_vec();
    let r = from_single_source(&source);
    assert!(matches!(r, Err(ShaderParseError::MissingFragmentDirective)));
}

#[test]
fn shader_kind_follows_the_extension() {
    assert!(matches!(
        shader_kind_for_name(&b"shaders/sprite.vert".to_vec()),
        Some(ShaderKind::Vertex)
    ));
    assert!(matches!(
        shader_kind_for_name(&b"shaders/sprite.frag".to_vec()),
        Some(ShaderKind::Fragment)
    ));
    assert!(shader_kind_for_name(&b"shaders/sprite.glsl".to_vec()).is_none());
    assert!(is_single_source_name(&b"shaders/sprite.glsl".to_vec()));
    assert!(!is_single_source_name(&b"shaders/sprite.vert".to_vec()));
}

#[test]
fn animation_advances_after_its_frame_duration() {
    let frames = vec![Texture::new(1, 8, 8), Texture::new(2, 8, 8), Texture::new(3, 8, 8)];
    let mut anim = Animation::new(frames, 100, 1000);
    // not yet: only 99 ms elapsed
    let t = anim.get_frame(1099);
    assert_eq!(t.id(), 1);
    assert_eq!(anim.current_frame, 0);
    // a full duration elapsed: advance and remember the time
    let t = anim.get_frame(1100);
    assert_eq!(t.id(), 2);
    assert_eq!(anim.current_frame, 1);
    assert_eq!(anim.last_frame_time_ms, 1100);
    // advances wrap past the last frame
    let t = anim.get_frame(1200);
    assert_eq!(t.id(), 3);
    let t = anim.get_frame(1300);
    assert_eq!(t.id(), 1);
    assert_eq!(anim.current_frame, 0);
}
