use psionic::maths::{Float3, Transform};
use psionic::templates::{strip_byte_order_mark, MainCameraSettings, ShaderTemplate};

#[test]
fn byte_order_mark_is_stripped_once() {
    assert_eq!(strip_byte_order_mark("\u{FEFF}void main() {}".to_string()), "void main() {}");
    assert_eq!(strip_byte_order_mark("void main() {}".to_string()), "void main() {}");
    assert_eq!(strip_byte_order_mark("\u{FEFF}\u{FEFF}x".to_string()), "\u{FEFF}x");
    assert_eq!(strip_byte_order_mark(String::new()), "");
    assert_eq!(strip_byte_order_mark("a\u{FEFF}".to_string()), "a\u{FEFF}");
}

#[test]
fn shader_template_from_sources() {
    let t = ShaderTemplate::from_sources(3, "\u{FEFF}vert".to_string(), "frag".to_string());
    assert_eq!(t.id, 3);
    assert_eq!(t.vertex_code, "vert");
    assert_eq!(t.fragment_code, "frag");
}

#[test]
fn identity_transform_and_camera_settings() {
    let t = Transform::default();
    assert_eq!(t.position(), Float3::new(0, 0, 0));
    assert_eq!(t.scale(), Float3::new(1.0f32.to_bits(), 1.0f32.to_bits(), 1.0f32.to_bits()));
    assert_eq!(t.rotation().w, 1.0f32.to_bits());
    assert_eq!(t.rotation().x, 0);
    let s = MainCameraSettings::new(Float3::new(1, 2, 3), 4, 5);
    assert_eq!(s.initial_position, Float3::new(1, 2, 3));
    assert_eq!(s.initial_yaw, 4);
    assert_eq!(s.initial_pitch, 5);
}
