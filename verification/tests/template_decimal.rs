use particle_sim::decimal::format_micros;
use particle_sim::template::{render_shader_source, TemplateError};

fn text_of(bytes: Vec<u8>) -> String {
    String::from_utf8(bytes).unwrap()
}

#[test]
fn micros_format_matches_float_display() {
    assert_eq!(text_of(format_micros(1000)), "0.001");
    assert_eq!(text_of(format_micros(5000)), "0.005");
    assert_eq!(text_of(format_micros(123)), "0.000123");
    assert_eq!(text_of(format_micros(1_500_000)), "1.5");
    assert_eq!(text_of(format_micros(1_000_000)), "1");
    assert_eq!(text_of(format_micros(0)), "0");
    assert_eq!(text_of(format_micros(5000)), format!("{}", 0.005f32));
    assert_eq!(text_of(format_micros(1000)), format!("{}", 0.001f32));
}

#[test]
fn one_marker_pair_becomes_one_constant_declaration() {
    let template = "\
struct V { size: f32 }
// $RUST_REPLACEME
const QUAD_SIZE: f32 = 0.001;
// $RUST_REPLACEMEEND
fn vs_main() {}
";
    let out = render_shader_source(&template.as_bytes().to_vec(), 5000).unwrap();
    let out = text_of(out);
    assert_eq!(
        out,
        "struct V { size: f32 }\n// \nconst QUAD_SIZE: f32 = 0.005;\nfn vs_main() {}\n"
    );
    assert_eq!(out.matches("const QUAD_SIZE").count(), 1);
    assert_eq!(out.matches("0.005").count(), 1);
    assert!(!out.contains("$RUST_REPLACEME"));
}

#[test]
fn template_without_start_marker_is_rejected() {
    let template = "fn vs_main() {}";
    let r = render_shader_source(&template.as_bytes().to_vec(), 5000);
    assert_eq!(r.unwrap_err(), TemplateError::MissingStartMarker);
}

#[test]
fn template_without_end_marker_is_rejected() {
    let template = "// $RUST_REPLACEME\nconst QUAD_SIZE: f32 = 0.001;\n";
    let r = render_shader_source(&template.as_bytes().to_vec(), 5000);
    assert_eq!(r.unwrap_err(), TemplateError::MissingEndMarker);
}
