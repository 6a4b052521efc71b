use webgl_core::context::{DrawCall, GlContext};
use webgl_core::fixed::Fixed;
use webgl_core::shader::{CompileVerdict, LinkVerdict, ShaderKind};

const VERT_CODE: &str = "attribute vec4 a_position; void main() { gl_Position = a_position; }";
const FRAG_CODE: &str =
    "precision mediump float; void main() { gl_FragColor = vec4(1, 0, 0.5, 1); }";

#[test]
fn create_shader_accepted_returns_handle() {
    let mut context = GlContext::new();
    let shader = context.create_shader(ShaderKind::Vertex, VERT_CODE, CompileVerdict::Accepted);
    let shader = shader.expect("accepted source must yield a handle");
    assert_eq!(shader.id, 0);
    assert!(context.shaders[0].live);
    assert_eq!(context.shaders[0].kind, ShaderKind::Vertex);
    assert!(context.errors.is_empty());
}

#[test]
fn create_shader_rejected_reports_diagnostic_and_destroys_handle() {
    let mut context = GlContext::new();
    let log = String::from("ERROR: 0:3: 'vec4' : syntax error");
    let shader = context.create_shader(
        ShaderKind::Fragment,
        "void main( { }",
        CompileVerdict::Rejected(log.clone()),
    );
    assert!(shader.is_none());
    assert_eq!(context.errors, vec![log]);
    assert!(!context.errors[0].is_empty());
    assert!(!context.shaders[0].live);
}

#[test]
fn create_program_accepted_returns_handle() {
    let mut context = GlContext::new();
    let vertex = context
        .create_shader(ShaderKind::Vertex, VERT_CODE, CompileVerdict::Accepted)
        .unwrap();
    let fragment = context
        .create_shader(ShaderKind::Fragment, FRAG_CODE, CompileVerdict::Accepted)
        .unwrap();
    let program = context.create_program(&vertex, &fragment, LinkVerdict::Accepted);
    let program = program.expect("accepted link must yield a handle");
    assert_eq!(program.id, 0);
    assert!(context.programs[0].live);
    assert_eq!(context.programs[0].vertex, vertex.id);
    assert_eq!(context.programs[0].fragment, fragment.id);
    assert!(context.errors.is_empty());
}

#[test]
fn create_program_rejected_reports_diagnostic() {
    let mut context = GlContext::new();
    let vertex = context
        .create_shader(ShaderKind::Vertex, VERT_CODE, CompileVerdict::Accepted)
        .unwrap();
    let fragment = context
        .create_shader(ShaderKind::Fragment, FRAG_CODE, CompileVerdict::Accepted)
        .unwrap();
    let log = String::from("ERROR: varying v_color not written by vertex shader");
    let program = context.create_program(&vertex, &fragment, LinkVerdict::Rejected(log.clone()));
    assert!(program.is_none());
    assert_eq!(context.errors, vec![log]);
    assert!(!context.programs[0].live);
}

#[test]
fn resize_is_idempotent_for_unchanged_display_size() {
    let mut context = GlContext::new();
    context.resize_canvas_to_display_size(800, 600);
    assert_eq!((context.canvas_width, context.canvas_height), (800, 600));
    let before = (context.canvas_width, context.canvas_height);
    context.resize_canvas_to_display_size(800, 600);
    assert_eq!((context.canvas_width, context.canvas_height), before);
}

#[test]
fn buffer_upload_is_total_overwrite() {
    let mut context = GlContext::new();
    let first = vec![
        Fixed::from_milli(1),
        Fixed::from_milli(2),
        Fixed::from_milli(3),
        Fixed::from_milli(4),
    ];
    let second = vec![Fixed::from_milli(9), Fixed::from_milli(8)];
    context.buffer_data(first);
    context.buffer_data(second.clone());
    assert_eq!(context.buffer, second);
}

#[test]
fn shaders_may_be_released_after_link_without_invalidating_the_program() {
    let mut context = GlContext::new();
    let vertex = context
        .create_shader(ShaderKind::Vertex, VERT_CODE, CompileVerdict::Accepted)
        .unwrap();
    let fragment = context
        .create_shader(ShaderKind::Fragment, FRAG_CODE, CompileVerdict::Accepted)
        .unwrap();
    let program = context
        .create_program(&vertex, &fragment, LinkVerdict::Accepted)
        .unwrap();
    context.delete_shader(&vertex);
    context.delete_shader(&fragment);
    assert!(!context.shaders[0].live);
    assert!(!context.shaders[1].live);
    assert!(context.programs[program.id].live);
    context.use_program(&program);
    context.buffer_data(vec![
        Fixed::from_milli(0),
        Fixed::from_milli(0),
        Fixed::from_milli(0),
        Fixed::from_milli(500),
        Fixed::from_milli(700),
        Fixed::from_milli(0),
    ]);
    context.draw_arrays(0, 3);
    assert_eq!(context.draws, vec![DrawCall { first: 0, count: 3 }]);
}

#[test]
fn fixed_point_scalars_hold_thousandths() {
    assert_eq!(Fixed::from_px(10).milli, 10_000);
    assert_eq!(Fixed::from_px_sum(10, 30).milli, 40_000);
    assert_eq!(Fixed::from_milli(500).milli, 500);
}

#[test]
fn set_rectangle_writes_the_two_triangles() {
    let mut context = GlContext::new();
    context.set_rectangle(0, 0, 1, 2);
    let x1 = Fixed::from_milli(0);
    let y1 = Fixed::from_milli(0);
    let x2 = Fixed::from_milli(1000);
    let y2 = Fixed::from_milli(2000);
    assert_eq!(context.buffer, vec![x1, y1, x2, y1, x1, y2, x1, y2, x2, y1, x2, y2]);
}
