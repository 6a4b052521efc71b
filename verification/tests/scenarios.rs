use webgl_core::context::{DrawCall, GlContext};
use webgl_core::fixed::Fixed;
use webgl_core::random::draw_random_rectangles;
use webgl_core::shader::{CompileVerdict, LinkVerdict};

const TRIANGLE_VERT: &str = "attribute vec4 a_position; void main() { gl_Position = a_position; }";
const TRIANGLE_FRAG: &str =
    "precision mediump float; void main() { gl_FragColor = vec4(1, 0, 0.5, 1); }";
const RECT_VERT: &str = "attribute vec2 a_position; uniform vec2 u_resolution; void main() { \
     vec2 clipSpace = a_position / u_resolution * 2.0 - 1.0; \
     gl_Position = vec4(clipSpace * vec2(1, -1), 0, 1); }";
const RECT_FRAG: &str =
    "precision mediump float; uniform vec4 u_color; void main() { gl_FragColor = u_color; }";

#[test]
fn triangle_setup_draws_three_clip_space_points() {
    let mut context = GlContext::new();
    let program = context
        .build_program(
            TRIANGLE_VERT,
            TRIANGLE_FRAG,
            CompileVerdict::Accepted,
            CompileVerdict::Accepted,
            LinkVerdict::Accepted,
        )
        .expect("a conformant driver accepts the triangle shaders");
    // The three clip-space points (0, 0), (0, 0.5), (0.7, 0).
    let positions = vec![
        Fixed::from_milli(0),
        Fixed::from_milli(0),
        Fixed::from_milli(0),
        Fixed::from_milli(500),
        Fixed::from_milli(700),
        Fixed::from_milli(0),
    ];
    context.buffer_data(positions.clone());
    context.resize_canvas_to_display_size(400, 300);
    context.use_program(&program);
    context.draw_arrays(0, 3);
    assert_eq!(context.buffer, positions);
    assert_eq!(context.draws, vec![DrawCall { first: 0, count: 3 }]);
    assert!(context.errors.is_empty());
}

#[test]
fn set_rectangle_populates_the_six_expected_points() {
    let mut context = GlContext::new();
    context.set_rectangle(10, 20, 30, 40);
    // The points (10,20) (40,20) (10,60) (10,60) (40,20) (40,60).
    let expected: Vec<Fixed> = [10, 20, 40, 20, 10, 60, 10, 60, 40, 20, 40, 60]
        .iter()
        .map(|&px| Fixed::from_px(px))
        .collect();
    assert_eq!(context.buffer, expected);
}

#[test]
fn fragment_syntax_error_yields_no_program_no_link_no_draw() {
    let mut context = GlContext::new();
    let log = String::from("ERROR: 0:4: ';' : syntax error");
    let program = context.build_program(
        TRIANGLE_VERT,
        "precision mediump float; void main( { }",
        CompileVerdict::Accepted,
        CompileVerdict::Rejected(log.clone()),
        LinkVerdict::Accepted,
    );
    assert!(program.is_none());
    // The linker was never invoked: no program object exists at all.
    assert!(context.programs.is_empty());
    assert_eq!(context.errors, vec![log]);
    assert!(context.draws.is_empty());
}

#[test]
fn fifty_random_rectangles_issue_fifty_draws_of_six_vertices() {
    let mut context = GlContext::new();
    let program = context
        .build_program(
            RECT_VERT,
            RECT_FRAG,
            CompileVerdict::Accepted,
            CompileVerdict::Accepted,
            LinkVerdict::Accepted,
        )
        .unwrap();
    context.resize_canvas_to_display_size(400, 300);
    context.use_program(&program);
    context.set_resolution_uniform(Fixed::from_px(400), Fixed::from_px(300));
    draw_random_rectangles(&mut context, 50);
    assert_eq!(context.draws.len(), 50);
    for draw in &context.draws {
        assert_eq!(*draw, DrawCall { first: 0, count: 6 });
    }
}

#[test]
fn random_rectangles_stay_inside_the_coordinate_bounds() {
    let mut context = GlContext::new();
    let program = context
        .build_program(
            RECT_VERT,
            RECT_FRAG,
            CompileVerdict::Accepted,
            CompileVerdict::Accepted,
            LinkVerdict::Accepted,
        )
        .unwrap();
    context.use_program(&program);
    for _ in 0..20 {
        draw_random_rectangles(&mut context, 1);
        // Corner coordinates are below 300, far edges below 600.
        assert!(context.buffer[0].milli < 300_000);
        assert!(context.buffer[1].milli < 300_000);
        assert!(context.buffer[0].milli >= 0);
        assert!(context.buffer[1].milli >= 0);
        for scalar in &context.buffer {
            assert!(scalar.milli < 600_000);
        }
        // Color components lie in [0, 1) with alpha exactly 1.
        let color = context.color_uniform.expect("a color was set");
        for component in [color.red, color.green, color.blue] {
            assert!(component.milli >= 0 && component.milli < 1000);
        }
        assert_eq!(color.alpha.milli, 1000);
    }
}
