use webgl_grid::add;
use webgl_grid::grid::generate_grid;
use webgl_grid::sequence::{draw_plan, grid_draw_call, BufferTarget, Color, DrawCall, Primitive, Step};

const BLACK: Color = Color { red: 0, green: 0, blue: 0, alpha: 255 };

fn count(steps: &[Step], f: fn(&Step) -> bool) -> usize {
    steps.iter().filter(|s| f(s)).count()
}

#[test]
fn triangle_sequence() {
    let call = DrawCall::Arrays { mode: Primitive::Triangles, count: 3 };
    let steps = draw_plan(0, call);
    assert_eq!(
        steps,
        vec![
            Step::BindBuffer(BufferTarget::Vertices),
            Step::AttribPointer { location: 0, components: 3 },
            Step::EnableAttrib(0),
            Step::ClearColor(BLACK),
            Step::Clear,
            Step::Draw(call),
        ]
    );
}

#[test]
fn grid_sequence_binds_indices() {
    let g = generate_grid(10, 10).unwrap();
    let call = grid_draw_call(&g);
    assert_eq!(call, DrawCall::Elements { mode: Primitive::Lines, count: 360 });
    let steps = draw_plan(2, call);
    assert_eq!(steps.len(), 7);
    assert_eq!(steps[3], Step::BindBuffer(BufferTarget::Indices));
    assert_eq!(steps[6], Step::Draw(call));
}

#[test]
fn rerun_is_idempotent() {
    let call = DrawCall::Elements { mode: Primitive::Lines, count: 360 };
    let first = draw_plan(1, call);
    let second = draw_plan(1, call);
    assert_eq!(first, second);
    for steps in [&first, &second] {
        assert_eq!(count(steps, |s| matches!(s, Step::Clear)), 1);
        assert_eq!(count(steps, |s| matches!(s, Step::Draw(_))), 1);
        let last_color = steps.iter().rev().find_map(|s| match s {
            Step::ClearColor(c) => Some(*c),
            _ => None,
        });
        assert_eq!(last_color, Some(BLACK));
    }
}

#[test]
fn add_sums() {
    assert_eq!(add(2, 3), 5);
    assert_eq!(add(0, u32::MAX), u32::MAX);
}
