use vstd::prelude::*;
use crate::grid::{GridMesh, column_link_count, row_link_count};

verus! {

/// Which bound buffer a step refers to.
#[derive(Debug, Clone, Copy, PartialEq, Eq, Structural)]
pub enum BufferTarget {
    /// The vertex buffer (`ARRAY_BUFFER`).
    Vertices,
    /// The index buffer (`ELEMENT_ARRAY_BUFFER`).
    Indices,
}

/// The primitive a draw call assembles.
#[derive(Debug, Clone, Copy, PartialEq, Eq, Structural)]
pub enum Primitive {
    Lines,
    Triangles,
}

/// An RGBA colour, eight bits a channel; `255` is full intensity.
#[derive(Debug, Clone, Copy, PartialEq, Eq, Structural)]
pub struct Color {
    pub red: u8,
    pub green: u8,
    pub blue: u8,
    pub alpha: u8,
}

/// The one draw call of a sequence.
#[derive(Debug, Clone, Copy, PartialEq, Eq, Structural)]
pub enum DrawCall {
    /// `drawArrays` over the first `count` vertices.
    Arrays { mode: Primitive, count: i32 },
    /// `drawElements` over the first `count` `u16` indices of the index buffer.
    Elements { mode: Primitive, count: i32 },
}

/// One call on the graphics context.
#[derive(Debug, Clone, Copy, PartialEq, Eq, Structural)]
pub enum Step {
    BindBuffer(BufferTarget),
    /// Reads attribute `location` as `components` floats a vertex, tightly packed.
    AttribPointer { location: u32, components: i32 },
    EnableAttrib(u32),
    ClearColor(Color),
    /// Clears the colour buffer to the current clear colour.
    Clear,
    Draw(DrawCall),
}

/// Opaque black, the colour the framebuffer is cleared to.
pub open spec fn black() -> Color {
    Color { red: 0, green: 0, blue: 0, alpha: 255 }
}

/// The sequence that draws through attribute `location`: bind the vertex buffer,
/// describe and enable the attribute, bind the index buffer when the call reads
/// indices, clear to opaque black, draw once.
pub open spec fn plan(location: u32, call: DrawCall) -> Seq<Step> {
    let setup = seq![
        Step::BindBuffer(BufferTarget::Vertices),
        Step::AttribPointer { location, components: 3 },
        Step::EnableAttrib(location),
    ];
    let indices = if call is Elements {
        seq![Step::BindBuffer(BufferTarget::Indices)]
    } else {
        Seq::empty()
    };
    setup + indices + seq![Step::ClearColor(black()), Step::Clear, Step::Draw(call)]
}

/// Builds the draw sequence for attribute `location` and `call`.
pub fn draw_plan(location: u32, call: DrawCall) -> (r: Vec<Step>)
    ensures
        r@ == plan(location, call),
{
    let mut steps: Vec<Step> = Vec::new();
    steps.push(Step::BindBuffer(BufferTarget::Vertices));
    steps.push(Step::AttribPointer { location, components: 3 });
    steps.push(Step::EnableAttrib(location));
    if let DrawCall::Elements { .. } = call {
        steps.push(Step::BindBuffer(BufferTarget::Indices));
    }
    steps.push(Step::ClearColor(Color { red: 0, green: 0, blue: 0, alpha: 255 }));
    steps.push(Step::Clear);
    steps.push(Step::Draw(call));
    assert(steps@ =~= plan(location, call));
    steps
}

/// The line draw call covering every segment of a grid.
pub fn grid_draw_call(mesh: &GridMesh) -> (r: DrawCall)
    requires
        mesh.wf(),
    ensures
        r == (DrawCall::Elements { mode: Primitive::Lines, count: mesh.indices@.len() as i32 }),
        r->Elements_count == mesh.indices@.len(),
{
    proof {
        let rows = mesh.rows as int;
        let cols = mesh.cols as int;
        assert(column_link_count(rows, cols) + row_link_count(rows, cols) <= 2 * (rows * cols))
            by (nonlinear_arith)
            requires
                rows >= 2,
                cols >= 2,
        ;
        assert(rows * cols <= 65536);
        assert(mesh.indices@.len() <= 4 * 65536);
    }
    DrawCall::Elements { mode: Primitive::Lines, count: mesh.indices.len() as i32 }
}

/// What the steps leave behind in the framebuffer: the clear colour, how many
/// clears and how many draws have been issued.
pub struct Frame {
    pub clear_color: Color,
    pub clears: nat,
    pub draws: nat,
}

/// The frame after one step.
pub open spec fn apply(f: Frame, s: Step) -> Frame {
    match s {
        Step::ClearColor(c) => Frame { clear_color: c, ..f },
        Step::Clear => Frame { clears: f.clears + 1, ..f },
        Step::Draw(_) => Frame { draws: f.draws + 1, ..f },
        _ => f,
    }
}

/// The frame after the first `k` steps.
pub open spec fn run_prefix(f: Frame, steps: Seq<Step>, k: nat) -> Frame
    decreases k,
{
    if k == 0 {
        f
    } else {
        apply(run_prefix(f, steps, (k - 1) as nat), steps[k - 1])
    }
}

/// The frame after all the steps.
pub open spec fn run(f: Frame, steps: Seq<Step>) -> Frame {
    run_prefix(f, steps, steps.len())
}

/// Running the draw sequence, from any frame, clears once to opaque black and draws
/// once; so running it again leaves the same clear colour and adds exactly one clear
/// and one draw.
pub proof fn lemma_plan_rerun(location: u32, call: DrawCall, f: Frame)
    ensures
        run(f, plan(location, call)) == (Frame {
            clear_color: black(),
            clears: f.clears + 1,
            draws: f.draws + 1,
        }),
        run(run(f, plan(location, call)), plan(location, call)).clear_color == run(
            f,
            plan(location, call),
        ).clear_color,
        run(run(f, plan(location, call)), plan(location, call)).clears == run(
            f,
            plan(location, call),
        ).clears + 1,
        run(run(f, plan(location, call)), plan(location, call)).draws == run(
            f,
            plan(location, call),
        ).draws + 1,
{
    reveal_with_fuel(run_prefix, 8);
    let g = run(f, plan(location, call));
    assert(g == (Frame { clear_color: black(), clears: f.clears + 1, draws: f.draws + 1 }));
    assert(run(g, plan(location, call)) == (Frame {
        clear_color: black(),
        clears: g.clears + 1,
        draws: g.draws + 1,
    }));
}

} // verus!
