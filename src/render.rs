use vstd::prelude::*;

verus! {

/// How a value compares with another.
#[derive(Clone, Copy, Debug, PartialEq, Eq, Structural)]
pub enum Order {
    Less,
    Equal,
    Greater,
}

/// A depth or stencil comparison function.
#[derive(Clone, Copy, Debug, PartialEq, Eq, Structural)]
pub enum Comparison {
    Never,
    Less,
    LessEqual,
    Equal,
    GreaterEqual,
    Greater,
    NotEqual,
    Always,
}

/// What a stencil side does to the stored value.
#[derive(Clone, Copy, Debug, PartialEq, Eq, Structural)]
pub enum StencilOp {
    Keep,
    Zero,
    Replace,
    IncrementClamp,
    IncrementWrap,
    DecrementClamp,
    DecrementWrap,
    Invert,
}

/// Which faces the rasterizer drops.
#[derive(Clone, Copy, Debug, PartialEq, Eq, Structural)]
pub enum CullFace {
    Nothing,
    Front,
    Back,
}

/// The stencil state for one facing of triangles.
#[derive(Clone, Copy, Debug, PartialEq, Eq, Structural)]
pub struct StencilSide {
    /// Compares the reference value with the stored value, both under `mask_read`.
    pub fun: Comparison,
    pub mask_read: u8,
    /// The bits of the stored value that an operation may change.
    pub mask_write: u8,
    /// Applied when the stencil test fails.
    pub op_fail: StencilOp,
    /// Applied when the stencil test passes and the depth test fails.
    pub op_depth_fail: StencilOp,
    /// Applied when both tests pass.
    pub op_pass: StencilOp,
}

/// The depth test: the fragment's depth compared with the stored depth.
#[derive(Clone, Copy, Debug, PartialEq, Eq, Structural)]
pub struct DepthState {
    pub fun: Comparison,
    pub write: bool,
}

/// The fixed-function state of one pass: rasterizer culling, depth test and stencil.
#[derive(Clone, Copy, Debug, PartialEq, Eq, Structural)]
pub struct PipelineConfig {
    pub cull_face: CullFace,
    pub depth: DepthState,
    pub front: StencilSide,
    pub back: StencilSide,
    pub stencil_reference: u8,
}

/// One fragment that a pass rasterizes at a pixel: the facing of its triangle, and how its depth
/// compares with the depth already stored at that pixel.
#[derive(Clone, Copy, Debug, PartialEq, Eq, Structural)]
pub struct Fragment {
    pub front_facing: bool,
    pub depth: Order,
}

/// The pool of a `PolygonBuffer` that a pass draws from.
#[derive(Clone, Copy, Debug, PartialEq, Eq, Structural)]
pub enum Pool {
    Polyhedron,
    BoundingBox,
}

/// One draw of a render: the state it runs with, the pool it draws, and whether its fragments
/// carry the caller's color.
#[derive(Clone, Copy, Debug, PartialEq, Eq, Structural)]
pub struct DrawPass {
    pub pipeline: PipelineConfig,
    pub pool: Pool,
    pub uses_color: bool,
}

/// The first pass. It draws the polyhedron with the depth test `<=` and no depth write; where a
/// fragment fails the depth test, a front face decrements the stencil and a back face increments
/// it, both with wraparound.
pub open spec fn polyhedron_pipeline_model() -> PipelineConfig {
    PipelineConfig {
        cull_face: CullFace::Nothing,
        depth: DepthState { fun: Comparison::LessEqual, write: false },
        front: StencilSide {
            fun: Comparison::Always,
            mask_read: 255,
            mask_write: 255,
            op_fail: StencilOp::Keep,
            op_depth_fail: StencilOp::DecrementWrap,
            op_pass: StencilOp::Keep,
        },
        back: StencilSide {
            fun: Comparison::Always,
            mask_read: 255,
            mask_write: 255,
            op_fail: StencilOp::Keep,
            op_depth_fail: StencilOp::IncrementWrap,
            op_pass: StencilOp::Keep,
        },
        stencil_reference: 0,
    }
}

/// The stencil side of the second pass: it passes where the stencil is not zero, and there
/// resets it to zero.
pub open spec fn bounding_box_side_model() -> StencilSide {
    StencilSide {
        fun: Comparison::NotEqual,
        mask_read: 255,
        mask_write: 255,
        op_fail: StencilOp::Keep,
        op_depth_fail: StencilOp::Keep,
        op_pass: StencilOp::Replace,
    }
}

/// The second pass. It draws only the back faces of the bounding prism, with a depth test that
/// always passes and no depth write.
pub open spec fn bounding_box_pipeline_model() -> PipelineConfig {
    PipelineConfig {
        cull_face: CullFace::Front,
        depth: DepthState { fun: Comparison::Always, write: false },
        front: bounding_box_side_model(),
        back: bounding_box_side_model(),
        stencil_reference: 0,
    }
}

/// The stencil value and whether the color is painted at a pixel, after a render rasterizes
/// `polyhedron` there in the first pass and `bounding_box` in the second.
pub open spec fn render_pixel_model(
    value: u8,
    polyhedron: Seq<Fragment>,
    bounding_box: Seq<Fragment>,
) -> (u8, bool) {
    let marked = pass_stencil_model(polyhedron_pipeline_model(), value, polyhedron);
    (
        pass_stencil_model(bounding_box_pipeline_model(), marked, bounding_box),
        pass_colors_model(bounding_box_pipeline_model(), marked, bounding_box),
    )
}

/// Back faces that failed the depth test, less front faces that did.
pub open spec fn depth_fail_balance(fragments: Seq<Fragment>) -> int
    decreases fragments.len(),
{
    if fragments.len() == 0 {
        0
    } else {
        let f = fragments.last();
        depth_fail_balance(fragments.drop_last()) + if f.depth != Order::Greater {
            0
        } else if f.front_facing {
            -1
        } else {
            1
        }
    }
}

/// How many of `fragments` belong to back faces.
pub open spec fn back_facing_count(fragments: Seq<Fragment>) -> nat
    decreases fragments.len(),
{
    if fragments.len() == 0 {
        0
    } else {
        back_facing_count(fragments.drop_last()) + if fragments.last().front_facing {
            0nat
        } else {
            1nat
        }
    }
}

pub open spec fn comparison_holds_model(fun: Comparison, order: Order) -> bool {
    match fun {
        Comparison::Never => false,
        Comparison::Less => order == Order::Less,
        Comparison::LessEqual => order != Order::Greater,
        Comparison::Equal => order == Order::Equal,
        Comparison::GreaterEqual => order != Order::Less,
        Comparison::Greater => order == Order::Greater,
        Comparison::NotEqual => order != Order::Equal,
        Comparison::Always => true,
    }
}

pub open spec fn order_model(a: int, b: int) -> Order {
    if a < b {
        Order::Less
    } else if a == b {
        Order::Equal
    } else {
        Order::Greater
    }
}

pub open spec fn stencil_op_model(op: StencilOp, value: u8, reference: u8) -> u8 {
    match op {
        StencilOp::Keep => value,
        StencilOp::Zero => 0,
        StencilOp::Replace => reference,
        StencilOp::IncrementClamp => if value == 255 {
            255
        } else {
            (value + 1) as u8
        },
        StencilOp::IncrementWrap => ((value + 1) % 256) as u8,
        StencilOp::DecrementClamp => if value == 0 {
            0
        } else {
            (value - 1) as u8
        },
        StencilOp::DecrementWrap => ((value + 255) % 256) as u8,
        StencilOp::Invert => (255 - value) as u8,
    }
}

pub open spec fn culled_model(cull_face: CullFace, front_facing: bool) -> bool {
    match cull_face {
        CullFace::Nothing => false,
        CullFace::Front => front_facing,
        CullFace::Back => !front_facing,
    }
}

pub open spec fn side_model(config: PipelineConfig, front_facing: bool) -> StencilSide {
    if front_facing {
        config.front
    } else {
        config.back
    }
}

/// Whether the stencil test of `side` passes on the stored value `value`.
pub open spec fn stencil_passes_model(side: StencilSide, reference: u8, value: u8) -> bool {
    comparison_holds_model(
        side.fun,
        order_model((reference & side.mask_read) as int, (value & side.mask_read) as int),
    )
}

/// The stencil value after `fragment` of a pass with `config` reaches a pixel holding `value`.
pub open spec fn fragment_stencil_model(config: PipelineConfig, value: u8, fragment: Fragment) -> u8 {
    if culled_model(config.cull_face, fragment.front_facing) {
        value
    } else {
        let side = side_model(config, fragment.front_facing);
        let op = if !stencil_passes_model(side, config.stencil_reference, value) {
            side.op_fail
        } else if !comparison_holds_model(config.depth.fun, fragment.depth) {
            side.op_depth_fail
        } else {
            side.op_pass
        };
        let changed = stencil_op_model(op, value, config.stencil_reference);
        (value & !side.mask_write) | (changed & side.mask_write)
    }
}

/// Whether `fragment` passes every test and so writes its color.
pub open spec fn fragment_colors_model(config: PipelineConfig, value: u8, fragment: Fragment) -> bool {
    &&& !culled_model(config.cull_face, fragment.front_facing)
    &&& stencil_passes_model(
        side_model(config, fragment.front_facing),
        config.stencil_reference,
        value,
    )
    &&& comparison_holds_model(config.depth.fun, fragment.depth)
}

/// The stencil value at a pixel after a pass rasterizes `fragments` there, in order.
pub open spec fn pass_stencil_model(config: PipelineConfig, value: u8, fragments: Seq<Fragment>) -> u8
    decreases fragments.len(),
{
    if fragments.len() == 0 {
        value
    } else {
        fragment_stencil_model(
            config,
            pass_stencil_model(config, value, fragments.drop_last()),
            fragments.last(),
        )
    }
}

/// Whether any of `fragments` writes its color during the pass.
pub open spec fn pass_colors_model(config: PipelineConfig, value: u8, fragments: Seq<Fragment>) -> bool
    decreases fragments.len(),
{
    if fragments.len() == 0 {
        false
    } else {
        pass_colors_model(config, value, fragments.drop_last()) || fragment_colors_model(
            config,
            pass_stencil_model(config, value, fragments.drop_last()),
            fragments.last(),
        )
    }
}

pub fn comparison_holds(fun: Comparison, order: Order) -> (r: bool)
    ensures
        r == comparison_holds_model(fun, order),
{
    match fun {
        Comparison::Never => false,
        Comparison::Less => matches!(order, Order::Less),
        Comparison::LessEqual => !matches!(order, Order::Greater),
        Comparison::Equal => matches!(order, Order::Equal),
        Comparison::GreaterEqual => !matches!(order, Order::Less),
        Comparison::Greater => matches!(order, Order::Greater),
        Comparison::NotEqual => !matches!(order, Order::Equal),
        Comparison::Always => true,
    }
}

fn order_of(a: u8, b: u8) -> (r: Order)
    ensures
        r == order_model(a as int, b as int),
{
    if a < b {
        Order::Less
    } else if a == b {
        Order::Equal
    } else {
        Order::Greater
    }
}

pub fn apply_stencil_op(op: StencilOp, value: u8, reference: u8) -> (r: u8)
    ensures
        r == stencil_op_model(op, value, reference),
{
    match op {
        StencilOp::Keep => value,
        StencilOp::Zero => 0,
        StencilOp::Replace => reference,
        StencilOp::IncrementClamp => if value == 255 {
            255
        } else {
            value + 1
        },
        StencilOp::IncrementWrap => value.wrapping_add(1),
        StencilOp::DecrementClamp => if value == 0 {
            0
        } else {
            value - 1
        },
        StencilOp::DecrementWrap => value.wrapping_sub(1),
        StencilOp::Invert => {
            assert(!value == (255 - value) as u8) by (bit_vector);
            !value
        },
    }
}

fn culled(cull_face: CullFace, front_facing: bool) -> (r: bool)
    ensures
        r == culled_model(cull_face, front_facing),
{
    match cull_face {
        CullFace::Nothing => false,
        CullFace::Front => front_facing,
        CullFace::Back => !front_facing,
    }
}

/// What `fragment` of a pass with `config` does at a pixel whose stencil holds `value`: the new
/// stencil value, and whether the fragment writes its color.
pub fn apply_fragment(config: &PipelineConfig, value: u8, fragment: Fragment) -> (r: (u8, bool))
    ensures
        r.0 == fragment_stencil_model(*config, value, fragment),
        r.1 == fragment_colors_model(*config, value, fragment),
{
    if culled(config.cull_face, fragment.front_facing) {
        return (value, false);
    }
    let side = if fragment.front_facing {
        config.front
    } else {
        config.back
    };
    let stencil_order = order_of(
        config.stencil_reference & side.mask_read,
        value & side.mask_read,
    );
    let stencil_passes = comparison_holds(side.fun, stencil_order);
    let depth_passes = comparison_holds(config.depth.fun, fragment.depth);
    let op = if !stencil_passes {
        side.op_fail
    } else if !depth_passes {
        side.op_depth_fail
    } else {
        side.op_pass
    };
    let changed = apply_stencil_op(op, value, config.stencil_reference);
    ((value & !side.mask_write) | (changed & side.mask_write), stencil_passes && depth_passes)
}

/// What a pass with `config` does at a pixel whose stencil holds `value` when it rasterizes
/// `fragments` there in order: the final stencil value, and whether any fragment wrote its color.
pub fn run_pass(config: &PipelineConfig, value: u8, fragments: &[Fragment]) -> (r: (u8, bool))
    ensures
        r.0 == pass_stencil_model(*config, value, fragments@),
        r.1 == pass_colors_model(*config, value, fragments@),
{
    let mut stencil = value;
    let mut colored = false;
    let mut i: usize = 0;
    while i < fragments.len()
        invariant
            i <= fragments@.len(),
            stencil == pass_stencil_model(*config, value, fragments@.subrange(0, i as int)),
            colored == pass_colors_model(*config, value, fragments@.subrange(0, i as int)),
        decreases fragments@.len() - i,
    {
        let (next, wrote) = apply_fragment(config, stencil, fragments[i]);
        proof {
            let done = fragments@.subrange(0, i + 1);
            assert(done.drop_last() =~= fragments@.subrange(0, i as int));
            assert(done.last() == fragments@[i as int]);
        }
        stencil = next;
        colored = colored || wrote;
        i = i + 1;
    }
    assert(fragments@.subrange(0, i as int) =~= fragments@);
    (stencil, colored)
}

pub fn polyhedron_pipeline() -> (r: PipelineConfig)
    ensures
        r == polyhedron_pipeline_model(),
{
    PipelineConfig {
        cull_face: CullFace::Nothing,
        depth: DepthState { fun: Comparison::LessEqual, write: false },
        front: StencilSide {
            fun: Comparison::Always,
            mask_read: 255,
            mask_write: 255,
            op_fail: StencilOp::Keep,
            op_depth_fail: StencilOp::DecrementWrap,
            op_pass: StencilOp::Keep,
        },
        back: StencilSide {
            fun: Comparison::Always,
            mask_read: 255,
            mask_write: 255,
            op_fail: StencilOp::Keep,
            op_depth_fail: StencilOp::IncrementWrap,
            op_pass: StencilOp::Keep,
        },
        stencil_reference: 0,
    }
}

pub fn bounding_box_pipeline() -> (r: PipelineConfig)
    ensures
        r == bounding_box_pipeline_model(),
{
    // Where the stencil test fails the value is already zero; the depth test always passes;
    // where both pass the value goes back to zero, so the next render needs no clear.
    let side = StencilSide {
        fun: Comparison::NotEqual,
        mask_read: 255,
        mask_write: 255,
        op_fail: StencilOp::Keep,
        op_depth_fail: StencilOp::Keep,
        op_pass: StencilOp::Replace,
    };
    PipelineConfig {
        cull_face: CullFace::Front,
        depth: DepthState { fun: Comparison::Always, write: false },
        front: side,
        back: side,
        stencil_reference: 0,
    }
}

/// The two-pass draping protocol: the states of its passes, set up once.
#[derive(Clone, Copy, Debug)]
pub struct DrapingRenderer {
    polyhedron: PipelineConfig,
    bounding_box: PipelineConfig,
}

impl DrapingRenderer {
    pub closed spec fn polyhedron_spec(&self) -> PipelineConfig {
        self.polyhedron
    }

    pub closed spec fn bounding_box_spec(&self) -> PipelineConfig {
        self.bounding_box
    }

    pub open spec fn wf(&self) -> bool {
        &&& self.polyhedron_spec() == polyhedron_pipeline_model()
        &&& self.bounding_box_spec() == bounding_box_pipeline_model()
    }

    pub fn new() -> (r: DrapingRenderer)
        ensures
            r.wf(),
    {
        DrapingRenderer { polyhedron: polyhedron_pipeline(), bounding_box: bounding_box_pipeline() }
    }

    /// The draws of one render, in order: first the polyhedron, which only marks the stencil,
    /// then the bounding prism, which paints the caller's color where the stencil is marked.
    pub fn passes(&self) -> (r: Vec<DrawPass>)
        requires
            self.wf(),
        ensures
            r@ == seq![
                DrawPass {
                    pipeline: polyhedron_pipeline_model(),
                    pool: Pool::Polyhedron,
                    uses_color: false,
                },
                DrawPass {
                    pipeline: bounding_box_pipeline_model(),
                    pool: Pool::BoundingBox,
                    uses_color: true,
                },
            ],
    {
        let r = vec![
            DrawPass { pipeline: self.polyhedron, pool: Pool::Polyhedron, uses_color: false },
            DrawPass { pipeline: self.bounding_box, pool: Pool::BoundingBox, uses_color: true },
        ];
        r
    }

    /// What a render does at one pixel whose stencil holds `value`, where the first pass
    /// rasterizes `polyhedron` and the second `bounding_box`: the final stencil value, and whether
    /// the caller's color is painted there.
    pub fn render_pixel(
        &self,
        value: u8,
        polyhedron: &[Fragment],
        bounding_box: &[Fragment],
    ) -> (r: (u8, bool))
        requires
            self.wf(),
        ensures
            r == render_pixel_model(value, polyhedron@, bounding_box@),
    {
        let (marked, _) = run_pass(&self.polyhedron, value, polyhedron);
        run_pass(&self.bounding_box, marked, bounding_box)
    }
}

proof fn lemma_full_mask_write(value: u8, changed: u8)
    ensures
        (value & !255u8) | (changed & 255u8) == changed,
{
    assert((value & !255u8) | (changed & 255u8) == changed) by (bit_vector);
}

/// The first pass counts, with wraparound, the faces behind the stored depth: each back face
/// adds one and each front face takes one away.
pub proof fn lemma_polyhedron_pass_counts(value: u8, polyhedron: Seq<Fragment>)
    ensures
        pass_stencil_model(polyhedron_pipeline_model(), value, polyhedron) as int == (value as int
            + depth_fail_balance(polyhedron)) % 256,
    decreases polyhedron.len(),
{
    if polyhedron.len() > 0 {
        let rest = polyhedron.drop_last();
        let f = polyhedron.last();
        lemma_polyhedron_pass_counts(value, rest);
        let before = pass_stencil_model(polyhedron_pipeline_model(), value, rest);
        let op = if f.depth != Order::Greater {
            StencilOp::Keep
        } else if f.front_facing {
            StencilOp::DecrementWrap
        } else {
            StencilOp::IncrementWrap
        };
        lemma_full_mask_write(before, stencil_op_model(op, before, 0));
        let b = depth_fail_balance(rest);
        assert(((value as int + b) % 256 + 1) % 256 == (value as int + b + 1) % 256);
        assert(((value as int + b) % 256 + 255) % 256 == (value as int + b - 1) % 256);
    }
}

/// The second pass clears the stencil at every pixel where it draws a back face, and paints
/// there exactly if the stencil was marked; elsewhere it changes nothing and paints nothing.
pub proof fn lemma_bounding_box_pass_clears(value: u8, bounding_box: Seq<Fragment>)
    ensures
        pass_stencil_model(bounding_box_pipeline_model(), value, bounding_box) == if back_facing_count(
            bounding_box,
        ) > 0 {
            0
        } else {
            value
        },
        pass_colors_model(bounding_box_pipeline_model(), value, bounding_box) == (value != 0
            && back_facing_count(bounding_box) > 0),
    decreases bounding_box.len(),
{
    if bounding_box.len() > 0 {
        let rest = bounding_box.drop_last();
        lemma_bounding_box_pass_clears(value, rest);
        let before = pass_stencil_model(bounding_box_pipeline_model(), value, rest);
        lemma_full_mask_write(before, 0);
        lemma_full_mask_write(before, before);
        assert((0u8 & 255u8) == 0u8) by (bit_vector);
        assert(before != 0 ==> (before & 255u8) != 0u8) by (bit_vector);
        assert(before == 0 ==> (before & 255u8) == 0u8) by (bit_vector);
    }
}

/// A render leaves the stencil as it found it, all zero: at a pixel that the bounding prism's
/// back faces reach the second pass clears whatever the first left; at a pixel they do not reach,
/// the first pass leaves the count of faces behind the terrain, which is zero where the
/// polyhedron's faces are not there either.
pub proof fn lemma_render_restores_stencil(polyhedron: Seq<Fragment>, bounding_box: Seq<Fragment>)
    ensures
        back_facing_count(bounding_box) > 0 ==> render_pixel_model(0, polyhedron, bounding_box).0
            == 0,
        polyhedron.len() == 0 ==> render_pixel_model(0, polyhedron, bounding_box).0 == 0,
        render_pixel_model(0, polyhedron, bounding_box).1 <==> (back_facing_count(bounding_box) > 0
            && depth_fail_balance(polyhedron) % 256 != 0),
{
    lemma_polyhedron_pass_counts(0, polyhedron);
    let marked = pass_stencil_model(polyhedron_pipeline_model(), 0, polyhedron);
    lemma_bounding_box_pass_clears(marked, bounding_box);
}

} // verus!
