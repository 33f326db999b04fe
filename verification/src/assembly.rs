use vstd::prelude::*;

use crate::settings::ParticleMeshShape;

verus! {

/// The kinds of modifier that an effect's init and update lists can hold.
#[derive(Clone, Copy, Debug, PartialEq, Eq, Structural)]
pub enum ModifierKind {
    SetAttribute,
    InheritAttribute,
    SetPositionCircle,
    SetPositionSphere,
    SetPositionCone3d,
    SetVelocityCircle,
    SetVelocitySphere,
    SetVelocityTangent,
    Accel,
    LinearDrag,
    EmitSpawnEvent,
    ConformToSphere,
}

/// The kinds of modifier that an effect's render list can hold.
#[derive(Clone, Copy, Debug, PartialEq, Eq, Structural)]
pub enum RenderModifierKind {
    SizeOverLifetime,
    ColorOverLifetime,
}

impl ModifierKind {
    /// Modifiers of this kind act when a particle is born.
    pub open spec fn acts_at_init(self) -> bool {
        match self {
            ModifierKind::SetAttribute
            | ModifierKind::InheritAttribute
            | ModifierKind::SetPositionCircle
            | ModifierKind::SetPositionSphere
            | ModifierKind::SetPositionCone3d
            | ModifierKind::SetVelocityCircle
            | ModifierKind::SetVelocitySphere
            | ModifierKind::SetVelocityTangent => true,
            _ => false,
        }
    }

    /// Modifiers of this kind act on every frame of a particle's life.
    pub open spec fn acts_at_update(self) -> bool {
        !self.acts_at_init()
    }

    /// Whether a modifier of this kind is applied when a particle is born.
    pub fn is_init(&self) -> (r: bool)
        ensures
            r == self.acts_at_init(),
    {
        match self {
            ModifierKind::SetAttribute
            | ModifierKind::InheritAttribute
            | ModifierKind::SetPositionCircle
            | ModifierKind::SetPositionSphere
            | ModifierKind::SetPositionCone3d
            | ModifierKind::SetVelocityCircle
            | ModifierKind::SetVelocitySphere
            | ModifierKind::SetVelocityTangent => true,
            _ => false,
        }
    }

    /// Whether a modifier of this kind is applied on every frame.
    pub fn is_update(&self) -> (r: bool)
        ensures
            r == self.acts_at_update(),
    {
        !self.is_init()
    }

    pub open spec fn label_view(self) -> Seq<char> {
        match self {
            ModifierKind::SetAttribute => "🗠 SetAttributeModifier"@,
            ModifierKind::InheritAttribute => "⛓ InheritAttributeModifier"@,
            ModifierKind::SetPositionCircle => "🕂 SetPositionCircleModifier"@,
            ModifierKind::SetPositionSphere => "🕂 SetPositionSphereModifier"@,
            ModifierKind::SetPositionCone3d => "🕂 SetPositionCone3dModifier"@,
            ModifierKind::SetVelocityCircle => "⏱ SetVelocityCircleModifier"@,
            ModifierKind::SetVelocitySphere => "⏱ SetVelocitySphereModifier"@,
            ModifierKind::SetVelocityTangent => "⏱ SetVelocityTangentModifier"@,
            ModifierKind::Accel => "🕛 AccelModifier"@,
            ModifierKind::LinearDrag => "☄ LinearDragModifier"@,
            ModifierKind::EmitSpawnEvent => "⚡ EmitSpawnEvent"@,
            ModifierKind::ConformToSphere => "📌 ConformToSphereModifier"@,
        }
    }

    /// The name under which the editor offers modifiers of this kind.
    pub fn label(&self) -> (r: &'static str)
        ensures
            r@ == self.label_view(),
    {
        match self {
            ModifierKind::SetAttribute => "🗠 SetAttributeModifier",
            ModifierKind::InheritAttribute => "⛓ InheritAttributeModifier",
            ModifierKind::SetPositionCircle => "🕂 SetPositionCircleModifier",
            ModifierKind::SetPositionSphere => "🕂 SetPositionSphereModifier",
            ModifierKind::SetPositionCone3d => "🕂 SetPositionCone3dModifier",
            ModifierKind::SetVelocityCircle => "⏱ SetVelocityCircleModifier",
            ModifierKind::SetVelocitySphere => "⏱ SetVelocitySphereModifier",
            ModifierKind::SetVelocityTangent => "⏱ SetVelocityTangentModifier",
            ModifierKind::Accel => "🕛 AccelModifier",
            ModifierKind::LinearDrag => "☄ LinearDragModifier",
            ModifierKind::EmitSpawnEvent => "⚡ EmitSpawnEvent",
            ModifierKind::ConformToSphere => "📌 ConformToSphereModifier",
        }
    }
}

impl RenderModifierKind {
    pub open spec fn label_view(self) -> Seq<char> {
        match self {
            RenderModifierKind::SizeOverLifetime => "📏 SizeOverLifetime"@,
            RenderModifierKind::ColorOverLifetime => "🎨 ColorOverLifetime"@,
        }
    }

    /// The name under which the editor offers render modifiers of this kind.
    pub fn label(&self) -> (r: &'static str)
        ensures
            r@ == self.label_view(),
    {
        match self {
            RenderModifierKind::SizeOverLifetime => "📏 SizeOverLifetime",
            RenderModifierKind::ColorOverLifetime => "🎨 ColorOverLifetime",
        }
    }
}

/// One step in putting an effect asset together, after the asset itself is created.
#[derive(Clone, Copy, Debug, PartialEq, Eq, Structural)]
pub enum AssemblyStep {
    /// Draw particles with the mesh of the effect's shape.
    UseMesh,
    /// Give every new particle size one.
    InitMeshSize,
    /// Give every new particle a lifetime of five seconds.
    InitMeshLifetime,
    /// Give every new particle age zero.
    InitMeshAge,
    /// Apply, at birth, the init modifier at this position.
    Init(usize),
    /// Apply, on every frame, the update modifier at this position.
    Update(usize),
    /// Apply, when drawing, the render modifier at this position.
    Render(usize),
    /// Draw particles with the effect's texture.
    RenderTexture,
    /// Turn particles by the effect's orientation.
    RenderOrient,
}

/// The steps for the modifiers of one list, in their order: the position of each
/// modifier that acts at the list's stage (init when `init`, update otherwise); the
/// others are left out.
pub open spec fn stage_steps(kinds: Seq<ModifierKind>, init: bool) -> Seq<AssemblyStep>
    decreases kinds.len(),
{
    if kinds.len() == 0 {
        Seq::empty()
    } else {
        let n = (kinds.len() - 1) as int;
        let rest = stage_steps(kinds.drop_last(), init);
        if init && kinds[n].acts_at_init() {
            rest.push(AssemblyStep::Init(n as usize))
        } else if !init && kinds[n].acts_at_update() {
            rest.push(AssemblyStep::Update(n as usize))
        } else {
            rest
        }
    }
}

/// The steps before the modifiers: meshes get their mesh and a size, lifetime and age.
pub open spec fn mesh_steps(shape: ParticleMeshShape) -> Seq<AssemblyStep> {
    if shape.is_mesh() {
        seq![
            AssemblyStep::UseMesh,
            AssemblyStep::InitMeshSize,
            AssemblyStep::InitMeshLifetime,
            AssemblyStep::InitMeshAge,
        ]
    } else {
        Seq::empty()
    }
}

/// One step for each render modifier, in their order.
pub open spec fn render_steps(n: nat) -> Seq<AssemblyStep> {
    Seq::new(n, |k: int| AssemblyStep::Render(k as usize))
}

/// The steps after the modifiers: billboards get their texture and orientation.
pub open spec fn billboard_steps(shape: ParticleMeshShape) -> Seq<AssemblyStep> {
    if shape.is_mesh() {
        Seq::empty()
    } else {
        seq![AssemblyStep::RenderTexture, AssemblyStep::RenderOrient]
    }
}

/// All the steps, in order, that put together an effect of the given shape and modifiers.
pub open spec fn assembly(
    shape: ParticleMeshShape,
    init: Seq<ModifierKind>,
    update: Seq<ModifierKind>,
    n_render: nat,
) -> Seq<AssemblyStep> {
    mesh_steps(shape) + stage_steps(init, true) + stage_steps(update, false) + render_steps(
        n_render,
    ) + billboard_steps(shape)
}

/// Appends the steps for one modifier list to `plan`.
fn push_stage_steps(plan: &mut Vec<AssemblyStep>, kinds: &Vec<ModifierKind>, init: bool)
    ensures
        final(plan)@ == old(plan)@ + stage_steps(kinds@, init),
{
    let ghost start = plan@;
    let n = kinds.len();
    let mut i: usize = 0;
    while i < n
        invariant
            n == kinds.len(),
            i <= n,
            plan@ == start + stage_steps(kinds@.take(i as int), init),
        decreases n - i,
    {
        let ghost before = plan@;
        proof {
            assert(kinds@.take(i + 1).drop_last() =~= kinds@.take(i as int));
            assert(kinds@.take(i + 1)[i as int] == kinds@[i as int]);
        }
        if init && kinds[i].is_init() {
            plan.push(AssemblyStep::Init(i));
        } else if !init && kinds[i].is_update() {
            plan.push(AssemblyStep::Update(i));
        }
        assert(plan@ =~= start + stage_steps(kinds@.take(i + 1), init));
        i = i + 1;
    }
    assert(kinds@.take(n as int) =~= kinds@);
}

/// The steps, in order, that put together an effect asset with the given shape, init and
/// update modifiers and number of render modifiers, once the asset is created.
pub fn assembly_plan(
    shape: ParticleMeshShape,
    init: &Vec<ModifierKind>,
    update: &Vec<ModifierKind>,
    n_render: usize,
) -> (plan: Vec<AssemblyStep>)
    ensures
        plan@ == assembly(shape, init@, update@, n_render as nat),
        shape != ParticleMeshShape::Billboard ==> {
            &&& plan@.len() >= 4
            &&& plan@[0] == AssemblyStep::UseMesh
            &&& plan@[1] == AssemblyStep::InitMeshSize
            &&& plan@[2] == AssemblyStep::InitMeshLifetime
            &&& plan@[3] == AssemblyStep::InitMeshAge
            &&& !plan@.contains(AssemblyStep::RenderTexture)
            &&& !plan@.contains(AssemblyStep::RenderOrient)
        },
        shape == ParticleMeshShape::Billboard ==> {
            &&& plan@.len() >= 2
            &&& plan@[plan@.len() - 2] == AssemblyStep::RenderTexture
            &&& plan@[plan@.len() - 1] == AssemblyStep::RenderOrient
            &&& !plan@.contains(AssemblyStep::UseMesh)
            &&& !plan@.contains(AssemblyStep::InitMeshSize)
            &&& !plan@.contains(AssemblyStep::InitMeshLifetime)
            &&& !plan@.contains(AssemblyStep::InitMeshAge)
        },
        forall|k: usize| #[trigger] plan@.contains(AssemblyStep::Render(k)) <==> k < n_render,
        forall|i: usize| #[trigger] plan@.contains(AssemblyStep::Init(i)) <==> i < init.len()
            && init@[i as int].acts_at_init(),
        forall|i: usize| #[trigger] plan@.contains(AssemblyStep::Update(i)) <==> i < update.len()
            && update@[i as int].acts_at_update(),
        in_order(plan@),
{
    let mut plan: Vec<AssemblyStep> = Vec::new();
    if shape.uses_mesh() {
        plan.push(AssemblyStep::UseMesh);
        plan.push(AssemblyStep::InitMeshSize);
        plan.push(AssemblyStep::InitMeshLifetime);
        plan.push(AssemblyStep::InitMeshAge);
    }
    assert(plan@ =~= mesh_steps(shape));
    push_stage_steps(&mut plan, init, true);
    push_stage_steps(&mut plan, update, false);
    let ghost before_render = plan@;
    let mut k: usize = 0;
    while k < n_render
        invariant
            k <= n_render,
            plan@ == before_render + render_steps(k as nat),
        decreases n_render - k,
    {
        plan.push(AssemblyStep::Render(k));
        assert(plan@ =~= before_render + render_steps((k + 1) as nat));
        k = k + 1;
    }
    if !shape.uses_mesh() {
        plan.push(AssemblyStep::RenderTexture);
        plan.push(AssemblyStep::RenderOrient);
    }
    assert(plan@ =~= assembly(shape, init@, update@, n_render as nat));
    proof {
        assert(init@.len() == init.len() && update@.len() == update.len());
        lemma_assembly_layout(shape, init@, update@, n_render as nat);
    }
    plan
}

/// The steps of a list are one step per modifier that acts at the list's stage, naming
/// that modifier's position, and nothing else.
pub proof fn lemma_stage_steps_exact(kinds: Seq<ModifierKind>, init: bool)
    requires
        kinds.len() <= usize::MAX,
    ensures
        forall|i: int|
            0 <= i < kinds.len() ==> (#[trigger] stage_steps(kinds, init).contains(
                AssemblyStep::Init(i as usize),
            ) <==> init && kinds[i].acts_at_init()),
        forall|i: int|
            0 <= i < kinds.len() ==> (#[trigger] stage_steps(kinds, init).contains(
                AssemblyStep::Update(i as usize),
            ) <==> !init && kinds[i].acts_at_update()),
        forall|k: int|
            0 <= k < stage_steps(kinds, init).len() ==> {
                let s = #[trigger] stage_steps(kinds, init)[k];
                ||| s matches AssemblyStep::Init(j) && init && j < kinds.len()
                    && kinds[j as int].acts_at_init()
                ||| s matches AssemblyStep::Update(j) && !init && j < kinds.len()
                    && kinds[j as int].acts_at_update()
            },
    decreases kinds.len(),
{
    if kinds.len() > 0 {
        let n = (kinds.len() - 1) as int;
        let front = kinds.drop_last();
        lemma_stage_steps_exact(front, init);
        let rest = stage_steps(front, init);
        let all = stage_steps(kinds, init);
        assert forall|k: int| 0 <= k < all.len() implies {
            let s = #[trigger] all[k];
            ||| s matches AssemblyStep::Init(j) && init && j < kinds.len()
                && kinds[j as int].acts_at_init()
            ||| s matches AssemblyStep::Update(j) && !init && j < kinds.len()
                && kinds[j as int].acts_at_update()
        } by {
            if k < rest.len() {
                assert(all[k] == rest[k]);
                let s = rest[k];
                if let AssemblyStep::Init(j) = s {
                    assert(kinds[j as int] == front[j as int]);
                }
                if let AssemblyStep::Update(j) = s {
                    assert(kinds[j as int] == front[j as int]);
                }
            }
        }
        assert forall|i: int| 0 <= i < kinds.len() implies (#[trigger] all.contains(
            AssemblyStep::Init(i as usize),
        ) <==> init && kinds[i].acts_at_init()) by {
            if i < n {
                assert(kinds[i] == front[i]);
                if rest.contains(AssemblyStep::Init(i as usize)) {
                    let k = choose|k: int| 0 <= k < rest.len() && rest[k] == AssemblyStep::Init(i as usize);
                    assert(all[k] == rest[k]);
                }
                if all.contains(AssemblyStep::Init(i as usize)) {
                    let k = choose|k: int| 0 <= k < all.len() && all[k] == AssemblyStep::Init(i as usize);
                    if k < rest.len() {
                        assert(all[k] == rest[k]);
                    }
                }
            } else {
                if init && kinds[n].acts_at_init() {
                    assert(all[rest.len() as int] == AssemblyStep::Init(i as usize));
                }
                if all.contains(AssemblyStep::Init(i as usize)) {
                    let k = choose|k: int| 0 <= k < all.len() && all[k] == AssemblyStep::Init(i as usize);
                    if k < rest.len() {
                        assert(all[k] == rest[k]);
                    }
                }
            }
        }
        assert forall|i: int| 0 <= i < kinds.len() implies (#[trigger] all.contains(
            AssemblyStep::Update(i as usize),
        ) <==> !init && kinds[i].acts_at_update()) by {
            if i < n {
                assert(kinds[i] == front[i]);
                if rest.contains(AssemblyStep::Update(i as usize)) {
                    let k = choose|k: int| 0 <= k < rest.len() && rest[k] == AssemblyStep::Update(i as usize);
                    assert(all[k] == rest[k]);
                }
                if all.contains(AssemblyStep::Update(i as usize)) {
                    let k = choose|k: int| 0 <= k < all.len() && all[k] == AssemblyStep::Update(i as usize);
                    if k < rest.len() {
                        assert(all[k] == rest[k]);
                    }
                }
            } else {
                if !init && kinds[n].acts_at_update() {
                    assert(all[rest.len() as int] == AssemblyStep::Update(i as usize));
                }
                if all.contains(AssemblyStep::Update(i as usize)) {
                    let k = choose|k: int| 0 <= k < all.len() && all[k] == AssemblyStep::Update(i as usize);
                    if k < rest.len() {
                        assert(all[k] == rest[k]);
                    }
                }
            }
        }
    }
}

/// A mesh effect gets its mesh and never a texture; a billboard gets its texture and
/// orientation and never a mesh.
pub proof fn lemma_mesh_or_texture(
    shape: ParticleMeshShape,
    init: Seq<ModifierKind>,
    update: Seq<ModifierKind>,
    n_render: nat,
)
    requires
        init.len() <= usize::MAX,
        update.len() <= usize::MAX,
    ensures
        assembly(shape, init, update, n_render).contains(AssemblyStep::UseMesh)
            <==> shape.is_mesh(),
        assembly(shape, init, update, n_render).contains(AssemblyStep::RenderTexture)
            <==> !shape.is_mesh(),
        assembly(shape, init, update, n_render).contains(AssemblyStep::RenderOrient)
            <==> !shape.is_mesh(),
{
    lemma_stage_steps_exact(init, true);
    lemma_stage_steps_exact(update, false);
    let a = mesh_steps(shape);
    let b = stage_steps(init, true);
    let c = stage_steps(update, false);
    let d = render_steps(n_render);
    let e = billboard_steps(shape);
    let all = assembly(shape, init, update, n_render);
    assert(all == a + b + c + d + e);
    let special = |s: AssemblyStep|
        s == AssemblyStep::UseMesh || s == AssemblyStep::RenderTexture || s
            == AssemblyStep::RenderOrient;
    assert forall|k: int| 0 <= k < all.len() && #[trigger] special(all[k]) implies (k < a.len()
        || k >= a.len() + b.len() + c.len() + d.len()) by {
        if a.len() <= k < a.len() + b.len() {
            assert(all[k] == b[k - a.len()]);
        } else if a.len() + b.len() <= k < a.len() + b.len() + c.len() {
            assert(all[k] == c[k - a.len() - b.len()]);
        } else if a.len() + b.len() + c.len() <= k < a.len() + b.len() + c.len() + d.len() {
            assert(all[k] == d[k - a.len() - b.len() - c.len()]);
        }
    }
    if shape.is_mesh() {
        assert(all[0] == AssemblyStep::UseMesh);
        assert(e.len() == 0);
        if all.contains(AssemblyStep::RenderTexture) {
            let k = choose|k: int| 0 <= k < all.len() && all[k] == AssemblyStep::RenderTexture;
            assert(special(all[k]));
        }
        if all.contains(AssemblyStep::RenderOrient) {
            let k = choose|k: int| 0 <= k < all.len() && all[k] == AssemblyStep::RenderOrient;
            assert(special(all[k]));
        }
    } else {
        assert(a.len() == 0);
        let base = (b.len() + c.len() + d.len()) as int;
        assert(all[base] == AssemblyStep::RenderTexture);
        assert(all[base + 1] == AssemblyStep::RenderOrient);
        if all.contains(AssemblyStep::UseMesh) {
            let k = choose|k: int| 0 <= k < all.len() && all[k] == AssemblyStep::UseMesh;
            assert(special(all[k]));
        }
    }
}

/// Where a step belongs in an assembly: mesh setup first, in the order mesh, size, lifetime,
/// age; then init modifiers, update modifiers and render modifiers; then texture and
/// orientation.
pub open spec fn step_rank(s: AssemblyStep) -> int {
    match s {
        AssemblyStep::UseMesh => 0,
        AssemblyStep::InitMeshSize => 1,
        AssemblyStep::InitMeshLifetime => 2,
        AssemblyStep::InitMeshAge => 3,
        AssemblyStep::Init(_) => 4,
        AssemblyStep::Update(_) => 5,
        AssemblyStep::Render(_) => 6,
        AssemblyStep::RenderTexture => 7,
        AssemblyStep::RenderOrient => 8,
    }
}

/// The position a modifier step names; zero for the other steps.
pub open spec fn step_position(s: AssemblyStep) -> int {
    match s {
        AssemblyStep::Init(i) => i as int,
        AssemblyStep::Update(i) => i as int,
        AssemblyStep::Render(i) => i as int,
        _ => 0,
    }
}

/// `s` comes strictly before `t`: an earlier group, or the same group and an earlier position.
pub open spec fn comes_before(s: AssemblyStep, t: AssemblyStep) -> bool {
    step_rank(s) < step_rank(t) || (step_rank(s) == step_rank(t) && step_position(s)
        < step_position(t))
}

/// Every step of `a` comes strictly before every later step.
pub open spec fn in_order(a: Seq<AssemblyStep>) -> bool {
    forall|p: int, q: int| 0 <= p < q < a.len() ==> comes_before(#[trigger] a[p], #[trigger] a[q])
}

proof fn lemma_stage_steps_in_order(kinds: Seq<ModifierKind>, init: bool)
    requires
        kinds.len() <= usize::MAX,
    ensures
        in_order(stage_steps(kinds, init)),
        forall|k: int|
            0 <= k < stage_steps(kinds, init).len() ==> step_rank(#[trigger] stage_steps(kinds, init)[k])
                == (if init { 4int } else { 5int }) && step_position(stage_steps(kinds, init)[k])
                < kinds.len(),
    decreases kinds.len(),
{
    if kinds.len() > 0 {
        let front = kinds.drop_last();
        lemma_stage_steps_in_order(front, init);
        lemma_stage_steps_exact(kinds, init);
    }
}

proof fn lemma_in_order_concat(x: Seq<AssemblyStep>, y: Seq<AssemblyStep>)
    requires
        in_order(x),
        in_order(y),
        forall|p: int, q: int|
            0 <= p < x.len() && 0 <= q < y.len() ==> step_rank(#[trigger] x[p]) < step_rank(
                #[trigger] y[q],
            ),
    ensures
        in_order(x + y),
{
    let z = x + y;
    assert forall|p: int, q: int| 0 <= p < q < z.len() implies comes_before(
        #[trigger] z[p],
        #[trigger] z[q],
    ) by {
        if q < x.len() {
            assert(z[p] == x[p] && z[q] == x[q]);
        } else if p >= x.len() {
            assert(z[p] == y[p - x.len()] && z[q] == y[q - x.len()]);
        } else {
            assert(z[p] == x[p] && z[q] == y[q - x.len()]);
        }
    }
}

/// How an effect asset is put together, for every shape and modifier lists:
/// - a shape other than the billboard begins with its mesh, then a size, a lifetime and an
///   age for every particle, and a billboard gets none of these;
/// - a billboard ends with its texture and then its orientation, and a mesh gets neither;
/// - every render modifier is applied, and nothing else is rendered;
/// - every step comes in its group's place, and within a group in the order of the
///   modifiers, each once.
#[verifier::spinoff_prover]
#[verifier::rlimit(60)]
pub proof fn lemma_assembly_layout(
    shape: ParticleMeshShape,
    init: Seq<ModifierKind>,
    update: Seq<ModifierKind>,
    n_render: nat,
)
    requires
        init.len() <= usize::MAX,
        update.len() <= usize::MAX,
        n_render <= usize::MAX,
    ensures
        ({
            let a = assembly(shape, init, update, n_render);
            &&& shape != ParticleMeshShape::Billboard ==> {
                &&& a.len() >= 4
                &&& a[0] == AssemblyStep::UseMesh
                &&& a[1] == AssemblyStep::InitMeshSize
                &&& a[2] == AssemblyStep::InitMeshLifetime
                &&& a[3] == AssemblyStep::InitMeshAge
            }
            &&& shape == ParticleMeshShape::Billboard ==> {
                &&& a.len() >= 2
                &&& a[a.len() - 2] == AssemblyStep::RenderTexture
                &&& a[a.len() - 1] == AssemblyStep::RenderOrient
            }
            &&& a.contains(AssemblyStep::UseMesh) <==> shape != ParticleMeshShape::Billboard
            &&& a.contains(AssemblyStep::InitMeshSize) <==> shape != ParticleMeshShape::Billboard
            &&& a.contains(AssemblyStep::InitMeshLifetime) <==> shape
                != ParticleMeshShape::Billboard
            &&& a.contains(AssemblyStep::InitMeshAge) <==> shape != ParticleMeshShape::Billboard
            &&& a.contains(AssemblyStep::RenderTexture) <==> shape == ParticleMeshShape::Billboard
            &&& a.contains(AssemblyStep::RenderOrient) <==> shape == ParticleMeshShape::Billboard
            &&& forall|k: usize| #[trigger] a.contains(AssemblyStep::Render(k)) <==> k < n_render
            &&& forall|i: usize| #[trigger] a.contains(AssemblyStep::Init(i)) <==> i < init.len()
                && init[i as int].acts_at_init()
            &&& forall|i: usize| #[trigger] a.contains(AssemblyStep::Update(i)) <==> i
                < update.len() && update[i as int].acts_at_update()
            &&& in_order(a)
        }),
{
    lemma_stage_steps_in_order(init, true);
    lemma_stage_steps_in_order(update, false);
    let m = mesh_steps(shape);
    let b = stage_steps(init, true);
    let c = stage_steps(update, false);
    let d = render_steps(n_render);
    let e = billboard_steps(shape);
    let a = assembly(shape, init, update, n_render);
    assert(in_order(m));
    assert(in_order(e));
    assert(in_order(d));
    lemma_in_order_concat(m, b);
    lemma_in_order_concat(m + b, c);
    lemma_in_order_concat(m + b + c, d);
    lemma_in_order_concat(m + b + c + d, e);
    assert(a == m + b + c + d + e);
    // Which group each position of the assembly comes from.
    assert forall|p: int| 0 <= p < a.len() implies {
        ||| p < m.len() && #[trigger] a[p] == m[p]
        ||| m.len() <= p < m.len() + b.len() && a[p] == b[p - m.len()]
        ||| m.len() + b.len() <= p < m.len() + b.len() + c.len() && a[p] == c[p - m.len() - b.len()]
        ||| m.len() + b.len() + c.len() <= p < m.len() + b.len() + c.len() + d.len() && a[p] == d[p
            - m.len() - b.len() - c.len()]
        ||| m.len() + b.len() + c.len() + d.len() <= p && a[p] == e[p - m.len() - b.len() - c.len()
            - d.len()]
    } by {}
    let fixed = |s: AssemblyStep| step_rank(s) != 4 && step_rank(s) != 5 && step_rank(s) != 6;
    assert forall|s: AssemblyStep| #[trigger] fixed(s) && a.contains(s) implies m.contains(s)
        || e.contains(s) by {
        let p = choose|p: int| 0 <= p < a.len() && a[p] == s;
        if m.len() <= p < m.len() + b.len() {
            assert(step_rank(b[p - m.len()]) == 4);
        } else if m.len() + b.len() <= p < m.len() + b.len() + c.len() {
            assert(step_rank(c[p - m.len() - b.len()]) == 5);
        } else if m.len() + b.len() + c.len() <= p < m.len() + b.len() + c.len() + d.len() {
            assert(step_rank(d[p - m.len() - b.len() - c.len()]) == 6);
        } else if p < m.len() {
            assert(m[p] == s);
        } else {
            assert(e[p - m.len() - b.len() - c.len() - d.len()] == s);
        }
    }
    if shape != ParticleMeshShape::Billboard {
        assert(a[0] == m[0] && a[1] == m[1] && a[2] == m[2] && a[3] == m[3]);
        assert(a.contains(AssemblyStep::UseMesh));
        assert(a.contains(AssemblyStep::InitMeshSize));
        assert(a.contains(AssemblyStep::InitMeshLifetime));
        assert(a.contains(AssemblyStep::InitMeshAge));
        assert(fixed(AssemblyStep::RenderTexture));
        assert(fixed(AssemblyStep::RenderOrient));
    } else {
        let n = a.len() as int;
        assert(a[n - 2] == e[0] && a[n - 1] == e[1]);
        assert(a.contains(AssemblyStep::RenderTexture));
        assert(a.contains(AssemblyStep::RenderOrient));
        assert(fixed(AssemblyStep::UseMesh));
        assert(fixed(AssemblyStep::InitMeshSize));
        assert(fixed(AssemblyStep::InitMeshLifetime));
        assert(fixed(AssemblyStep::InitMeshAge));
    }
    lemma_stage_steps_exact(init, true);
    lemma_stage_steps_exact(update, false);
    assert forall|i: usize| #[trigger] a.contains(AssemblyStep::Init(i)) <==> i < init.len()
        && init[i as int].acts_at_init() by {
        if i < init.len() && init[i as int].acts_at_init() {
            let ii: int = i as int;
            assert(stage_steps(init, true).contains(AssemblyStep::Init(ii as usize)));
            let q = choose|q: int| 0 <= q < b.len() && b[q] == AssemblyStep::Init(i);
            assert(a[m.len() + q] == b[q]);
        }
        if a.contains(AssemblyStep::Init(i)) {
            let p = choose|p: int| 0 <= p < a.len() && a[p] == AssemblyStep::Init(i);
            if m.len() <= p < m.len() + b.len() {
                let q = p - m.len();
                assert(b[q] == AssemblyStep::Init(i));
                assert(b.contains(AssemblyStep::Init(i)));
                let ii: int = i as int;
                assert(stage_steps(init, true).contains(AssemblyStep::Init(ii as usize)));
            } else if m.len() + b.len() <= p < m.len() + b.len() + c.len() {
                assert(step_rank(c[p - m.len() - b.len()]) == 5);
            } else if m.len() + b.len() + c.len() <= p < m.len() + b.len() + c.len() + d.len() {
                assert(step_rank(d[p - m.len() - b.len() - c.len()]) == 6);
            } else {
                assert(fixed(a[p]));
            }
        }
    }
    assert forall|i: usize| #[trigger] a.contains(AssemblyStep::Update(i)) <==> i < update.len()
        && update[i as int].acts_at_update() by {
        if i < update.len() && update[i as int].acts_at_update() {
            let ii: int = i as int;
            assert(stage_steps(update, false).contains(AssemblyStep::Update(ii as usize)));
            let q = choose|q: int| 0 <= q < c.len() && c[q] == AssemblyStep::Update(i);
            assert(a[m.len() + b.len() + q] == c[q]);
        }
        if a.contains(AssemblyStep::Update(i)) {
            let p = choose|p: int| 0 <= p < a.len() && a[p] == AssemblyStep::Update(i);
            if m.len() <= p < m.len() + b.len() {
                assert(step_rank(b[p - m.len()]) == 4);
            } else if m.len() + b.len() <= p < m.len() + b.len() + c.len() {
                let q = p - m.len() - b.len();
                assert(c[q] == AssemblyStep::Update(i));
                assert(c.contains(AssemblyStep::Update(i)));
                let ii: int = i as int;
                assert(stage_steps(update, false).contains(AssemblyStep::Update(ii as usize)));
            } else if m.len() + b.len() + c.len() <= p < m.len() + b.len() + c.len() + d.len() {
                assert(step_rank(d[p - m.len() - b.len() - c.len()]) == 6);
            } else {
                assert(fixed(a[p]));
            }
        }
    }
    assert forall|k: usize| #[trigger] a.contains(AssemblyStep::Render(k)) <==> k < n_render by {
        if k < n_render {
            let p = m.len() + b.len() + c.len() + k;
            assert(a[p] == d[k as int]);
        }
        if a.contains(AssemblyStep::Render(k)) {
            let p = choose|p: int| 0 <= p < a.len() && a[p] == AssemblyStep::Render(k);
            if m.len() <= p < m.len() + b.len() {
                assert(step_rank(b[p - m.len()]) == 4);
            } else if m.len() + b.len() <= p < m.len() + b.len() + c.len() {
                assert(step_rank(c[p - m.len() - b.len()]) == 5);
            } else if m.len() + b.len() + c.len() <= p < m.len() + b.len() + c.len() + d.len() {
                assert(d[p - m.len() - b.len() - c.len()] == AssemblyStep::Render(k));
            }
        }
    }
}

/// The stage each kind of modifier acts at: the set-attribute, inherit-attribute, position
/// and velocity modifiers at birth; acceleration, drag, spawn events and conform-to-sphere
/// on every frame.
pub proof fn lemma_modifier_stages()
    ensures
        ModifierKind::SetAttribute.acts_at_init() && !ModifierKind::SetAttribute.acts_at_update(),
        ModifierKind::InheritAttribute.acts_at_init()
            && !ModifierKind::InheritAttribute.acts_at_update(),
        ModifierKind::SetPositionCircle.acts_at_init()
            && !ModifierKind::SetPositionCircle.acts_at_update(),
        ModifierKind::SetPositionSphere.acts_at_init()
            && !ModifierKind::SetPositionSphere.acts_at_update(),
        ModifierKind::SetPositionCone3d.acts_at_init()
            && !ModifierKind::SetPositionCone3d.acts_at_update(),
        ModifierKind::SetVelocityCircle.acts_at_init()
            && !ModifierKind::SetVelocityCircle.acts_at_update(),
        ModifierKind::SetVelocitySphere.acts_at_init()
            && !ModifierKind::SetVelocitySphere.acts_at_update(),
        ModifierKind::SetVelocityTangent.acts_at_init()
            && !ModifierKind::SetVelocityTangent.acts_at_update(),
        ModifierKind::Accel.acts_at_update() && !ModifierKind::Accel.acts_at_init(),
        ModifierKind::LinearDrag.acts_at_update() && !ModifierKind::LinearDrag.acts_at_init(),
        ModifierKind::EmitSpawnEvent.acts_at_update()
            && !ModifierKind::EmitSpawnEvent.acts_at_init(),
        ModifierKind::ConformToSphere.acts_at_update()
            && !ModifierKind::ConformToSphere.acts_at_init(),
{
}

/// The names under which the editor offers the kinds of modifier.
pub proof fn lemma_modifier_labels()
    ensures
        ModifierKind::SetAttribute.label_view() == "🗠 SetAttributeModifier"@,
        ModifierKind::InheritAttribute.label_view() == "⛓ InheritAttributeModifier"@,
        ModifierKind::SetPositionCircle.label_view() == "🕂 SetPositionCircleModifier"@,
        ModifierKind::SetPositionSphere.label_view() == "🕂 SetPositionSphereModifier"@,
        ModifierKind::SetPositionCone3d.label_view() == "🕂 SetPositionCone3dModifier"@,
        ModifierKind::SetVelocityCircle.label_view() == "⏱ SetVelocityCircleModifier"@,
        ModifierKind::SetVelocitySphere.label_view() == "⏱ SetVelocitySphereModifier"@,
        ModifierKind::SetVelocityTangent.label_view() == "⏱ SetVelocityTangentModifier"@,
        ModifierKind::Accel.label_view() == "🕛 AccelModifier"@,
        ModifierKind::LinearDrag.label_view() == "☄ LinearDragModifier"@,
        ModifierKind::EmitSpawnEvent.label_view() == "⚡ EmitSpawnEvent"@,
        ModifierKind::ConformToSphere.label_view() == "📌 ConformToSphereModifier"@,
        RenderModifierKind::SizeOverLifetime.label_view() == "📏 SizeOverLifetime"@,
        RenderModifierKind::ColorOverLifetime.label_view() == "🎨 ColorOverLifetime"@,
{
}

} // verus!
