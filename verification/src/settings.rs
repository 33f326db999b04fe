use vstd::prelude::*;

verus! {

/// The shape that each particle of an effect is drawn with.
#[derive(Clone, Copy, Debug, PartialEq, Eq, Structural)]
pub enum ParticleMeshShape {
    Billboard,
    Cube,
    Sphere,
    Capsule,
    Torus,
    Cylinder,
    Cone,
    Plane,
}

impl Default for ParticleMeshShape {
    fn default() -> (r: Self)
        ensures
            r == ParticleMeshShape::Billboard,
    {
        ParticleMeshShape::Billboard
    }
}

/// Every mesh shape, in the order in which the editor offers them.
pub open spec fn all_mesh_shapes() -> Seq<ParticleMeshShape> {
    seq![
        ParticleMeshShape::Billboard,
        ParticleMeshShape::Cube,
        ParticleMeshShape::Sphere,
        ParticleMeshShape::Capsule,
        ParticleMeshShape::Torus,
        ParticleMeshShape::Cylinder,
        ParticleMeshShape::Cone,
        ParticleMeshShape::Plane,
    ]
}

impl ParticleMeshShape {
    /// Particles of every shape but the billboard are drawn as meshes.
    pub open spec fn is_mesh(self) -> bool {
        self != ParticleMeshShape::Billboard
    }

    /// Whether particles of this shape are drawn as meshes rather than as textured billboards.
    pub fn uses_mesh(&self) -> (r: bool)
        ensures
            r == self.is_mesh(),
    {
        match self {
            ParticleMeshShape::Billboard => false,
            _ => true,
        }
    }

    pub open spec fn label_view(self) -> Seq<char> {
        match self {
            ParticleMeshShape::Billboard => "Billboard"@,
            ParticleMeshShape::Cube => "Cube"@,
            ParticleMeshShape::Sphere => "Sphere"@,
            ParticleMeshShape::Capsule => "Capsule"@,
            ParticleMeshShape::Torus => "Torus"@,
            ParticleMeshShape::Cylinder => "Cylinder"@,
            ParticleMeshShape::Cone => "Cone"@,
            ParticleMeshShape::Plane => "Plane"@,
        }
    }

    /// The shape's name in the editor.
    pub fn label(&self) -> (r: &'static str)
        ensures
            r@ == self.label_view(),
    {
        match self {
            ParticleMeshShape::Billboard => "Billboard",
            ParticleMeshShape::Cube => "Cube",
            ParticleMeshShape::Sphere => "Sphere",
            ParticleMeshShape::Capsule => "Capsule",
            ParticleMeshShape::Torus => "Torus",
            ParticleMeshShape::Cylinder => "Cylinder",
            ParticleMeshShape::Cone => "Cone",
            ParticleMeshShape::Plane => "Plane",
        }
    }

    /// Every mesh shape, in the order in which the editor offers them.
    pub fn all() -> (shapes: Vec<ParticleMeshShape>)
        ensures
            shapes@ == all_mesh_shapes(),
    {
        let shapes = vec![
            ParticleMeshShape::Billboard,
            ParticleMeshShape::Cube,
            ParticleMeshShape::Sphere,
            ParticleMeshShape::Capsule,
            ParticleMeshShape::Torus,
            ParticleMeshShape::Cylinder,
            ParticleMeshShape::Cone,
            ParticleMeshShape::Plane,
        ];
        assert(shapes@ =~= all_mesh_shapes());
        shapes
    }
}

/// The editor offers every mesh shape, each once.
pub proof fn lemma_all_mesh_shapes_once(shape: ParticleMeshShape)
    ensures
        all_mesh_shapes().contains(shape),
        all_mesh_shapes().no_duplicates(),
        all_mesh_shapes().len() == 8,
{
    let s = all_mesh_shapes();
    let i: int = match shape {
        ParticleMeshShape::Billboard => 0,
        ParticleMeshShape::Cube => 1,
        ParticleMeshShape::Sphere => 2,
        ParticleMeshShape::Capsule => 3,
        ParticleMeshShape::Torus => 4,
        ParticleMeshShape::Cylinder => 5,
        ParticleMeshShape::Cone => 6,
        ParticleMeshShape::Plane => 7,
    };
    assert(s[i] == shape);
    assert forall|a: int, b: int| 0 <= a < s.len() && 0 <= b < s.len() && a != b implies s[a]
        != s[b] by {}
}

/// The names of the mesh shapes in the editor, the order in which it offers them, and
/// which of them are drawn as meshes.
pub proof fn lemma_mesh_shape_labels()
    ensures
        ParticleMeshShape::Billboard.label_view() == "Billboard"@,
        ParticleMeshShape::Cube.label_view() == "Cube"@,
        ParticleMeshShape::Sphere.label_view() == "Sphere"@,
        ParticleMeshShape::Capsule.label_view() == "Capsule"@,
        ParticleMeshShape::Torus.label_view() == "Torus"@,
        ParticleMeshShape::Cylinder.label_view() == "Cylinder"@,
        ParticleMeshShape::Cone.label_view() == "Cone"@,
        ParticleMeshShape::Plane.label_view() == "Plane"@,
        all_mesh_shapes() == seq![
            ParticleMeshShape::Billboard,
            ParticleMeshShape::Cube,
            ParticleMeshShape::Sphere,
            ParticleMeshShape::Capsule,
            ParticleMeshShape::Torus,
            ParticleMeshShape::Cylinder,
            ParticleMeshShape::Cone,
            ParticleMeshShape::Plane,
        ],
        !ParticleMeshShape::Billboard.is_mesh(),
        ParticleMeshShape::Cube.is_mesh() && ParticleMeshShape::Sphere.is_mesh()
            && ParticleMeshShape::Capsule.is_mesh() && ParticleMeshShape::Torus.is_mesh()
            && ParticleMeshShape::Cylinder.is_mesh() && ParticleMeshShape::Cone.is_mesh()
            && ParticleMeshShape::Plane.is_mesh(),
{
}

/// How the particles of an effect are turned.
#[derive(Clone, Copy, Debug, PartialEq, Eq, Structural)]
pub enum OrientModeEditor {
    ParallelCameraDepthPlane,
    FaceCameraPosition,
    AlongVelocity,
}

impl Default for OrientModeEditor {
    fn default() -> (r: Self)
        ensures
            r == OrientModeEditor::AlongVelocity,
    {
        OrientModeEditor::AlongVelocity
    }
}

impl OrientModeEditor {
    pub open spec fn label_view(self) -> Seq<char> {
        match self {
            OrientModeEditor::ParallelCameraDepthPlane => "ParallelCamera"@,
            OrientModeEditor::FaceCameraPosition => "FaceCamera"@,
            OrientModeEditor::AlongVelocity => "AlongVelocity"@,
        }
    }

    /// The orientation's name in the editor.
    pub fn label(&self) -> (r: &'static str)
        ensures
            r@ == self.label_view(),
    {
        match self {
            OrientModeEditor::ParallelCameraDepthPlane => "ParallelCamera",
            OrientModeEditor::FaceCameraPosition => "FaceCamera",
            OrientModeEditor::AlongVelocity => "AlongVelocity",
        }
    }
}

/// How the particles of an effect are blended with what lies behind them.
#[derive(Clone, Copy, Debug, PartialEq, Eq, Structural)]
pub enum AlphaModeEditor {
    Blend,
    Premultiply,
    Add,
    Multiply,
    Opaque,
}

impl Default for AlphaModeEditor {
    fn default() -> (r: Self)
        ensures
            r == AlphaModeEditor::Blend,
    {
        AlphaModeEditor::Blend
    }
}

impl AlphaModeEditor {
    pub open spec fn label_view(self) -> Seq<char> {
        match self {
            AlphaModeEditor::Blend => "Blend"@,
            AlphaModeEditor::Premultiply => "Premultiply"@,
            AlphaModeEditor::Add => "Add"@,
            AlphaModeEditor::Multiply => "Multiply"@,
            AlphaModeEditor::Opaque => "Opaque"@,
        }
    }

    /// The blending's name in the editor.
    pub fn label(&self) -> (r: &'static str)
        ensures
            r@ == self.label_view(),
    {
        match self {
            AlphaModeEditor::Blend => "Blend",
            AlphaModeEditor::Premultiply => "Premultiply",
            AlphaModeEditor::Add => "Add",
            AlphaModeEditor::Multiply => "Multiply",
            AlphaModeEditor::Opaque => "Opaque",
        }
    }
}

/// The names of the orientations and blendings in the editor.
pub proof fn lemma_mode_labels()
    ensures
        OrientModeEditor::ParallelCameraDepthPlane.label_view() == "ParallelCamera"@,
        OrientModeEditor::FaceCameraPosition.label_view() == "FaceCamera"@,
        OrientModeEditor::AlongVelocity.label_view() == "AlongVelocity"@,
        AlphaModeEditor::Blend.label_view() == "Blend"@,
        AlphaModeEditor::Premultiply.label_view() == "Premultiply"@,
        AlphaModeEditor::Add.label_view() == "Add"@,
        AlphaModeEditor::Multiply.label_view() == "Multiply"@,
        AlphaModeEditor::Opaque.label_view() == "Opaque"@,
{
}

/// Whether particles move with the effect's transform or stay in the world.
#[derive(Clone, Copy, Debug, PartialEq, Eq, Structural)]
pub enum SimulationSpaceEditor {
    Global,
    Local,
}

impl Default for SimulationSpaceEditor {
    fn default() -> (r: Self)
        ensures
            r == SimulationSpaceEditor::Global,
    {
        SimulationSpaceEditor::Global
    }
}

/// When, in a frame, particles are moved by their velocity.
#[derive(Clone, Copy, Debug, PartialEq, Eq, Structural)]
pub enum MotionIntegrationEditor {
    NoIntegration,
    PreUpdate,
    PostUpdate,
}

impl Default for MotionIntegrationEditor {
    fn default() -> (r: Self)
        ensures
            r == MotionIntegrationEditor::PostUpdate,
    {
        MotionIntegrationEditor::PostUpdate
    }
}

/// A texture that particles can be drawn with: its image file and its name in the editor.
#[derive(Clone, Copy, Debug)]
pub struct ParticleTexture {
    pub filename: &'static str,
    pub ui_label: &'static str,
}

/// The textures that the editor offers, by index.
pub fn particle_textures() -> (textures: Vec<ParticleTexture>)
    ensures
        textures.len() == 7,
        textures@[0].filename@ == "cloud.png"@ && textures@[0].ui_label@ == "Cloud1"@,
        textures@[1].filename@ == "cloud2.png"@ && textures@[1].ui_label@ == "Cloud2"@,
        textures@[2].filename@ == "spark1.png"@ && textures@[2].ui_label@ == "Spark1"@,
        textures@[3].filename@ == "spark2.png"@ && textures@[3].ui_label@ == "Spark2"@,
        textures@[4].filename@ == "spark3.png"@ && textures@[4].ui_label@ == "Spark3"@,
        textures@[5].filename@ == "glow1.png"@ && textures@[5].ui_label@ == "Glow1"@,
        textures@[6].filename@ == "splat1.png"@ && textures@[6].ui_label@ == "Splat1"@,
{
    vec![
        ParticleTexture { filename: "cloud.png", ui_label: "Cloud1" },
        ParticleTexture { filename: "cloud2.png", ui_label: "Cloud2" },
        ParticleTexture { filename: "spark1.png", ui_label: "Spark1" },
        ParticleTexture { filename: "spark2.png", ui_label: "Spark2" },
        ParticleTexture { filename: "spark3.png", ui_label: "Spark3" },
        ParticleTexture { filename: "glow1.png", ui_label: "Glow1" },
        ParticleTexture { filename: "splat1.png", ui_label: "Splat1" },
    ]
}

/// The texture that an effect's particles are drawn with when they are spawned in the
/// editor: the one the effect chose, else the first.
pub fn editor_texture_slot(texture_index: Option<usize>) -> (slot: usize)
    ensures
        slot == match texture_index {
            Some(i) => i,
            None => 0,
        },
{
    match texture_index {
        Some(i) => i,
        None => 0,
    }
}

} // verus!
