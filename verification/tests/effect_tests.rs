use omagari::assembly::{assembly_plan, AssemblyStep, ModifierKind, RenderModifierKind};
use omagari::attributes::{attr_to_label, AttributeId, ATTRIBUTE_COUNT};
use omagari::settings::{
    particle_textures, AlphaModeEditor, MotionIntegrationEditor, OrientModeEditor,
    ParticleMeshShape, SimulationSpaceEditor,
};

#[test]
fn billboard_plan() {
    let init = vec![ModifierKind::SetPositionSphere, ModifierKind::Accel, ModifierKind::SetAttribute];
    let update = vec![ModifierKind::LinearDrag, ModifierKind::SetVelocityCircle, ModifierKind::ConformToSphere];
    let plan = assembly_plan(ParticleMeshShape::Billboard, &init, &update, 2);
    assert_eq!(
        plan,
        vec![
            AssemblyStep::Init(0),
            AssemblyStep::Init(2),
            AssemblyStep::Update(0),
            AssemblyStep::Update(2),
            AssemblyStep::Render(0),
            AssemblyStep::Render(1),
            AssemblyStep::RenderTexture,
            AssemblyStep::RenderOrient,
        ]
    );
}

#[test]
fn mesh_plan() {
    let init = vec![ModifierKind::InheritAttribute];
    let update = vec![ModifierKind::EmitSpawnEvent];
    let plan = assembly_plan(ParticleMeshShape::Torus, &init, &update, 0);
    assert_eq!(
        plan,
        vec![
            AssemblyStep::UseMesh,
            AssemblyStep::InitMeshSize,
            AssemblyStep::InitMeshLifetime,
            AssemblyStep::InitMeshAge,
            AssemblyStep::Init(0),
            AssemblyStep::Update(0),
        ]
    );
}

#[test]
fn empty_billboard_plan() {
    let plan = assembly_plan(ParticleMeshShape::default(), &Vec::new(), &Vec::new(), 0);
    assert_eq!(plan, vec![AssemblyStep::RenderTexture, AssemblyStep::RenderOrient]);
}

#[test]
fn modifier_stages() {
    for k in [
        ModifierKind::SetAttribute,
        ModifierKind::InheritAttribute,
        ModifierKind::SetPositionCircle,
        ModifierKind::SetPositionSphere,
        ModifierKind::SetPositionCone3d,
        ModifierKind::SetVelocityCircle,
        ModifierKind::SetVelocitySphere,
        ModifierKind::SetVelocityTangent,
    ] {
        assert!(k.is_init() && !k.is_update());
    }
    for k in [
        ModifierKind::Accel,
        ModifierKind::LinearDrag,
        ModifierKind::EmitSpawnEvent,
        ModifierKind::ConformToSphere,
    ] {
        assert!(k.is_update() && !k.is_init());
    }
}

#[test]
fn modifier_labels() {
    assert_eq!(ModifierKind::SetAttribute.label(), "🗠 SetAttributeModifier");
    assert_eq!(ModifierKind::EmitSpawnEvent.label(), "⚡ EmitSpawnEvent");
    assert_eq!(ModifierKind::ConformToSphere.label(), "📌 ConformToSphereModifier");
    assert_eq!(RenderModifierKind::SizeOverLifetime.label(), "📏 SizeOverLifetime");
    assert_eq!(RenderModifierKind::ColorOverLifetime.label(), "🎨 ColorOverLifetime");
}

#[test]
fn defaults() {
    assert_eq!(ParticleMeshShape::default(), ParticleMeshShape::Billboard);
    assert_eq!(OrientModeEditor::default(), OrientModeEditor::AlongVelocity);
    assert_eq!(AlphaModeEditor::default(), AlphaModeEditor::Blend);
    assert_eq!(SimulationSpaceEditor::default(), SimulationSpaceEditor::Global);
    assert_eq!(MotionIntegrationEditor::default(), MotionIntegrationEditor::PostUpdate);
}

#[test]
fn settings_labels() {
    assert_eq!(ParticleMeshShape::Capsule.label(), "Capsule");
    assert_eq!(OrientModeEditor::ParallelCameraDepthPlane.label(), "ParallelCamera");
    assert_eq!(OrientModeEditor::FaceCameraPosition.label(), "FaceCamera");
    assert_eq!(AlphaModeEditor::Premultiply.label(), "Premultiply");
}

#[test]
fn all_shapes_once() {
    let all = ParticleMeshShape::all();
    assert_eq!(all.len(), 8);
    assert_eq!(all[0], ParticleMeshShape::Billboard);
    assert_eq!(all[7], ParticleMeshShape::Plane);
    assert!(!all[0].uses_mesh());
    assert!(all[1..].iter().all(|s| s.uses_mesh()));
}

#[test]
fn textures_table() {
    let t = particle_textures();
    assert_eq!(t.len(), 7);
    assert_eq!(t[0].filename, "cloud.png");
    assert_eq!(t[6].ui_label, "Splat1");
}

#[test]
fn attribute_labels() {
    assert_eq!(attr_to_label("position"), "Position");
    assert_eq!(attr_to_label("hdr_color"), "HDR Color");
    assert_eq!(attr_to_label("f32x3_2"), "F32X3_2");
    assert_eq!(attr_to_label("ribbon_id"), "Ribbon ID");
    assert_eq!(attr_to_label("pad0"), "None");
    assert_eq!(attr_to_label(""), "None");
}

#[test]
fn attribute_names_find_their_attribute() {
    for i in 0..ATTRIBUTE_COUNT {
        let a = AttributeId::at(i);
        assert_eq!(AttributeId::from_name(a.name()), Some(a));
    }
    assert_eq!(AttributeId::from_name("nope"), None);
}
