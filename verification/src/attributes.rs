use vstd::prelude::*;

use crate::text::str_eq;

verus! {

/// The particle attributes that effects can read and write, in the order in which the
/// editor lists them.
#[derive(Clone, Copy, Debug, PartialEq, Eq, Structural)]
#[allow(non_camel_case_types)]
pub enum AttributeId {
    Id,
    ParticleCounter,
    Position,
    Velocity,
    Age,
    Lifetime,
    Color,
    HdrColor,
    Alpha,
    Size,
    Size2,
    Size3,
    Prev,
    Next,
    AxisX,
    AxisY,
    AxisZ,
    SpriteIndex,
    F32_0,
    F32_1,
    F32_2,
    F32_3,
    F32x2_0,
    F32x2_1,
    F32x2_2,
    F32x2_3,
    F32x3_0,
    F32x3_1,
    F32x3_2,
    F32x3_3,
    F32x4_0,
    F32x4_1,
    F32x4_2,
    F32x4_3,
    U32_0,
    U32_1,
    U32_2,
    U32_3,
    RibbonId,
}

/// The number of attributes the editor lists.
pub const ATTRIBUTE_COUNT: usize = 39;

/// The attribute at position `i` of the editor's list.
pub open spec fn attribute_at(i: int) -> AttributeId {
    if i == 0 {
        AttributeId::Id
    } else if i == 1 {
        AttributeId::ParticleCounter
    } else if i == 2 {
        AttributeId::Position
    } else if i == 3 {
        AttributeId::Velocity
    } else if i == 4 {
        AttributeId::Age
    } else if i == 5 {
        AttributeId::Lifetime
    } else if i == 6 {
        AttributeId::Color
    } else if i == 7 {
        AttributeId::HdrColor
    } else if i == 8 {
        AttributeId::Alpha
    } else if i == 9 {
        AttributeId::Size
    } else if i == 10 {
        AttributeId::Size2
    } else if i == 11 {
        AttributeId::Size3
    } else if i == 12 {
        AttributeId::Prev
    } else if i == 13 {
        AttributeId::Next
    } else if i == 14 {
        AttributeId::AxisX
    } else if i == 15 {
        AttributeId::AxisY
    } else if i == 16 {
        AttributeId::AxisZ
    } else if i == 17 {
        AttributeId::SpriteIndex
    } else if i == 18 {
        AttributeId::F32_0
    } else if i == 19 {
        AttributeId::F32_1
    } else if i == 20 {
        AttributeId::F32_2
    } else if i == 21 {
        AttributeId::F32_3
    } else if i == 22 {
        AttributeId::F32x2_0
    } else if i == 23 {
        AttributeId::F32x2_1
    } else if i == 24 {
        AttributeId::F32x2_2
    } else if i == 25 {
        AttributeId::F32x2_3
    } else if i == 26 {
        AttributeId::F32x3_0
    } else if i == 27 {
        AttributeId::F32x3_1
    } else if i == 28 {
        AttributeId::F32x3_2
    } else if i == 29 {
        AttributeId::F32x3_3
    } else if i == 30 {
        AttributeId::F32x4_0
    } else if i == 31 {
        AttributeId::F32x4_1
    } else if i == 32 {
        AttributeId::F32x4_2
    } else if i == 33 {
        AttributeId::F32x4_3
    } else if i == 34 {
        AttributeId::U32_0
    } else if i == 35 {
        AttributeId::U32_1
    } else if i == 36 {
        AttributeId::U32_2
    } else if i == 37 {
        AttributeId::U32_3
    } else {
        AttributeId::RibbonId
    }
}

impl AttributeId {
    /// The attribute's name in the particle system, which tells attributes apart.
    pub open spec fn name_view(self) -> Seq<char> {
        match self {
            AttributeId::Id => "id"@,
            AttributeId::ParticleCounter => "particle_counter"@,
            AttributeId::Position => "position"@,
            AttributeId::Velocity => "velocity"@,
            AttributeId::Age => "age"@,
            AttributeId::Lifetime => "lifetime"@,
            AttributeId::Color => "color"@,
            AttributeId::HdrColor => "hdr_color"@,
            AttributeId::Alpha => "alpha"@,
            AttributeId::Size => "size"@,
            AttributeId::Size2 => "size2"@,
            AttributeId::Size3 => "size3"@,
            AttributeId::Prev => "prev"@,
            AttributeId::Next => "next"@,
            AttributeId::AxisX => "axis_x"@,
            AttributeId::AxisY => "axis_y"@,
            AttributeId::AxisZ => "axis_z"@,
            AttributeId::SpriteIndex => "sprite_index"@,
            AttributeId::F32_0 => "f32_0"@,
            AttributeId::F32_1 => "f32_1"@,
            AttributeId::F32_2 => "f32_2"@,
            AttributeId::F32_3 => "f32_3"@,
            AttributeId::F32x2_0 => "f32x2_0"@,
            AttributeId::F32x2_1 => "f32x2_1"@,
            AttributeId::F32x2_2 => "f32x2_2"@,
            AttributeId::F32x2_3 => "f32x2_3"@,
            AttributeId::F32x3_0 => "f32x3_0"@,
            AttributeId::F32x3_1 => "f32x3_1"@,
            AttributeId::F32x3_2 => "f32x3_2"@,
            AttributeId::F32x3_3 => "f32x3_3"@,
            AttributeId::F32x4_0 => "f32x4_0"@,
            AttributeId::F32x4_1 => "f32x4_1"@,
            AttributeId::F32x4_2 => "f32x4_2"@,
            AttributeId::F32x4_3 => "f32x4_3"@,
            AttributeId::U32_0 => "u32_0"@,
            AttributeId::U32_1 => "u32_1"@,
            AttributeId::U32_2 => "u32_2"@,
            AttributeId::U32_3 => "u32_3"@,
            AttributeId::RibbonId => "ribbon_id"@,
        }
    }

    /// The attribute's name in the editor.
    pub open spec fn label_view(self) -> Seq<char> {
        match self {
            AttributeId::Id => "ID"@,
            AttributeId::ParticleCounter => "Particle Counter"@,
            AttributeId::Position => "Position"@,
            AttributeId::Velocity => "Velocity"@,
            AttributeId::Age => "Age"@,
            AttributeId::Lifetime => "Lifetime"@,
            AttributeId::Color => "Color"@,
            AttributeId::HdrColor => "HDR Color"@,
            AttributeId::Alpha => "Alpha"@,
            AttributeId::Size => "Size"@,
            AttributeId::Size2 => "Size2"@,
            AttributeId::Size3 => "Size3"@,
            AttributeId::Prev => "Prev"@,
            AttributeId::Next => "Next"@,
            AttributeId::AxisX => "Axis X"@,
            AttributeId::AxisY => "Axis Y"@,
            AttributeId::AxisZ => "Axis Z"@,
            AttributeId::SpriteIndex => "Sprite Index"@,
            AttributeId::F32_0 => "F32_0"@,
            AttributeId::F32_1 => "F32_1"@,
            AttributeId::F32_2 => "F32_2"@,
            AttributeId::F32_3 => "F32_3"@,
            AttributeId::F32x2_0 => "F32X2_0"@,
            AttributeId::F32x2_1 => "F32X2_1"@,
            AttributeId::F32x2_2 => "F32X2_2"@,
            AttributeId::F32x2_3 => "F32X2_3"@,
            AttributeId::F32x3_0 => "F32X3_0"@,
            AttributeId::F32x3_1 => "F32X3_1"@,
            AttributeId::F32x3_2 => "F32X3_2"@,
            AttributeId::F32x3_3 => "F32X3_3"@,
            AttributeId::F32x4_0 => "F32X4_0"@,
            AttributeId::F32x4_1 => "F32X4_1"@,
            AttributeId::F32x4_2 => "F32X4_2"@,
            AttributeId::F32x4_3 => "F32X4_3"@,
            AttributeId::U32_0 => "U32_0"@,
            AttributeId::U32_1 => "U32_1"@,
            AttributeId::U32_2 => "U32_2"@,
            AttributeId::U32_3 => "U32_3"@,
            AttributeId::RibbonId => "Ribbon ID"@,
        }
    }

    /// The attribute's position in the editor's list.
    pub open spec fn position(self) -> int {
        match self {
            AttributeId::Id => 0,
            AttributeId::ParticleCounter => 1,
            AttributeId::Position => 2,
            AttributeId::Velocity => 3,
            AttributeId::Age => 4,
            AttributeId::Lifetime => 5,
            AttributeId::Color => 6,
            AttributeId::HdrColor => 7,
            AttributeId::Alpha => 8,
            AttributeId::Size => 9,
            AttributeId::Size2 => 10,
            AttributeId::Size3 => 11,
            AttributeId::Prev => 12,
            AttributeId::Next => 13,
            AttributeId::AxisX => 14,
            AttributeId::AxisY => 15,
            AttributeId::AxisZ => 16,
            AttributeId::SpriteIndex => 17,
            AttributeId::F32_0 => 18,
            AttributeId::F32_1 => 19,
            AttributeId::F32_2 => 20,
            AttributeId::F32_3 => 21,
            AttributeId::F32x2_0 => 22,
            AttributeId::F32x2_1 => 23,
            AttributeId::F32x2_2 => 24,
            AttributeId::F32x2_3 => 25,
            AttributeId::F32x3_0 => 26,
            AttributeId::F32x3_1 => 27,
            AttributeId::F32x3_2 => 28,
            AttributeId::F32x3_3 => 29,
            AttributeId::F32x4_0 => 30,
            AttributeId::F32x4_1 => 31,
            AttributeId::F32x4_2 => 32,
            AttributeId::F32x4_3 => 33,
            AttributeId::U32_0 => 34,
            AttributeId::U32_1 => 35,
            AttributeId::U32_2 => 36,
            AttributeId::U32_3 => 37,
            AttributeId::RibbonId => 38,
        }
    }

    /// The attribute at position `i` of the editor's list.
    pub fn at(i: usize) -> (a: AttributeId)
        requires
            i < ATTRIBUTE_COUNT,
        ensures
            a == attribute_at(i as int),
    {
        match i {
            0 => AttributeId::Id,
            1 => AttributeId::ParticleCounter,
            2 => AttributeId::Position,
            3 => AttributeId::Velocity,
            4 => AttributeId::Age,
            5 => AttributeId::Lifetime,
            6 => AttributeId::Color,
            7 => AttributeId::HdrColor,
            8 => AttributeId::Alpha,
            9 => AttributeId::Size,
            10 => AttributeId::Size2,
            11 => AttributeId::Size3,
            12 => AttributeId::Prev,
            13 => AttributeId::Next,
            14 => AttributeId::AxisX,
            15 => AttributeId::AxisY,
            16 => AttributeId::AxisZ,
            17 => AttributeId::SpriteIndex,
            18 => AttributeId::F32_0,
            19 => AttributeId::F32_1,
            20 => AttributeId::F32_2,
            21 => AttributeId::F32_3,
            22 => AttributeId::F32x2_0,
            23 => AttributeId::F32x2_1,
            24 => AttributeId::F32x2_2,
            25 => AttributeId::F32x2_3,
            26 => AttributeId::F32x3_0,
            27 => AttributeId::F32x3_1,
            28 => AttributeId::F32x3_2,
            29 => AttributeId::F32x3_3,
            30 => AttributeId::F32x4_0,
            31 => AttributeId::F32x4_1,
            32 => AttributeId::F32x4_2,
            33 => AttributeId::F32x4_3,
            34 => AttributeId::U32_0,
            35 => AttributeId::U32_1,
            36 => AttributeId::U32_2,
            37 => AttributeId::U32_3,
            _ => AttributeId::RibbonId,
        }
    }

    /// The attribute's name in the particle system.
    pub fn name(&self) -> (r: &'static str)
        ensures
            r@ == self.name_view(),
    {
        match self {
            AttributeId::Id => "id",
            AttributeId::ParticleCounter => "particle_counter",
            AttributeId::Position => "position",
            AttributeId::Velocity => "velocity",
            AttributeId::Age => "age",
            AttributeId::Lifetime => "lifetime",
            AttributeId::Color => "color",
            AttributeId::HdrColor => "hdr_color",
            AttributeId::Alpha => "alpha",
            AttributeId::Size => "size",
            AttributeId::Size2 => "size2",
            AttributeId::Size3 => "size3",
            AttributeId::Prev => "prev",
            AttributeId::Next => "next",
            AttributeId::AxisX => "axis_x",
            AttributeId::AxisY => "axis_y",
            AttributeId::AxisZ => "axis_z",
            AttributeId::SpriteIndex => "sprite_index",
            AttributeId::F32_0 => "f32_0",
            AttributeId::F32_1 => "f32_1",
            AttributeId::F32_2 => "f32_2",
            AttributeId::F32_3 => "f32_3",
            AttributeId::F32x2_0 => "f32x2_0",
            AttributeId::F32x2_1 => "f32x2_1",
            AttributeId::F32x2_2 => "f32x2_2",
            AttributeId::F32x2_3 => "f32x2_3",
            AttributeId::F32x3_0 => "f32x3_0",
            AttributeId::F32x3_1 => "f32x3_1",
            AttributeId::F32x3_2 => "f32x3_2",
            AttributeId::F32x3_3 => "f32x3_3",
            AttributeId::F32x4_0 => "f32x4_0",
            AttributeId::F32x4_1 => "f32x4_1",
            AttributeId::F32x4_2 => "f32x4_2",
            AttributeId::F32x4_3 => "f32x4_3",
            AttributeId::U32_0 => "u32_0",
            AttributeId::U32_1 => "u32_1",
            AttributeId::U32_2 => "u32_2",
            AttributeId::U32_3 => "u32_3",
            AttributeId::RibbonId => "ribbon_id",
        }
    }

    /// The attribute's name in the editor.
    pub fn label(&self) -> (r: &'static str)
        ensures
            r@ == self.label_view(),
    {
        match self {
            AttributeId::Id => "ID",
            AttributeId::ParticleCounter => "Particle Counter",
            AttributeId::Position => "Position",
            AttributeId::Velocity => "Velocity",
            AttributeId::Age => "Age",
            AttributeId::Lifetime => "Lifetime",
            AttributeId::Color => "Color",
            AttributeId::HdrColor => "HDR Color",
            AttributeId::Alpha => "Alpha",
            AttributeId::Size => "Size",
            AttributeId::Size2 => "Size2",
            AttributeId::Size3 => "Size3",
            AttributeId::Prev => "Prev",
            AttributeId::Next => "Next",
            AttributeId::AxisX => "Axis X",
            AttributeId::AxisY => "Axis Y",
            AttributeId::AxisZ => "Axis Z",
            AttributeId::SpriteIndex => "Sprite Index",
            AttributeId::F32_0 => "F32_0",
            AttributeId::F32_1 => "F32_1",
            AttributeId::F32_2 => "F32_2",
            AttributeId::F32_3 => "F32_3",
            AttributeId::F32x2_0 => "F32X2_0",
            AttributeId::F32x2_1 => "F32X2_1",
            AttributeId::F32x2_2 => "F32X2_2",
            AttributeId::F32x2_3 => "F32X2_3",
            AttributeId::F32x3_0 => "F32X3_0",
            AttributeId::F32x3_1 => "F32X3_1",
            AttributeId::F32x3_2 => "F32X3_2",
            AttributeId::F32x3_3 => "F32X3_3",
            AttributeId::F32x4_0 => "F32X4_0",
            AttributeId::F32x4_1 => "F32X4_1",
            AttributeId::F32x4_2 => "F32X4_2",
            AttributeId::F32x4_3 => "F32X4_3",
            AttributeId::U32_0 => "U32_0",
            AttributeId::U32_1 => "U32_1",
            AttributeId::U32_2 => "U32_2",
            AttributeId::U32_3 => "U32_3",
            AttributeId::RibbonId => "Ribbon ID",
        }
    }

    /// The first attribute of the editor's list whose name is `name`, if there is one.
    pub fn from_name(name: &str) -> (r: Option<AttributeId>)
        ensures
            match r {
                Some(a) => is_first_named(name@, a.position()) && a == attribute_at(a.position()),
                None => none_named(name@),
            },
            forall|a: AttributeId| #[trigger] a.name_view() == name@ ==> r == Some(a),
    {
        let mut i: usize = 0;
        while i < ATTRIBUTE_COUNT
            invariant
                i <= ATTRIBUTE_COUNT,
                forall|j: int| 0 <= j < i ==> #[trigger] attribute_at(j).name_view() != name@,
            decreases ATTRIBUTE_COUNT - i,
        {
            let a = AttributeId::at(i);
            if str_eq(a.name(), name) {
                proof {
                    lemma_position_of_attribute_at(i as int);
                    assert forall|b: AttributeId| #[trigger] b.name_view() == name@ implies a == b by {
                        lemma_found_by_own_name(b);
                        if b.position() < i {
                            assert(attribute_at(b.position()).name_view() != name@);
                        }
                        if i < b.position() {
                            assert(attribute_at(i as int).name_view() != b.name_view());
                        }
                    }
                }
                return Some(a);
            }
            i = i + 1;
        }
        proof {
            assert forall|b: AttributeId| #[trigger] b.name_view() == name@ implies false by {
                lemma_found_by_own_name(b);
                assert(attribute_at(b.position()).name_view() != name@);
            }
        }
        None
    }
}

/// The attribute at position `i` is the first in the editor's list named `name`.
pub open spec fn is_first_named(name: Seq<char>, i: int) -> bool {
    &&& 0 <= i < ATTRIBUTE_COUNT
    &&& attribute_at(i).name_view() == name
    &&& forall|j: int| 0 <= j < i ==> #[trigger] attribute_at(j).name_view() != name
}

/// No attribute in the editor's list is named `name`.
pub open spec fn none_named(name: Seq<char>) -> bool {
    forall|j: int| 0 <= j < ATTRIBUTE_COUNT ==> #[trigger] attribute_at(j).name_view() != name
}

/// Positions and the list agree: the attribute at a position sits at that position.
pub proof fn lemma_position_of_attribute_at(i: int)
    requires
        0 <= i < ATTRIBUTE_COUNT,
    ensures
        attribute_at(i).position() == i,
{
}

/// Every attribute sits in the editor's list at its position.
pub proof fn lemma_attribute_at_position(a: AttributeId)
    ensures
        0 <= a.position() < ATTRIBUTE_COUNT,
        attribute_at(a.position()) == a,
{
}

/// The particle system's names of the attributes, which tell them apart.
pub proof fn lemma_attribute_names()
    ensures
        AttributeId::Id.name_view() == "id"@,
        AttributeId::ParticleCounter.name_view() == "particle_counter"@,
        AttributeId::Position.name_view() == "position"@,
        AttributeId::Velocity.name_view() == "velocity"@,
        AttributeId::Age.name_view() == "age"@,
        AttributeId::Lifetime.name_view() == "lifetime"@,
        AttributeId::Color.name_view() == "color"@,
        AttributeId::HdrColor.name_view() == "hdr_color"@,
        AttributeId::Alpha.name_view() == "alpha"@,
        AttributeId::Size.name_view() == "size"@,
        AttributeId::Size2.name_view() == "size2"@,
        AttributeId::Size3.name_view() == "size3"@,
        AttributeId::Prev.name_view() == "prev"@,
        AttributeId::Next.name_view() == "next"@,
        AttributeId::AxisX.name_view() == "axis_x"@,
        AttributeId::AxisY.name_view() == "axis_y"@,
        AttributeId::AxisZ.name_view() == "axis_z"@,
        AttributeId::SpriteIndex.name_view() == "sprite_index"@,
        AttributeId::F32_0.name_view() == "f32_0"@,
        AttributeId::F32_1.name_view() == "f32_1"@,
        AttributeId::F32_2.name_view() == "f32_2"@,
        AttributeId::F32_3.name_view() == "f32_3"@,
        AttributeId::F32x2_0.name_view() == "f32x2_0"@,
        AttributeId::F32x2_1.name_view() == "f32x2_1"@,
        AttributeId::F32x2_2.name_view() == "f32x2_2"@,
        AttributeId::F32x2_3.name_view() == "f32x2_3"@,
        AttributeId::F32x3_0.name_view() == "f32x3_0"@,
        AttributeId::F32x3_1.name_view() == "f32x3_1"@,
        AttributeId::F32x3_2.name_view() == "f32x3_2"@,
        AttributeId::F32x3_3.name_view() == "f32x3_3"@,
        AttributeId::F32x4_0.name_view() == "f32x4_0"@,
        AttributeId::F32x4_1.name_view() == "f32x4_1"@,
        AttributeId::F32x4_2.name_view() == "f32x4_2"@,
        AttributeId::F32x4_3.name_view() == "f32x4_3"@,
        AttributeId::U32_0.name_view() == "u32_0"@,
        AttributeId::U32_1.name_view() == "u32_1"@,
        AttributeId::U32_2.name_view() == "u32_2"@,
        AttributeId::U32_3.name_view() == "u32_3"@,
        AttributeId::RibbonId.name_view() == "ribbon_id"@,
{
}

/// The editor's labels of the attributes.
pub proof fn lemma_attribute_labels()
    ensures
        AttributeId::Id.label_view() == "ID"@,
        AttributeId::ParticleCounter.label_view() == "Particle Counter"@,
        AttributeId::Position.label_view() == "Position"@,
        AttributeId::Velocity.label_view() == "Velocity"@,
        AttributeId::Age.label_view() == "Age"@,
        AttributeId::Lifetime.label_view() == "Lifetime"@,
        AttributeId::Color.label_view() == "Color"@,
        AttributeId::HdrColor.label_view() == "HDR Color"@,
        AttributeId::Alpha.label_view() == "Alpha"@,
        AttributeId::Size.label_view() == "Size"@,
        AttributeId::Size2.label_view() == "Size2"@,
        AttributeId::Size3.label_view() == "Size3"@,
        AttributeId::Prev.label_view() == "Prev"@,
        AttributeId::Next.label_view() == "Next"@,
        AttributeId::AxisX.label_view() == "Axis X"@,
        AttributeId::AxisY.label_view() == "Axis Y"@,
        AttributeId::AxisZ.label_view() == "Axis Z"@,
        AttributeId::SpriteIndex.label_view() == "Sprite Index"@,
        AttributeId::F32_0.label_view() == "F32_0"@,
        AttributeId::F32_1.label_view() == "F32_1"@,
        AttributeId::F32_2.label_view() == "F32_2"@,
        AttributeId::F32_3.label_view() == "F32_3"@,
        AttributeId::F32x2_0.label_view() == "F32X2_0"@,
        AttributeId::F32x2_1.label_view() == "F32X2_1"@,
        AttributeId::F32x2_2.label_view() == "F32X2_2"@,
        AttributeId::F32x2_3.label_view() == "F32X2_3"@,
        AttributeId::F32x3_0.label_view() == "F32X3_0"@,
        AttributeId::F32x3_1.label_view() == "F32X3_1"@,
        AttributeId::F32x3_2.label_view() == "F32X3_2"@,
        AttributeId::F32x3_3.label_view() == "F32X3_3"@,
        AttributeId::F32x4_0.label_view() == "F32X4_0"@,
        AttributeId::F32x4_1.label_view() == "F32X4_1"@,
        AttributeId::F32x4_2.label_view() == "F32X4_2"@,
        AttributeId::F32x4_3.label_view() == "F32X4_3"@,
        AttributeId::U32_0.label_view() == "U32_0"@,
        AttributeId::U32_1.label_view() == "U32_1"@,
        AttributeId::U32_2.label_view() == "U32_2"@,
        AttributeId::U32_3.label_view() == "U32_3"@,
        AttributeId::RibbonId.label_view() == "Ribbon ID"@,
{
}

/// The order in which the editor lists the attributes.
pub proof fn lemma_attribute_order()
    ensures
        attribute_at(0) == AttributeId::Id,
        attribute_at(1) == AttributeId::ParticleCounter,
        attribute_at(2) == AttributeId::Position,
        attribute_at(3) == AttributeId::Velocity,
        attribute_at(4) == AttributeId::Age,
        attribute_at(5) == AttributeId::Lifetime,
        attribute_at(6) == AttributeId::Color,
        attribute_at(7) == AttributeId::HdrColor,
        attribute_at(8) == AttributeId::Alpha,
        attribute_at(9) == AttributeId::Size,
        attribute_at(10) == AttributeId::Size2,
        attribute_at(11) == AttributeId::Size3,
        attribute_at(12) == AttributeId::Prev,
        attribute_at(13) == AttributeId::Next,
        attribute_at(14) == AttributeId::AxisX,
        attribute_at(15) == AttributeId::AxisY,
        attribute_at(16) == AttributeId::AxisZ,
        attribute_at(17) == AttributeId::SpriteIndex,
        attribute_at(18) == AttributeId::F32_0,
        attribute_at(19) == AttributeId::F32_1,
        attribute_at(20) == AttributeId::F32_2,
        attribute_at(21) == AttributeId::F32_3,
        attribute_at(22) == AttributeId::F32x2_0,
        attribute_at(23) == AttributeId::F32x2_1,
        attribute_at(24) == AttributeId::F32x2_2,
        attribute_at(25) == AttributeId::F32x2_3,
        attribute_at(26) == AttributeId::F32x3_0,
        attribute_at(27) == AttributeId::F32x3_1,
        attribute_at(28) == AttributeId::F32x3_2,
        attribute_at(29) == AttributeId::F32x3_3,
        attribute_at(30) == AttributeId::F32x4_0,
        attribute_at(31) == AttributeId::F32x4_1,
        attribute_at(32) == AttributeId::F32x4_2,
        attribute_at(33) == AttributeId::F32x4_3,
        attribute_at(34) == AttributeId::U32_0,
        attribute_at(35) == AttributeId::U32_1,
        attribute_at(36) == AttributeId::U32_2,
        attribute_at(37) == AttributeId::U32_3,
        attribute_at(38) == AttributeId::RibbonId,
{
}

/// No two attributes of the editor's list share a name, so looking an attribute up by its own
/// name finds it, and its label is the one shown for that name.
pub proof fn lemma_found_by_own_name(a: AttributeId)
    ensures
        is_first_named(a.name_view(), a.position()),
        attribute_at(a.position()) == a,
{
    reveal_strlit("id");
    assert("id"@.len() == 2);
    assert("id"@[0] == 'i');
    assert("id"@[1] == 'd');
    reveal_strlit("particle_counter");
    assert("particle_counter"@.len() == 16);
    assert("particle_counter"@[0] == 'p');
    assert("particle_counter"@[1] == 'a');
    assert("particle_counter"@[2] == 'r');
    assert("particle_counter"@[3] == 't');
    assert("particle_counter"@[4] == 'i');
    assert("particle_counter"@[5] == 'c');
    assert("particle_counter"@[6] == 'l');
    assert("particle_counter"@[7] == 'e');
    assert("particle_counter"@[8] == '_');
    assert("particle_counter"@[9] == 'c');
    assert("particle_counter"@[10] == 'o');
    assert("particle_counter"@[11] == 'u');
    assert("particle_counter"@[12] == 'n');
    assert("particle_counter"@[13] == 't');
    assert("particle_counter"@[14] == 'e');
    assert("particle_counter"@[15] == 'r');
    reveal_strlit("position");
    assert("position"@.len() == 8);
    assert("position"@[0] == 'p');
    assert("position"@[1] == 'o');
    assert("position"@[2] == 's');
    assert("position"@[3] == 'i');
    assert("position"@[4] == 't');
    assert("position"@[5] == 'i');
    assert("position"@[6] == 'o');
    assert("position"@[7] == 'n');
    reveal_strlit("velocity");
    assert("velocity"@.len() == 8);
    assert("velocity"@[0] == 'v');
    assert("velocity"@[1] == 'e');
    assert("velocity"@[2] == 'l');
    assert("velocity"@[3] == 'o');
    assert("velocity"@[4] == 'c');
    assert("velocity"@[5] == 'i');
    assert("velocity"@[6] == 't');
    assert("velocity"@[7] == 'y');
    reveal_strlit("age");
    assert("age"@.len() == 3);
    assert("age"@[0] == 'a');
    assert("age"@[1] == 'g');
    assert("age"@[2] == 'e');
    reveal_strlit("lifetime");
    assert("lifetime"@.len() == 8);
    assert("lifetime"@[0] == 'l');
    assert("lifetime"@[1] == 'i');
    assert("lifetime"@[2] == 'f');
    assert("lifetime"@[3] == 'e');
    assert("lifetime"@[4] == 't');
    assert("lifetime"@[5] == 'i');
    assert("lifetime"@[6] == 'm');
    assert("lifetime"@[7] == 'e');
    reveal_strlit("color");
    assert("color"@.len() == 5);
    assert("color"@[0] == 'c');
    assert("color"@[1] == 'o');
    assert("color"@[2] == 'l');
    assert("color"@[3] == 'o');
    assert("color"@[4] == 'r');
    reveal_strlit("hdr_color");
    assert("hdr_color"@.len() == 9);
    assert("hdr_color"@[0] == 'h');
    assert("hdr_color"@[1] == 'd');
    assert("hdr_color"@[2] == 'r');
    assert("hdr_color"@[3] == '_');
    assert("hdr_color"@[4] == 'c');
    assert("hdr_color"@[5] == 'o');
    assert("hdr_color"@[6] == 'l');
    assert("hdr_color"@[7] == 'o');
    assert("hdr_color"@[8] == 'r');
    reveal_strlit("alpha");
    assert("alpha"@.len() == 5);
    assert("alpha"@[0] == 'a');
    assert("alpha"@[1] == 'l');
    assert("alpha"@[2] == 'p');
    assert("alpha"@[3] == 'h');
    assert("alpha"@[4] == 'a');
    reveal_strlit("size");
    assert("size"@.len() == 4);
    assert("size"@[0] == 's');
    assert("size"@[1] == 'i');
    assert("size"@[2] == 'z');
    assert("size"@[3] == 'e');
    reveal_strlit("size2");
    assert("size2"@.len() == 5);
    assert("size2"@[0] == 's');
    assert("size2"@[1] == 'i');
    assert("size2"@[2] == 'z');
    assert("size2"@[3] == 'e');
    assert("size2"@[4] == '2');
    reveal_strlit("size3");
    assert("size3"@.len() == 5);
    assert("size3"@[0] == 's');
    assert("size3"@[1] == 'i');
    assert("size3"@[2] == 'z');
    assert("size3"@[3] == 'e');
    assert("size3"@[4] == '3');
    reveal_strlit("prev");
    assert("prev"@.len() == 4);
    assert("prev"@[0] == 'p');
    assert("prev"@[1] == 'r');
    assert("prev"@[2] == 'e');
    assert("prev"@[3] == 'v');
    reveal_strlit("next");
    assert("next"@.len() == 4);
    assert("next"@[0] == 'n');
    assert("next"@[1] == 'e');
    assert("next"@[2] == 'x');
    assert("next"@[3] == 't');
    reveal_strlit("axis_x");
    assert("axis_x"@.len() == 6);
    assert("axis_x"@[0] == 'a');
    assert("axis_x"@[1] == 'x');
    assert("axis_x"@[2] == 'i');
    assert("axis_x"@[3] == 's');
    assert("axis_x"@[4] == '_');
    assert("axis_x"@[5] == 'x');
    reveal_strlit("axis_y");
    assert("axis_y"@.len() == 6);
    assert("axis_y"@[0] == 'a');
    assert("axis_y"@[1] == 'x');
    assert("axis_y"@[2] == 'i');
    assert("axis_y"@[3] == 's');
    assert("axis_y"@[4] == '_');
    assert("axis_y"@[5] == 'y');
    reveal_strlit("axis_z");
    assert("axis_z"@.len() == 6);
    assert("axis_z"@[0] == 'a');
    assert("axis_z"@[1] == 'x');
    assert("axis_z"@[2] == 'i');
    assert("axis_z"@[3] == 's');
    assert("axis_z"@[4] == '_');
    assert("axis_z"@[5] == 'z');
    reveal_strlit("sprite_index");
    assert("sprite_index"@.len() == 12);
    assert("sprite_index"@[0] == 's');
    assert("sprite_index"@[1] == 'p');
    assert("sprite_index"@[2] == 'r');
    assert("sprite_index"@[3] == 'i');
    assert("sprite_index"@[4] == 't');
    assert("sprite_index"@[5] == 'e');
    assert("sprite_index"@[6] == '_');
    assert("sprite_index"@[7] == 'i');
    assert("sprite_index"@[8] == 'n');
    assert("sprite_index"@[9] == 'd');
    assert("sprite_index"@[10] == 'e');
    assert("sprite_index"@[11] == 'x');
    reveal_strlit("f32_0");
    assert("f32_0"@.len() == 5);
    assert("f32_0"@[0] == 'f');
    assert("f32_0"@[1] == '3');
    assert("f32_0"@[2] == '2');
    assert("f32_0"@[3] == '_');
    assert("f32_0"@[4] == '0');
    reveal_strlit("f32_1");
    assert("f32_1"@.len() == 5);
    assert("f32_1"@[0] == 'f');
    assert("f32_1"@[1] == '3');
    assert("f32_1"@[2] == '2');
    assert("f32_1"@[3] == '_');
    assert("f32_1"@[4] == '1');
    reveal_strlit("f32_2");
    assert("f32_2"@.len() == 5);
    assert("f32_2"@[0] == 'f');
    assert("f32_2"@[1] == '3');
    assert("f32_2"@[2] == '2');
    assert("f32_2"@[3] == '_');
    assert("f32_2"@[4] == '2');
    reveal_strlit("f32_3");
    assert("f32_3"@.len() == 5);
    assert("f32_3"@[0] == 'f');
    assert("f32_3"@[1] == '3');
    assert("f32_3"@[2] == '2');
    assert("f32_3"@[3] == '_');
    assert("f32_3"@[4] == '3');
    reveal_strlit("f32x2_0");
    assert("f32x2_0"@.len() == 7);
    assert("f32x2_0"@[0] == 'f');
    assert("f32x2_0"@[1] == '3');
    assert("f32x2_0"@[2] == '2');
    assert("f32x2_0"@[3] == 'x');
    assert("f32x2_0"@[4] == '2');
    assert("f32x2_0"@[5] == '_');
    assert("f32x2_0"@[6] == '0');
    reveal_strlit("f32x2_1");
    assert("f32x2_1"@.len() == 7);
    assert("f32x2_1"@[0] == 'f');
    assert("f32x2_1"@[1] == '3');
    assert("f32x2_1"@[2] == '2');
    assert("f32x2_1"@[3] == 'x');
    assert("f32x2_1"@[4] == '2');
    assert("f32x2_1"@[5] == '_');
    assert("f32x2_1"@[6] == '1');
    reveal_strlit("f32x2_2");
    assert("f32x2_2"@.len() == 7);
    assert("f32x2_2"@[0] == 'f');
    assert("f32x2_2"@[1] == '3');
    assert("f32x2_2"@[2] == '2');
    assert("f32x2_2"@[3] == 'x');
    assert("f32x2_2"@[4] == '2');
    assert("f32x2_2"@[5] == '_');
    assert("f32x2_2"@[6] == '2');
    reveal_strlit("f32x2_3");
    assert("f32x2_3"@.len() == 7);
    assert("f32x2_3"@[0] == 'f');
    assert("f32x2_3"@[1] == '3');
    assert("f32x2_3"@[2] == '2');
    assert("f32x2_3"@[3] == 'x');
    assert("f32x2_3"@[4] == '2');
    assert("f32x2_3"@[5] == '_');
    assert("f32x2_3"@[6] == '3');
    reveal_strlit("f32x3_0");
    assert("f32x3_0"@.len() == 7);
    assert("f32x3_0"@[0] == 'f');
    assert("f32x3_0"@[1] == '3');
    assert("f32x3_0"@[2] == '2');
    assert("f32x3_0"@[3] == 'x');
    assert("f32x3_0"@[4] == '3');
    assert("f32x3_0"@[5] == '_');
    assert("f32x3_0"@[6] == '0');
    reveal_strlit("f32x3_1");
    assert("f32x3_1"@.len() == 7);
    assert("f32x3_1"@[0] == 'f');
    assert("f32x3_1"@[1] == '3');
    assert("f32x3_1"@[2] == '2');
    assert("f32x3_1"@[3] == 'x');
    assert("f32x3_1"@[4] == '3');
    assert("f32x3_1"@[5] == '_');
    assert("f32x3_1"@[6] == '1');
    reveal_strlit("f32x3_2");
    assert("f32x3_2"@.len() == 7);
    assert("f32x3_2"@[0] == 'f');
    assert("f32x3_2"@[1] == '3');
    assert("f32x3_2"@[2] == '2');
    assert("f32x3_2"@[3] == 'x');
    assert("f32x3_2"@[4] == '3');
    assert("f32x3_2"@[5] == '_');
    assert("f32x3_2"@[6] == '2');
    reveal_strlit("f32x3_3");
    assert("f32x3_3"@.len() == 7);
    assert("f32x3_3"@[0] == 'f');
    assert("f32x3_3"@[1] == '3');
    assert("f32x3_3"@[2] == '2');
    assert("f32x3_3"@[3] == 'x');
    assert("f32x3_3"@[4] == '3');
    assert("f32x3_3"@[5] == '_');
    assert("f32x3_3"@[6] == '3');
    reveal_strlit("f32x4_0");
    assert("f32x4_0"@.len() == 7);
    assert("f32x4_0"@[0] == 'f');
    assert("f32x4_0"@[1] == '3');
    assert("f32x4_0"@[2] == '2');
    assert("f32x4_0"@[3] == 'x');
    assert("f32x4_0"@[4] == '4');
    assert("f32x4_0"@[5] == '_');
    assert("f32x4_0"@[6] == '0');
    reveal_strlit("f32x4_1");
    assert("f32x4_1"@.len() == 7);
    assert("f32x4_1"@[0] == 'f');
    assert("f32x4_1"@[1] == '3');
    assert("f32x4_1"@[2] == '2');
    assert("f32x4_1"@[3] == 'x');
    assert("f32x4_1"@[4] == '4');
    assert("f32x4_1"@[5] == '_');
    assert("f32x4_1"@[6] == '1');
    reveal_strlit("f32x4_2");
    assert("f32x4_2"@.len() == 7);
    assert("f32x4_2"@[0] == 'f');
    assert("f32x4_2"@[1] == '3');
    assert("f32x4_2"@[2] == '2');
    assert("f32x4_2"@[3] == 'x');
    assert("f32x4_2"@[4] == '4');
    assert("f32x4_2"@[5] == '_');
    assert("f32x4_2"@[6] == '2');
    reveal_strlit("f32x4_3");
    assert("f32x4_3"@.len() == 7);
    assert("f32x4_3"@[0] == 'f');
    assert("f32x4_3"@[1] == '3');
    assert("f32x4_3"@[2] == '2');
    assert("f32x4_3"@[3] == 'x');
    assert("f32x4_3"@[4] == '4');
    assert("f32x4_3"@[5] == '_');
    assert("f32x4_3"@[6] == '3');
    reveal_strlit("u32_0");
    assert("u32_0"@.len() == 5);
    assert("u32_0"@[0] == 'u');
    assert("u32_0"@[1] == '3');
    assert("u32_0"@[2] == '2');
    assert("u32_0"@[3] == '_');
    assert("u32_0"@[4] == '0');
    reveal_strlit("u32_1");
    assert("u32_1"@.len() == 5);
    assert("u32_1"@[0] == 'u');
    assert("u32_1"@[1] == '3');
    assert("u32_1"@[2] == '2');
    assert("u32_1"@[3] == '_');
    assert("u32_1"@[4] == '1');
    reveal_strlit("u32_2");
    assert("u32_2"@.len() == 5);
    assert("u32_2"@[0] == 'u');
    assert("u32_2"@[1] == '3');
    assert("u32_2"@[2] == '2');
    assert("u32_2"@[3] == '_');
    assert("u32_2"@[4] == '2');
    reveal_strlit("u32_3");
    assert("u32_3"@.len() == 5);
    assert("u32_3"@[0] == 'u');
    assert("u32_3"@[1] == '3');
    assert("u32_3"@[2] == '2');
    assert("u32_3"@[3] == '_');
    assert("u32_3"@[4] == '3');
    reveal_strlit("ribbon_id");
    assert("ribbon_id"@.len() == 9);
    assert("ribbon_id"@[0] == 'r');
    assert("ribbon_id"@[1] == 'i');
    assert("ribbon_id"@[2] == 'b');
    assert("ribbon_id"@[3] == 'b');
    assert("ribbon_id"@[4] == 'o');
    assert("ribbon_id"@[5] == 'n');
    assert("ribbon_id"@[6] == '_');
    assert("ribbon_id"@[7] == 'i');
    assert("ribbon_id"@[8] == 'd');
}

/// The editor's label of the attribute named `name`: that of the first attribute of the
/// list with that name, or "None" when no attribute has it.
pub fn attr_to_label(name: &str) -> (label: &'static str)
    ensures
        none_named(name@) ==> label@ == "None"@,
        forall|i: int| is_first_named(name@, i) ==> label@ == attribute_at(i).label_view(),
        forall|a: AttributeId| #[trigger] a.name_view() == name@ ==> label@ == a.label_view(),
{
    match AttributeId::from_name(name) {
        Some(a) => a.label(),
        None => "None",
    }
}

} // verus!
