//! The two closed enumerations handed to the host when an object is created.
use vstd::prelude::*;

verus! {

/// A rendering material the host attaches to a created object.
#[derive(Debug, Clone, Copy, PartialEq, Eq, Structural)]
pub enum MaterialClass {
    MeshBasicMaterial,
    MeshLambertMaterial,
    MeshPhongMaterial,
    MeshStandardMaterial,
    MeshPhysicalMaterial,
    MeshToonMaterial,
    MeshDepthMaterial,
    MeshNormalMaterial,
    LineBasicMaterial,
    LineDashedMaterial,
    PointsMaterial,
}

impl MaterialClass {
    /// The integer tag by which the host knows this material.
    pub open spec fn spec_tag(self) -> i32 {
        match self {
            MaterialClass::MeshBasicMaterial => 1001,
            MaterialClass::MeshLambertMaterial => 1002,
            MaterialClass::MeshPhongMaterial => 1003,
            MaterialClass::MeshStandardMaterial => 1004,
            MaterialClass::MeshPhysicalMaterial => 1005,
            MaterialClass::MeshToonMaterial => 1006,
            MaterialClass::MeshDepthMaterial => 1007,
            MaterialClass::MeshNormalMaterial => 1008,
            MaterialClass::LineBasicMaterial => 1010,
            MaterialClass::LineDashedMaterial => 1011,
            MaterialClass::PointsMaterial => 1012,
        }
    }

    /// The integer tag that crosses the host boundary for this material.
    #[verifier::when_used_as_spec(spec_tag)]
    pub fn tag(self) -> (r: i32)
        ensures
            r == self.spec_tag(),
    {
        match self {
            MaterialClass::MeshBasicMaterial => 1001,
            MaterialClass::MeshLambertMaterial => 1002,
            MaterialClass::MeshPhongMaterial => 1003,
            MaterialClass::MeshStandardMaterial => 1004,
            MaterialClass::MeshPhysicalMaterial => 1005,
            MaterialClass::MeshToonMaterial => 1006,
            MaterialClass::MeshDepthMaterial => 1007,
            MaterialClass::MeshNormalMaterial => 1008,
            MaterialClass::LineBasicMaterial => 1010,
            MaterialClass::LineDashedMaterial => 1011,
            MaterialClass::PointsMaterial => 1012,
        }
    }
}

/// A primitive mesh shape the host creates.
#[derive(Debug, Clone, Copy, PartialEq, Eq, Structural)]
pub enum GeometryClass {
    BoxGeometry,
    SphereGeometry,
    PlaneGeometry,
    CylinderGeometry,
    ConeGeometry,
    TorusGeometry,
}

impl GeometryClass {
    /// The integer tag by which the host knows this geometry.
    pub open spec fn spec_tag(self) -> i32 {
        match self {
            GeometryClass::BoxGeometry => 2001,
            GeometryClass::SphereGeometry => 2002,
            GeometryClass::PlaneGeometry => 2003,
            GeometryClass::CylinderGeometry => 2004,
            GeometryClass::ConeGeometry => 2005,
            GeometryClass::TorusGeometry => 2006,
        }
    }

    /// The integer tag that crosses the host boundary for this geometry.
    #[verifier::when_used_as_spec(spec_tag)]
    pub fn tag(self) -> (r: i32)
        ensures
            r == self.spec_tag(),
    {
        match self {
            GeometryClass::BoxGeometry => 2001,
            GeometryClass::SphereGeometry => 2002,
            GeometryClass::PlaneGeometry => 2003,
            GeometryClass::CylinderGeometry => 2004,
            GeometryClass::ConeGeometry => 2005,
            GeometryClass::TorusGeometry => 2006,
        }
    }
}

/// Distinct materials never share a tag, and every tag lies in 1001..=1012
/// with 1009 left unused.
pub proof fn lemma_material_tags_distinct(a: MaterialClass, b: MaterialClass)
    ensures
        a.spec_tag() == b.spec_tag() <==> a == b,
        1001 <= a.spec_tag() <= 1012,
        a.spec_tag() != 1009,
{
}

/// Distinct geometries never share a tag, and every tag lies in 2001..=2006.
pub proof fn lemma_geometry_tags_distinct(a: GeometryClass, b: GeometryClass)
    ensures
        a.spec_tag() == b.spec_tag() <==> a == b,
        2001 <= a.spec_tag() <= 2006,
{
}

/// The two integers that the create-object call hands to the host: the
/// geometry's tag first, then the material's. Only declared tags come out.
pub fn create_object_args(geometry: GeometryClass, material: MaterialClass) -> (r: (i32, i32))
    ensures
        r == (geometry.spec_tag(), material.spec_tag()),
        2001 <= r.0 <= 2006,
        1001 <= r.1 <= 1012,
        r.1 != 1009,
{
    (geometry.tag(), material.tag())
}

} // verus!
