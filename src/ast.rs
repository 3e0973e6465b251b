//! The syntax tree of a scene, and its mathematical model.
//!
//! Every piece of source text that the tree keeps is a slice of the input,
//! never a copy, so that the exact spelling reaches the output.
use vstd::prelude::*;

verus! {

/// What kind of scalar a material property holds.
#[derive(Debug, Clone, Copy, PartialEq, Eq, Structural)]
pub enum LiteralKind {
    String,
    Number,
    Boolean,
}

/// A scalar value, kept as the raw text of the source (without the quotes
/// of a string).
#[derive(Debug, PartialEq)]
pub struct Literal<'a> {
    pub kind: LiteralKind,
    pub value: &'a str,
}

/// One material property: `key: value`.
#[derive(Debug, PartialEq)]
pub struct Kvp<'a> {
    pub key: &'a str,
    pub value: Literal<'a>,
}

/// A position or rotation triple, each component kept as raw numeric text.
#[derive(Debug, PartialEq)]
pub struct Vec3<'a> {
    pub x: &'a str,
    pub y: &'a str,
    pub z: &'a str,
}

#[derive(Debug, Clone, Copy, PartialEq, Eq, Structural)]
pub enum GeometryKind {
    Box,
    Sphere,
}

/// A geometry primitive with its raw numeric arguments; their number is not
/// checked against the kind.
#[derive(Debug, PartialEq)]
pub struct Geometry<'a> {
    pub kind: GeometryKind,
    pub args: Vec<&'a str>,
}

#[derive(Debug, Clone, Copy, PartialEq, Eq, Structural)]
pub enum MaterialKind {
    Basic,
    Standard,
}

/// A material with its properties in declaration order; keys are not
/// checked against the kind.
#[derive(Debug, PartialEq)]
pub struct Material<'a> {
    pub kind: MaterialKind,
    pub properties: Vec<Kvp<'a>>,
}

#[derive(Debug, PartialEq)]
pub struct Mesh<'a> {
    pub geometry: Geometry<'a>,
    pub material: Material<'a>,
    pub position: Option<Vec3<'a>>,
    pub rotation: Option<Vec3<'a>>,
}

/// A scene: its meshes in declaration order.
#[derive(Debug, PartialEq)]
pub struct Scene<'a> {
    pub meshes: Vec<Mesh<'a>>,
}

/// A grammar rule, as named in the trail of a failed parse.
#[derive(Debug, Clone, Copy, PartialEq, Eq, Structural)]
pub enum Rule {
    String,
    Number,
    Boolean,
    Literal,
    Identifier,
    Kvp,
    Vec3,
    GeometryKind,
    Geometry,
    MaterialKind,
    Material,
    Position,
    Rotation,
    Mesh,
    Scene,
}

/// A failed parse: the offset (in characters) of the input that could not be
/// consumed, and the rules that were being parsed there, innermost first.
#[derive(Debug, PartialEq)]
pub struct ParseError {
    pub offset: usize,
    pub context: Vec<Rule>,
}

pub struct LiteralModel {
    pub kind: LiteralKind,
    pub value: Seq<char>,
}

pub struct KvpModel {
    pub key: Seq<char>,
    pub value: LiteralModel,
}

pub struct Vec3Model {
    pub x: Seq<char>,
    pub y: Seq<char>,
    pub z: Seq<char>,
}

pub struct GeometryModel {
    pub kind: GeometryKind,
    pub args: Seq<Seq<char>>,
}

pub struct MaterialModel {
    pub kind: MaterialKind,
    pub properties: Seq<KvpModel>,
}

pub struct MeshModel {
    pub geometry: GeometryModel,
    pub material: MaterialModel,
    pub position: Option<Vec3Model>,
    pub rotation: Option<Vec3Model>,
}

pub struct SceneModel {
    pub meshes: Seq<MeshModel>,
}

impl<'a> View for Literal<'a> {
    type V = LiteralModel;

    open spec fn view(&self) -> LiteralModel {
        LiteralModel { kind: self.kind, value: self.value@ }
    }
}

impl<'a> View for Kvp<'a> {
    type V = KvpModel;

    open spec fn view(&self) -> KvpModel {
        KvpModel { key: self.key@, value: self.value@ }
    }
}

impl<'a> View for Vec3<'a> {
    type V = Vec3Model;

    open spec fn view(&self) -> Vec3Model {
        Vec3Model { x: self.x@, y: self.y@, z: self.z@ }
    }
}

pub open spec fn texts_view<'a>(v: Seq<&'a str>) -> Seq<Seq<char>> {
    v.map_values(|a: &'a str| a@)
}

impl<'a> View for Geometry<'a> {
    type V = GeometryModel;

    open spec fn view(&self) -> GeometryModel {
        GeometryModel { kind: self.kind, args: texts_view(self.args@) }
    }
}

pub open spec fn kvps_view<'a>(v: Seq<Kvp<'a>>) -> Seq<KvpModel> {
    v.map_values(|k: Kvp<'a>| k@)
}

impl<'a> View for Material<'a> {
    type V = MaterialModel;

    open spec fn view(&self) -> MaterialModel {
        MaterialModel { kind: self.kind, properties: kvps_view(self.properties@) }
    }
}

pub open spec fn opt_vec3_view<'a>(v: Option<Vec3<'a>>) -> Option<Vec3Model> {
    match v {
        Some(x) => Some(x@),
        None => None,
    }
}

impl<'a> View for Mesh<'a> {
    type V = MeshModel;

    open spec fn view(&self) -> MeshModel {
        MeshModel {
            geometry: self.geometry@,
            material: self.material@,
            position: opt_vec3_view(self.position),
            rotation: opt_vec3_view(self.rotation),
        }
    }
}

pub open spec fn meshes_view<'a>(v: Seq<Mesh<'a>>) -> Seq<MeshModel> {
    v.map_values(|m: Mesh<'a>| m@)
}

impl<'a> View for Scene<'a> {
    type V = SceneModel;

    open spec fn view(&self) -> SceneModel {
        SceneModel { meshes: meshes_view(self.meshes@) }
    }
}

} // verus!
