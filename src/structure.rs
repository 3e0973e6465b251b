//! Structural rules: geometry, material, mesh and scene.
//!
//! As in `lexical`, each rule has a model over the input's characters and an
//! executable parser that computes exactly that model.
use vstd::prelude::*;
use vstd::string::*;
use crate::ast::{
    Geometry, GeometryKind, GeometryModel, Kvp, KvpModel, Material, MaterialKind, MaterialModel,
    Mesh, MeshModel, ParseError, Rule, Scene, SceneModel, Vec3, Vec3Model, kvps_view, meshes_view,
    opt_vec3_view, texts_view,
};
use crate::lexical::{
    char_at, fail, has_char, has_tag, kvp_at, number_at, rest_of, skip_ws, spec_kvp, spec_number,
    spec_vec3, tag_at, vec3_at, within, ws_end,
};

verus! {

/// `box` or `sphere` at `i`.
pub open spec fn spec_geometry_kind(s: Seq<char>, i: int) -> Option<(GeometryKind, int)> {
    if has_tag(s, i, "box"@) {
        Some((GeometryKind::Box, i + "box"@.len()))
    } else if has_tag(s, i, "sphere"@) {
        Some((GeometryKind::Sphere, i + "sphere"@.len()))
    } else {
        None
    }
}

/// `basic` or `standard` at `i`.
pub open spec fn spec_material_kind(s: Seq<char>, i: int) -> Option<(MaterialKind, int)> {
    if has_tag(s, i, "basic"@) {
        Some((MaterialKind::Basic, i + "basic"@.len()))
    } else if has_tag(s, i, "standard"@) {
        Some((MaterialKind::Standard, i + "standard"@.len()))
    } else {
        None
    }
}

/// A list separator `ws* "," ws*` at `i`: the position after it.
pub open spec fn spec_separator(s: Seq<char>, i: int) -> Option<int> {
    if has_char(s, ws_end(s, i), ',') {
        Some(ws_end(s, ws_end(s, i) + 1))
    } else {
        None
    }
}

/// The numbers that follow a first one ending at `i`, each after a separator.
pub open spec fn spec_more_numbers(s: Seq<char>, i: int) -> (Seq<Seq<char>>, int)
    decreases s.len() - i,
{
    match spec_separator(s, i) {
        Some(a) => match spec_number(s, a) {
            Some((v, e)) => if i < e <= s.len() {
                (seq![v] + spec_more_numbers(s, e).0, spec_more_numbers(s, e).1)
            } else {
                (seq![], i)
            },
            None => (seq![], i),
        },
        None => (seq![], i),
    }
}

/// `(number ("," number)*)?` at `i`; never fails.
pub open spec fn spec_number_list(s: Seq<char>, i: int) -> (Seq<Seq<char>>, int) {
    match spec_number(s, i) {
        Some((v, e)) => (seq![v] + spec_more_numbers(s, e).0, spec_more_numbers(s, e).1),
        None => (seq![], i),
    }
}

/// The pairs that follow a first one ending at `i`, each after a separator.
pub open spec fn spec_more_kvps(s: Seq<char>, i: int) -> (Seq<KvpModel>, int)
    decreases s.len() - i,
{
    match spec_separator(s, i) {
        Some(a) => match spec_kvp(s, a) {
            Some((v, e)) => if i < e <= s.len() {
                (seq![v] + spec_more_kvps(s, e).0, spec_more_kvps(s, e).1)
            } else {
                (seq![], i)
            },
            None => (seq![], i),
        },
        None => (seq![], i),
    }
}

/// `(kvp ("," kvp)*)?` at `i`; never fails.
pub open spec fn spec_kvp_list(s: Seq<char>, i: int) -> (Seq<KvpModel>, int) {
    match spec_kvp(s, i) {
        Some((v, e)) => (seq![v] + spec_more_kvps(s, e).0, spec_more_kvps(s, e).1),
        None => (seq![], i),
    }
}

/// A geometry keyword immediately followed by `(` number_list `)`.
pub open spec fn spec_geometry(s: Seq<char>, i: int) -> Option<(GeometryModel, int)> {
    match spec_geometry_kind(s, i) {
        Some((kind, p)) => if has_char(s, p, '(') && has_char(s, spec_number_list(s, p + 1).1, ')') {
            Some((GeometryModel { kind, args: spec_number_list(s, p + 1).0 }, spec_number_list(s, p + 1).1 + 1))
        } else {
            None
        },
        None => None,
    }
}

/// A material keyword immediately followed by `(` kvp_list `)`.
pub open spec fn spec_material(s: Seq<char>, i: int) -> Option<(MaterialModel, int)> {
    match spec_material_kind(s, i) {
        Some((kind, p)) => if has_char(s, p, '(') && has_char(s, spec_kvp_list(s, p + 1).1, ')') {
            Some((MaterialModel { kind, properties: spec_kvp_list(s, p + 1).0 }, spec_kvp_list(s, p + 1).1 + 1))
        } else {
            None
        },
        None => None,
    }
}

/// The position after the keyword `long`, else after `short`, at `i`.
pub open spec fn keyword_end(s: Seq<char>, i: int, long: Seq<char>, short: Seq<char>) -> Option<int> {
    if has_tag(s, i, long) {
        Some(i + long.len())
    } else if has_tag(s, i, short) {
        Some(i + short.len())
    } else {
        None
    }
}

/// A keyword (`long` or `short`) followed by `(` vec3 `)`.
pub open spec fn spec_keyed_vec3(s: Seq<char>, i: int, long: Seq<char>, short: Seq<char>) -> Option<(Vec3Model, int)> {
    match keyword_end(s, i, long, short) {
        Some(p) => if has_char(s, p, '(') {
            match spec_vec3(s, p + 1) {
                Some((v, e)) => if has_char(s, e, ')') {
                    Some((v, e + 1))
                } else {
                    None
                },
                None => None,
            }
        } else {
            None
        },
        None => None,
    }
}

pub open spec fn spec_position(s: Seq<char>, i: int) -> Option<(Vec3Model, int)> {
    spec_keyed_vec3(s, i, "position"@, "pos"@)
}

pub open spec fn spec_rotation(s: Seq<char>, i: int) -> Option<(Vec3Model, int)> {
    spec_keyed_vec3(s, i, "rotation"@, "rot"@)
}

/// A geometry with the whitespace around it.
pub open spec fn slot_geometry(s: Seq<char>, i: int) -> Option<(GeometryModel, int)> {
    match spec_geometry(s, ws_end(s, i)) {
        Some((v, e)) => Some((v, ws_end(s, e))),
        None => None,
    }
}

/// A material with the whitespace around it.
pub open spec fn slot_material(s: Seq<char>, i: int) -> Option<(MaterialModel, int)> {
    match spec_material(s, ws_end(s, i)) {
        Some((v, e)) => Some((v, ws_end(s, e))),
        None => None,
    }
}

/// A position with the whitespace around it.
pub open spec fn slot_position(s: Seq<char>, i: int) -> Option<(Vec3Model, int)> {
    match spec_position(s, ws_end(s, i)) {
        Some((v, e)) => Some((v, ws_end(s, e))),
        None => None,
    }
}

/// A rotation with the whitespace around it.
pub open spec fn slot_rotation(s: Seq<char>, i: int) -> Option<(Vec3Model, int)> {
    match spec_rotation(s, ws_end(s, i)) {
        Some((v, e)) => Some((v, ws_end(s, e))),
        None => None,
    }
}

/// The fields of a mesh found so far.
pub struct MeshFields {
    pub geometry: Option<GeometryModel>,
    pub material: Option<MaterialModel>,
    pub position: Option<Vec3Model>,
    pub rotation: Option<Vec3Model>,
}

pub open spec fn no_fields() -> MeshFields {
    MeshFields { geometry: None, material: None, position: None, rotation: None }
}

/// One step of the unordered field loop: the first field, in the order
/// geometry, material, position, rotation, that is still missing and matches at `i`.
pub open spec fn field_step(s: Seq<char>, i: int, f: MeshFields) -> Option<(MeshFields, int)> {
    if f.geometry is None && slot_geometry(s, i) is Some {
        let (v, e) = slot_geometry(s, i)->Some_0;
        Some((MeshFields { geometry: Some(v), material: f.material, position: f.position, rotation: f.rotation }, e))
    } else if f.material is None && slot_material(s, i) is Some {
        let (v, e) = slot_material(s, i)->Some_0;
        Some((MeshFields { geometry: f.geometry, material: Some(v), position: f.position, rotation: f.rotation }, e))
    } else if f.position is None && slot_position(s, i) is Some {
        let (v, e) = slot_position(s, i)->Some_0;
        Some((MeshFields { geometry: f.geometry, material: f.material, position: Some(v), rotation: f.rotation }, e))
    } else if f.rotation is None && slot_rotation(s, i) is Some {
        let (v, e) = slot_rotation(s, i)->Some_0;
        Some((MeshFields { geometry: f.geometry, material: f.material, position: f.position, rotation: Some(v) }, e))
    } else {
        None
    }
}

/// The fields found from `i` on, in any order, each at most once, until no
/// missing field matches.
pub open spec fn spec_fields(s: Seq<char>, i: int, f: MeshFields) -> (MeshFields, int)
    decreases s.len() - i,
{
    match field_step(s, i, f) {
        Some((g, e)) => if i < e <= s.len() {
            spec_fields(s, e, g)
        } else {
            (f, i)
        },
        None => (f, i),
    }
}

/// `mesh` followed by its fields in any order; geometry and material are required.
pub open spec fn spec_mesh(s: Seq<char>, i: int) -> Option<(MeshModel, int)> {
    if has_tag(s, i, "mesh"@) {
        let (f, e) = spec_fields(s, i + "mesh"@.len(), no_fields());
        if f.geometry is Some && f.material is Some {
            Some((
                MeshModel {
                    geometry: f.geometry->Some_0,
                    material: f.material->Some_0,
                    position: f.position,
                    rotation: f.rotation,
                },
                e,
            ))
        } else {
            None
        }
    } else {
        None
    }
}

/// The meshes from `i` on, each with the whitespace around it.
pub open spec fn spec_meshes(s: Seq<char>, i: int) -> (Seq<MeshModel>, int)
    decreases s.len() - i,
{
    match spec_mesh(s, ws_end(s, i)) {
        Some((m, e)) => if i < ws_end(s, e) <= s.len() {
            (seq![m] + spec_meshes(s, ws_end(s, e)).0, spec_meshes(s, ws_end(s, e)).1)
        } else {
            (seq![], i)
        },
        None => (seq![], i),
    }
}

/// `scene ws* "{" (ws* mesh ws*)* ws* "}" ws*` at `i`.
pub open spec fn spec_scene(s: Seq<char>, i: int) -> Option<(SceneModel, int)> {
    if has_tag(s, i, "scene"@) && has_char(s, ws_end(s, i + "scene"@.len()), '{') {
        let (ms, c) = spec_meshes(s, ws_end(s, ws_end(s, i + "scene"@.len()) + 1));
        if has_char(s, ws_end(s, c), '}') {
            Some((SceneModel { meshes: ms }, ws_end(s, ws_end(s, c) + 1)))
        } else {
            None
        }
    } else {
        None
    }
}

pub fn geometry_kind_at(s: &str, n: usize, i: usize) -> (r: Result<(GeometryKind, usize), ParseError>)
    requires
        n == s@.len(),
        i <= n,
    ensures
        match spec_geometry_kind(s@, i as int) {
            Some((v, e)) => r matches Ok((x, k)) && x == v && k == e && k <= n,
            None => r is Err,
        },
{
    if tag_at(s, n, i, "box") {
        Ok((GeometryKind::Box, i + "box".unicode_len()))
    } else if tag_at(s, n, i, "sphere") {
        Ok((GeometryKind::Sphere, i + "sphere".unicode_len()))
    } else {
        Err(fail(i, Rule::GeometryKind))
    }
}

pub fn material_kind_at(s: &str, n: usize, i: usize) -> (r: Result<(MaterialKind, usize), ParseError>)
    requires
        n == s@.len(),
        i <= n,
    ensures
        match spec_material_kind(s@, i as int) {
            Some((v, e)) => r matches Ok((x, k)) && x == v && k == e && k <= n,
            None => r is Err,
        },
{
    if tag_at(s, n, i, "basic") {
        Ok((MaterialKind::Basic, i + "basic".unicode_len()))
    } else if tag_at(s, n, i, "standard") {
        Ok((MaterialKind::Standard, i + "standard".unicode_len()))
    } else {
        Err(fail(i, Rule::MaterialKind))
    }
}

fn separator_at(s: &str, n: usize, i: usize) -> (r: Option<usize>)
    requires
        n == s@.len(),
        i <= n,
    ensures
        match spec_separator(s@, i as int) {
            Some(a) => r == Some(a as usize) && i <= a <= n,
            None => r is None,
        },
{
    let w = skip_ws(s, n, i);
    if char_at(s, n, w, ',') {
        Some(skip_ws(s, n, w + 1))
    } else {
        None
    }
}

fn more_numbers_at<'a>(s: &'a str, n: usize, i: usize) -> (r: (Vec<&'a str>, usize))
    requires
        n == s@.len(),
        i <= n,
    ensures
        texts_view(r.0@) == spec_more_numbers(s@, i as int).0,
        r.1 == spec_more_numbers(s@, i as int).1,
        r.1 <= n,
    decreases n - i,
{
    if let Some(a) = separator_at(s, n, i) {
        if let Ok((v, e)) = number_at(s, n, a) {
            if i < e {
                let (mut rest, k) = more_numbers_at(s, n, e);
                let ghost tail = rest@;
                rest.insert(0, v);
                assert(texts_view(rest@) =~= seq![v@] + texts_view(tail));
                return (rest, k);
            }
        }
    }
    (Vec::new(), i)
}

fn number_list_at<'a>(s: &'a str, n: usize, i: usize) -> (r: (Vec<&'a str>, usize))
    requires
        n == s@.len(),
        i <= n,
    ensures
        texts_view(r.0@) == spec_number_list(s@, i as int).0,
        r.1 == spec_number_list(s@, i as int).1,
        r.1 <= n,
{
    if let Ok((v, e)) = number_at(s, n, i) {
        let (mut rest, k) = more_numbers_at(s, n, e);
        let ghost tail = rest@;
        rest.insert(0, v);
        assert(texts_view(rest@) =~= seq![v@] + texts_view(tail));
        return (rest, k);
    }
    (Vec::new(), i)
}

fn more_kvps_at<'a>(s: &'a str, n: usize, i: usize) -> (r: (Vec<Kvp<'a>>, usize))
    requires
        n == s@.len(),
        i <= n,
    ensures
        kvps_view(r.0@) == spec_more_kvps(s@, i as int).0,
        r.1 == spec_more_kvps(s@, i as int).1,
        r.1 <= n,
    decreases n - i,
{
    if let Some(a) = separator_at(s, n, i) {
        if let Ok((v, e)) = kvp_at(s, n, a) {
            if i < e {
                let ghost head = v@;
                let (mut rest, k) = more_kvps_at(s, n, e);
                let ghost tail = rest@;
                rest.insert(0, v);
                assert(kvps_view(rest@) =~= seq![head] + kvps_view(tail));
                return (rest, k);
            }
        }
    }
    (Vec::new(), i)
}

fn kvp_list_at<'a>(s: &'a str, n: usize, i: usize) -> (r: (Vec<Kvp<'a>>, usize))
    requires
        n == s@.len(),
        i <= n,
    ensures
        kvps_view(r.0@) == spec_kvp_list(s@, i as int).0,
        r.1 == spec_kvp_list(s@, i as int).1,
        r.1 <= n,
{
    if let Ok((v, e)) = kvp_at(s, n, i) {
        let ghost head = v@;
        let (mut rest, k) = more_kvps_at(s, n, e);
        let ghost tail = rest@;
        rest.insert(0, v);
        assert(kvps_view(rest@) =~= seq![head] + kvps_view(tail));
        return (rest, k);
    }
    (Vec::new(), i)
}

pub fn geometry_at<'a>(s: &'a str, n: usize, i: usize) -> (r: Result<(Geometry<'a>, usize), ParseError>)
    requires
        n == s@.len(),
        i <= n,
    ensures
        match spec_geometry(s@, i as int) {
            Some((v, e)) => r matches Ok((x, k)) && x@ == v && k == e && k <= n,
            None => r is Err,
        },
{
    let (kind, p) = match geometry_kind_at(s, n, i) {
        Ok(x) => x,
        Err(err) => return Err(within(err, Rule::Geometry)),
    };
    if !char_at(s, n, p, '(') {
        return Err(fail(p, Rule::Geometry));
    }
    let (args, e) = number_list_at(s, n, p + 1);
    if !char_at(s, n, e, ')') {
        return Err(fail(e, Rule::Geometry));
    }
    Ok((Geometry { kind, args }, e + 1))
}

pub fn material_at<'a>(s: &'a str, n: usize, i: usize) -> (r: Result<(Material<'a>, usize), ParseError>)
    requires
        n == s@.len(),
        i <= n,
    ensures
        match spec_material(s@, i as int) {
            Some((v, e)) => r matches Ok((x, k)) && x@ == v && k == e && k <= n,
            None => r is Err,
        },
{
    let (kind, p) = match material_kind_at(s, n, i) {
        Ok(x) => x,
        Err(err) => return Err(within(err, Rule::Material)),
    };
    if !char_at(s, n, p, '(') {
        return Err(fail(p, Rule::Material));
    }
    let (properties, e) = kvp_list_at(s, n, p + 1);
    if !char_at(s, n, e, ')') {
        return Err(fail(e, Rule::Material));
    }
    Ok((Material { kind, properties }, e + 1))
}

fn keyed_vec3_at<'a>(s: &'a str, n: usize, i: usize, long: &str, short: &str, rule: Rule) -> (r: Result<(Vec3<'a>, usize), ParseError>)
    requires
        n == s@.len(),
        i <= n,
    ensures
        match spec_keyed_vec3(s@, i as int, long@, short@) {
            Some((v, e)) => r matches Ok((x, k)) && x@ == v && k == e && k <= n,
            None => r is Err,
        },
{
    let p = if tag_at(s, n, i, long) {
        i + long.unicode_len()
    } else if tag_at(s, n, i, short) {
        i + short.unicode_len()
    } else {
        return Err(fail(i, rule));
    };
    if !char_at(s, n, p, '(') {
        return Err(fail(p, rule));
    }
    let (v, e) = match vec3_at(s, n, p + 1) {
        Ok(x) => x,
        Err(err) => return Err(within(err, rule)),
    };
    if !char_at(s, n, e, ')') {
        return Err(fail(e, rule));
    }
    Ok((v, e + 1))
}

fn slot_geometry_at<'a>(s: &'a str, n: usize, i: usize) -> (r: Result<(Geometry<'a>, usize), ParseError>)
    requires
        n == s@.len(),
        i <= n,
    ensures
        match slot_geometry(s@, i as int) {
            Some((v, e)) => r matches Ok((x, k)) && x@ == v && k == e && k <= n,
            None => r is Err,
        },
{
    let w = skip_ws(s, n, i);
    let (x, e) = geometry_at(s, n, w)?;
    Ok((x, skip_ws(s, n, e)))
}

fn slot_material_at<'a>(s: &'a str, n: usize, i: usize) -> (r: Result<(Material<'a>, usize), ParseError>)
    requires
        n == s@.len(),
        i <= n,
    ensures
        match slot_material(s@, i as int) {
            Some((v, e)) => r matches Ok((x, k)) && x@ == v && k == e && k <= n,
            None => r is Err,
        },
{
    let w = skip_ws(s, n, i);
    let (x, e) = material_at(s, n, w)?;
    Ok((x, skip_ws(s, n, e)))
}

fn slot_position_at<'a>(s: &'a str, n: usize, i: usize) -> (r: Result<(Vec3<'a>, usize), ParseError>)
    requires
        n == s@.len(),
        i <= n,
    ensures
        match slot_position(s@, i as int) {
            Some((v, e)) => r matches Ok((x, k)) && x@ == v && k == e && k <= n,
            None => r is Err,
        },
{
    let w = skip_ws(s, n, i);
    let (x, e) = keyed_vec3_at(s, n, w, "position", "pos", Rule::Position)?;
    Ok((x, skip_ws(s, n, e)))
}

fn slot_rotation_at<'a>(s: &'a str, n: usize, i: usize) -> (r: Result<(Vec3<'a>, usize), ParseError>)
    requires
        n == s@.len(),
        i <= n,
    ensures
        match slot_rotation(s@, i as int) {
            Some((v, e)) => r matches Ok((x, k)) && x@ == v && k == e && k <= n,
            None => r is Err,
        },
{
    let w = skip_ws(s, n, i);
    let (x, e) = keyed_vec3_at(s, n, w, "rotation", "rot", Rule::Rotation)?;
    Ok((x, skip_ws(s, n, e)))
}

/// The fields of a mesh parsed so far.
struct Fields<'a> {
    geometry: Option<Geometry<'a>>,
    material: Option<Material<'a>>,
    position: Option<Vec3<'a>>,
    rotation: Option<Vec3<'a>>,
}

impl<'a> View for Fields<'a> {
    type V = MeshFields;

    closed spec fn view(&self) -> MeshFields {
        MeshFields {
            geometry: match self.geometry {
                Some(g) => Some(g@),
                None => None,
            },
            material: match self.material {
                Some(m) => Some(m@),
                None => None,
            },
            position: opt_vec3_view(self.position),
            rotation: opt_vec3_view(self.rotation),
        }
    }
}

fn fields_at<'a>(s: &'a str, n: usize, i: usize, f: Fields<'a>) -> (r: (Fields<'a>, usize))
    requires
        n == s@.len(),
        i <= n,
    ensures
        r.0@ == spec_fields(s@, i as int, f@).0,
        r.1 == spec_fields(s@, i as int, f@).1,
        r.1 <= n,
    decreases n - i,
{
    if f.geometry.is_none() {
        if let Ok((v, e)) = slot_geometry_at(s, n, i) {
            if i < e {
                let g = Fields { geometry: Some(v), material: f.material, position: f.position, rotation: f.rotation };
                return fields_at(s, n, e, g);
            }
            return (f, i);
        }
    }
    if f.material.is_none() {
        if let Ok((v, e)) = slot_material_at(s, n, i) {
            if i < e {
                let g = Fields { geometry: f.geometry, material: Some(v), position: f.position, rotation: f.rotation };
                return fields_at(s, n, e, g);
            }
            return (f, i);
        }
    }
    if f.position.is_none() {
        if let Ok((v, e)) = slot_position_at(s, n, i) {
            if i < e {
                let g = Fields { geometry: f.geometry, material: f.material, position: Some(v), rotation: f.rotation };
                return fields_at(s, n, e, g);
            }
            return (f, i);
        }
    }
    if f.rotation.is_none() {
        if let Ok((v, e)) = slot_rotation_at(s, n, i) {
            if i < e {
                let g = Fields { geometry: f.geometry, material: f.material, position: f.position, rotation: Some(v) };
                return fields_at(s, n, e, g);
            }
            return (f, i);
        }
    }
    (f, i)
}

pub fn mesh_at<'a>(s: &'a str, n: usize, i: usize) -> (r: Result<(Mesh<'a>, usize), ParseError>)
    requires
        n == s@.len(),
        i <= n,
    ensures
        match spec_mesh(s@, i as int) {
            Some((v, e)) => r matches Ok((x, k)) && x@ == v && k == e && k <= n,
            None => r is Err,
        },
{
    if !tag_at(s, n, i, "mesh") {
        return Err(fail(i, Rule::Mesh));
    }
    let start = i + "mesh".unicode_len();
    let empty = Fields { geometry: None, material: None, position: None, rotation: None };
    assert(empty@ == no_fields());
    let (f, e) = fields_at(s, n, start, empty);
    match (f.geometry, f.material) {
        (Some(geometry), Some(material)) => Ok((Mesh { geometry, material, position: f.position, rotation: f.rotation }, e)),
        (None, _) => Err(within(fail(e, Rule::Geometry), Rule::Mesh)),
        (_, None) => Err(within(fail(e, Rule::Material), Rule::Mesh)),
    }
}

fn meshes_at<'a>(s: &'a str, n: usize, i: usize) -> (r: (Vec<Mesh<'a>>, usize))
    requires
        n == s@.len(),
        i <= n,
    ensures
        meshes_view(r.0@) == spec_meshes(s@, i as int).0,
        r.1 == spec_meshes(s@, i as int).1,
        r.1 <= n,
    decreases n - i,
{
    let w = skip_ws(s, n, i);
    if let Ok((m, e)) = mesh_at(s, n, w) {
        let e2 = skip_ws(s, n, e);
        if i < e2 {
            let ghost head = m@;
            let (mut rest, k) = meshes_at(s, n, e2);
            let ghost tail = rest@;
            rest.insert(0, m);
            assert(meshes_view(rest@) =~= seq![head] + meshes_view(tail));
            return (rest, k);
        }
    }
    (Vec::new(), i)
}

pub fn scene_at<'a>(s: &'a str, n: usize, i: usize) -> (r: Result<(Scene<'a>, usize), ParseError>)
    requires
        n == s@.len(),
        i <= n,
    ensures
        match spec_scene(s@, i as int) {
            Some((v, e)) => r matches Ok((x, k)) && x@ == v && k == e && k <= n,
            None => r is Err,
        },
{
    if !tag_at(s, n, i, "scene") {
        return Err(fail(i, Rule::Scene));
    }
    let a = skip_ws(s, n, i + "scene".unicode_len());
    if !char_at(s, n, a, '{') {
        return Err(fail(a, Rule::Scene));
    }
    let b = skip_ws(s, n, a + 1);
    let (meshes, c) = meshes_at(s, n, b);
    let w = skip_ws(s, n, c);
    if !char_at(s, n, w, '}') {
        let err = match mesh_at(s, n, w) {
            Err(inner) => within(inner, Rule::Scene),
            Ok(_) => fail(w, Rule::Scene),
        };
        return Err(err);
    }
    Ok((Scene { meshes }, skip_ws(s, n, w + 1)))
}

/// A geometry keyword at the start of `input`, and the input after it.
pub fn geometry_kind(input: &str) -> (r: Result<(&str, GeometryKind), ParseError>)
    ensures
        match spec_geometry_kind(input@, 0) {
            Some((v, e)) => r matches Ok((rest, x)) && x == v && rest@ == rest_of(input@, e),
            None => r is Err,
        },
{
    let n = input.unicode_len();
    let (x, e) = geometry_kind_at(input, n, 0)?;
    Ok((input.substring_char(e, n), x))
}

/// A geometry at the start of `input`, and the input after it.
pub fn geometry(input: &str) -> (r: Result<(&str, Geometry), ParseError>)
    ensures
        match spec_geometry(input@, 0) {
            Some((v, e)) => r matches Ok((rest, x)) && x@ == v && rest@ == rest_of(input@, e),
            None => r is Err,
        },
{
    let n = input.unicode_len();
    let (x, e) = geometry_at(input, n, 0)?;
    Ok((input.substring_char(e, n), x))
}

/// A material keyword at the start of `input`, and the input after it.
pub fn material_kind(input: &str) -> (r: Result<(&str, MaterialKind), ParseError>)
    ensures
        match spec_material_kind(input@, 0) {
            Some((v, e)) => r matches Ok((rest, x)) && x == v && rest@ == rest_of(input@, e),
            None => r is Err,
        },
{
    let n = input.unicode_len();
    let (x, e) = material_kind_at(input, n, 0)?;
    Ok((input.substring_char(e, n), x))
}

/// A material at the start of `input`, and the input after it.
pub fn material(input: &str) -> (r: Result<(&str, Material), ParseError>)
    ensures
        match spec_material(input@, 0) {
            Some((v, e)) => r matches Ok((rest, x)) && x@ == v && rest@ == rest_of(input@, e),
            None => r is Err,
        },
{
    let n = input.unicode_len();
    let (x, e) = material_at(input, n, 0)?;
    Ok((input.substring_char(e, n), x))
}

/// A mesh at the start of `input`, and the input after it.
pub fn mesh(input: &str) -> (r: Result<(&str, Mesh), ParseError>)
    ensures
        match spec_mesh(input@, 0) {
            Some((v, e)) => r matches Ok((rest, x)) && x@ == v && rest@ == rest_of(input@, e),
            None => r is Err,
        },
{
    let n = input.unicode_len();
    let (x, e) = mesh_at(input, n, 0)?;
    Ok((input.substring_char(e, n), x))
}

/// A scene at the start of `input`, and the input after it.
pub fn scene(input: &str) -> (r: Result<(&str, Scene), ParseError>)
    ensures
        match spec_scene(input@, 0) {
            Some((v, e)) => r matches Ok((rest, x)) && x@ == v && rest@ == rest_of(input@, e),
            None => r is Err,
        },
{
    let n = input.unicode_len();
    let (x, e) = scene_at(input, n, 0)?;
    Ok((input.substring_char(e, n), x))
}

} // verus!
