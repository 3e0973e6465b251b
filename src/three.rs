//! Rendering a scene as a JavaScript module for the `three` library.
//!
//! `render_scene` is the exact text, statement by statement; `generate`
//! builds it, and `three` parses a source text and renders the scene.
use vstd::prelude::*;
use vstd::string::*;
use crate::ast::{
    Geometry, GeometryKind, KvpModel, Literal, LiteralKind, LiteralModel, Material, MaterialKind,
    Mesh, MeshModel, ParseError, Scene, SceneModel, Vec3, Vec3Model, kvps_view, meshes_view,
    texts_view,
};
use crate::structure::{scene_at, spec_scene};

verus! {

/// The arguments joined by `, `.
pub open spec fn join_args(a: Seq<Seq<char>>) -> Seq<char>
    decreases a.len(),
{
    if a.len() == 0 {
        seq![]
    } else if a.len() == 1 {
        a[0]
    } else {
        join_args(a.drop_last()) + ", "@ + a.last()
    }
}

/// A string value in single quotes; any other value as written.
pub open spec fn render_value(l: LiteralModel) -> Seq<char> {
    if l.kind == LiteralKind::String {
        "'"@ + l.value + "'"@
    } else {
        l.value
    }
}

/// One entry of a material's object literal.
pub open spec fn render_property(k: KvpModel) -> Seq<char> {
    " "@ + k.key + ": "@ + render_value(k.value) + ","@
}

/// The entries of an object literal, in order.
pub open spec fn render_properties(ps: Seq<KvpModel>) -> Seq<char>
    decreases ps.len(),
{
    if ps.len() == 0 {
        seq![]
    } else {
        render_properties(ps.drop_last()) + render_property(ps.last())
    }
}

pub open spec fn geometry_name(k: GeometryKind) -> Seq<char> {
    match k {
        GeometryKind::Box => "BoxGeometry"@,
        GeometryKind::Sphere => "SphereGeometry"@,
    }
}

pub open spec fn material_name(k: MaterialKind) -> Seq<char> {
    match k {
        MaterialKind::Basic => "MeshBasicMaterial"@,
        MaterialKind::Standard => "MeshStandardMaterial"@,
    }
}

/// The statement that sets `field` of the mesh, where there is a value.
pub open spec fn render_setter(field: Seq<char>, v: Option<Vec3Model>) -> Seq<char> {
    match v {
        Some(v) => "    mesh."@ + field + ".set("@ + v.x + ", "@ + v.y + ", "@ + v.z + ")\n"@,
        None => seq![],
    }
}

/// The statements that build a mesh's geometry, material and the mesh itself.
pub open spec fn render_mesh_head(m: MeshModel) -> Seq<char> {
    "    geometry = new THREE."@ + geometry_name(m.geometry.kind) + "("@ + join_args(m.geometry.args) + ")\n"@
        + "    material = new THREE."@ + material_name(m.material.kind) + "({"@
        + render_properties(m.material.properties) + " })\n"@
        + "    mesh = new THREE.Mesh(geometry, material)\n"@
}

/// The group of statements for one mesh, followed by a blank line.
pub open spec fn render_mesh(m: MeshModel) -> Seq<char> {
    render_mesh_head(m) + render_setter("position"@, m.position) + render_setter("rotation"@, m.rotation)
        + "    scene.add(mesh)\n\n"@
}

/// The groups of all meshes, in order.
pub open spec fn render_meshes(ms: Seq<MeshModel>) -> Seq<char>
    decreases ms.len(),
{
    if ms.len() == 0 {
        seq![]
    } else {
        render_meshes(ms.drop_last()) + render_mesh(ms.last())
    }
}

pub open spec fn prologue() -> Seq<char> {
    "import * as THREE from \"three\";\n\nexport default function createScene() {\n    let scene = new THREE.Scene()\n    let geometry, material, mesh\n\n"@
}

pub open spec fn epilogue() -> Seq<char> {
    "    return scene\n}\n"@
}

/// The module for a scene: a factory function that builds and returns it.
pub open spec fn render_scene(sc: SceneModel) -> Seq<char> {
    prologue() + render_meshes(sc.meshes) + epilogue()
}

/// The output for a source text: its rendered scene, or `None` where it does not parse.
pub open spec fn spec_three(t: Seq<char>) -> Option<Seq<char>> {
    match spec_scene(t, 0) {
        Some((sc, _)) => Some(render_scene(sc)),
        None => None,
    }
}

fn push_args(out: &mut String, args: &Vec<&str>)
    ensures
        final(out)@ == old(out)@ + join_args(texts_view(args@)),
{
    let ghost start = out@;
    let ghost a = texts_view(args@);
    let mut k: usize = 0;
    while k < args.len()
        invariant
            a == texts_view(args@),
            k <= args@.len(),
            out@ == start + join_args(a.subrange(0, k as int)),
        decreases args@.len() - k,
    {
        assert(a.subrange(0, k + 1).drop_last() =~= a.subrange(0, k as int));
        if k > 0 {
            out.append(", ");
        }
        out.append(args[k]);
        assert(out@ =~= start + join_args(a.subrange(0, k + 1)));
        k += 1;
    }
    assert(a.subrange(0, k as int) =~= a);
}

fn push_value(out: &mut String, l: &Literal)
    ensures
        final(out)@ == old(out)@ + render_value(l@),
{
    match l.kind {
        LiteralKind::String => {
            out.append("'");
            out.append(l.value);
            out.append("'");
            assert(out@ =~= old(out)@ + render_value(l@));
        },
        _ => {
            out.append(l.value);
        },
    }
}

fn push_properties(out: &mut String, m: &Material)
    ensures
        final(out)@ == old(out)@ + render_properties(m@.properties),
{
    let ghost start = out@;
    let ghost ps = kvps_view(m.properties@);
    let mut k: usize = 0;
    while k < m.properties.len()
        invariant
            ps == kvps_view(m.properties@),
            k <= m.properties@.len(),
            out@ == start + render_properties(ps.subrange(0, k as int)),
        decreases m.properties@.len() - k,
    {
        assert(ps.subrange(0, k + 1).drop_last() =~= ps.subrange(0, k as int));
        let kv = &m.properties[k];
        out.append(" ");
        out.append(kv.key);
        out.append(": ");
        push_value(out, &kv.value);
        out.append(",");
        assert(out@ =~= start + render_properties(ps.subrange(0, k + 1)));
        k += 1;
    }
    assert(ps.subrange(0, k as int) =~= ps);
}

fn push_setter(out: &mut String, field: &str, v: &Option<Vec3>)
    ensures
        final(out)@ == old(out)@ + render_setter(field@, crate::ast::opt_vec3_view(*v)),
{
    match v {
        Some(v) => {
            out.append("    mesh.");
            out.append(field);
            out.append(".set(");
            out.append(v.x);
            out.append(", ");
            out.append(v.y);
            out.append(", ");
            out.append(v.z);
            out.append(")\n");
            assert(out@ =~= old(out)@ + render_setter(field@, Some(v@)));
        },
        None => {
            assert(out@ =~= old(out)@ + render_setter(field@, None));
        },
    }
}

fn push_geometry_name(out: &mut String, g: &Geometry)
    ensures
        final(out)@ == old(out)@ + geometry_name(g.kind),
{
    match g.kind {
        GeometryKind::Box => out.append("BoxGeometry"),
        GeometryKind::Sphere => out.append("SphereGeometry"),
    }
}

fn push_material_name(out: &mut String, m: &Material)
    ensures
        final(out)@ == old(out)@ + material_name(m.kind),
{
    match m.kind {
        MaterialKind::Basic => out.append("MeshBasicMaterial"),
        MaterialKind::Standard => out.append("MeshStandardMaterial"),
    }
}

fn push_mesh(out: &mut String, m: &Mesh)
    ensures
        final(out)@ == old(out)@ + render_mesh(m@),
{
    let ghost start = out@;
    out.append("    geometry = new THREE.");
    push_geometry_name(out, &m.geometry);
    out.append("(");
    push_args(out, &m.geometry.args);
    out.append(")\n");
    out.append("    material = new THREE.");
    push_material_name(out, &m.material);
    out.append("({");
    push_properties(out, &m.material);
    out.append(" })\n");
    out.append("    mesh = new THREE.Mesh(geometry, material)\n");
    assert(out@ =~= start + render_mesh_head(m@));
    push_setter(out, "position", &m.position);
    push_setter(out, "rotation", &m.rotation);
    out.append("    scene.add(mesh)\n\n");
    assert(out@ =~= start + render_mesh(m@));
}

/// The module text for `scene`.
pub fn generate(scene: &Scene) -> (r: String)
    ensures
        r@ == render_scene(scene@),
{
    let mut out = String::new();
    out.append("import * as THREE from \"three\";\n\nexport default function createScene() {\n    let scene = new THREE.Scene()\n    let geometry, material, mesh\n\n");
    let ghost ms = meshes_view(scene.meshes@);
    let mut k: usize = 0;
    while k < scene.meshes.len()
        invariant
            ms == meshes_view(scene.meshes@),
            k <= scene.meshes@.len(),
            out@ == prologue() + render_meshes(ms.subrange(0, k as int)),
        decreases scene.meshes@.len() - k,
    {
        assert(ms.subrange(0, k + 1).drop_last() =~= ms.subrange(0, k as int));
        push_mesh(&mut out, &scene.meshes[k]);
        assert(out@ =~= prologue() + render_meshes(ms.subrange(0, k + 1)));
        k += 1;
    }
    assert(ms.subrange(0, k as int) =~= ms);
    out.append("    return scene\n}\n");
    out
}

/// Parses `input` as a scene and renders it; a failed parse produces no output.
/// Input after the scene's closing brace is not read.
pub fn three(input: &str) -> (r: Result<String, ParseError>)
    ensures
        match spec_three(input@) {
            Some(out) => r matches Ok(x) && x@ == out,
            None => r is Err,
        },
{
    let n = input.unicode_len();
    let (sc, _) = scene_at(input, n, 0)?;
    Ok(generate(&sc))
}

proof fn lemma_render_meshes_append(a: Seq<MeshModel>, b: Seq<MeshModel>)
    ensures
        render_meshes(a + b) == render_meshes(a) + render_meshes(b),
    decreases b.len(),
{
    if b.len() == 0 {
        assert(a + b =~= a);
        assert(render_meshes(a) + render_meshes(b) =~= render_meshes(a));
    } else {
        assert((a + b).drop_last() =~= a + b.drop_last());
        assert((a + b).last() == b.last());
        lemma_render_meshes_append(a, b.drop_last());
        assert(render_meshes(a + b) =~= render_meshes(a) + render_meshes(b));
    }
}

proof fn lemma_render_properties_append(a: Seq<KvpModel>, b: Seq<KvpModel>)
    ensures
        render_properties(a + b) == render_properties(a) + render_properties(b),
    decreases b.len(),
{
    if b.len() == 0 {
        assert(a + b =~= a);
        assert(render_properties(a) + render_properties(b) =~= render_properties(a));
    } else {
        assert((a + b).drop_last() =~= a + b.drop_last());
        assert((a + b).last() == b.last());
        lemma_render_properties_append(a, b.drop_last());
        assert(render_properties(a + b) =~= render_properties(a) + render_properties(b));
    }
}

/// The `k`-th mesh of a scene gives the `k`-th group of statements: the
/// output for the meshes is that of those before it, then its own group,
/// then that of those after it.
pub proof fn mesh_order(ms: Seq<MeshModel>, k: int)
    requires
        0 <= k < ms.len(),
    ensures
        render_meshes(ms) == render_meshes(ms.take(k)) + render_mesh(ms[k]) + render_meshes(ms.skip(k + 1)),
{
    let one = seq![ms[k]];
    assert(ms =~= ms.take(k) + one + ms.skip(k + 1));
    assert(one.drop_last() =~= Seq::<MeshModel>::empty());
    assert(render_meshes(one.drop_last()) == Seq::<char>::empty());
    assert(one.last() == ms[k]);
    assert(render_meshes(one) =~= render_mesh(ms[k]));
    lemma_render_meshes_append(ms.take(k) + one, ms.skip(k + 1));
    lemma_render_meshes_append(ms.take(k), one);
}

/// The `k`-th property of a material gives the `k`-th entry of its object
/// literal: after the entries of those before it and before those after it.
pub proof fn property_order(ps: Seq<KvpModel>, k: int)
    requires
        0 <= k < ps.len(),
    ensures
        render_properties(ps) == render_properties(ps.take(k)) + render_property(ps[k]) + render_properties(ps.skip(k + 1)),
{
    let one = seq![ps[k]];
    assert(ps =~= ps.take(k) + one + ps.skip(k + 1));
    assert(one.drop_last() =~= Seq::<KvpModel>::empty());
    assert(render_properties(one.drop_last()) == Seq::<char>::empty());
    assert(one.last() == ps[k]);
    assert(render_properties(one) =~= render_property(ps[k]));
    lemma_render_properties_append(ps.take(k) + one, ps.skip(k + 1));
    lemma_render_properties_append(ps.take(k), one);
}

/// A string value is emitted between single quotes with its text unchanged,
/// whichever quotes the source used; a number or boolean is emitted as written.
pub proof fn quoting(l: LiteralModel)
    ensures
        l.kind == LiteralKind::String ==> render_value(l) == "'"@ + l.value + "'"@,
        l.kind != LiteralKind::String ==> render_value(l) == l.value,
{
}

/// A mesh's group holds a position setter only where it has a position, and a
/// rotation setter only where it has a rotation, each independently of the other.
pub proof fn optional_setters(m: MeshModel)
    ensures
        render_mesh(m) == render_mesh_head(m) + render_setter("position"@, m.position)
            + render_setter("rotation"@, m.rotation) + "    scene.add(mesh)\n\n"@,
        m.position is None ==> render_setter("position"@, m.position) == Seq::<char>::empty(),
        m.rotation is None ==> render_setter("rotation"@, m.rotation) == Seq::<char>::empty(),
        m.position matches Some(v) ==> render_setter("position"@, m.position)
            == "    mesh."@ + "position"@ + ".set("@ + v.x + ", "@ + v.y + ", "@ + v.z + ")\n"@,
        m.rotation matches Some(v) ==> render_setter("rotation"@, m.rotation)
            == "    mesh."@ + "rotation"@ + ".set("@ + v.x + ", "@ + v.y + ", "@ + v.z + ")\n"@,
{
}

/// Translating the same source text twice gives the same result: the output
/// is a function of the text alone.
pub proof fn deterministic(t1: Seq<char>, t2: Seq<char>)
    requires
        t1 == t2,
    ensures
        spec_three(t1) == spec_three(t2),
        spec_scene(t1, 0) matches Some((sc, _)) ==> spec_three(t1) == Some(render_scene(sc)),
{
}

} // verus!
