use locus::ast::{Geometry, GeometryKind, Kvp, Literal, LiteralKind, Material, MaterialKind, Mesh, Rule, Scene, Vec3};
use locus::lexical::{boolean, identifier, kvp, literal, number, string, vec3};
use locus::structure::{geometry, geometry_kind, material, material_kind, mesh, scene};

#[test]
fn construct_test() {
    assert_eq!(string("'hey'--"), Ok(("--", "hey")));
    assert_eq!(number("23.5e10--"), Ok(("--", "23.5e10")));
    assert_eq!(boolean("true--"), Ok(("--", "true")));
    assert_eq!(identifier("ab123--"), Ok(("--", "ab123")));

    assert_eq!(
        kvp("str: 'hello'--"),
        Ok((
            "--",
            Kvp {
                key: "str",
                value: Literal {
                    kind: LiteralKind::String,
                    value: "hello"
                }
            }
        ))
    );

    assert_eq!(
        vec3("2.5, 3, 10e5--"),
        Ok((
            "--",
            Vec3 {
                x: "2.5",
                y: "3",
                z: "10e5"
            }
        ))
    )
}

#[test]
fn primitive_test() {
    assert_eq!(
        scene("scene {\n\r\tmesh box(1, 1, 0.5) standard(color: 'red', roughness: 0.5) position(1, 1, 2) rot(1.5, 2, 2)\n\r}--"),
        Ok((
            "--",
            Scene {
                meshes: vec![
                    Mesh {
                        geometry: Geometry {
                            kind: GeometryKind::Box,
                            args: vec!["1", "1", "0.5"]
                        },
                        material: Material {
                            kind: MaterialKind::Standard,
                            properties: vec![
                                Kvp {
                                    key: "color",
                                    value: Literal {
                                        kind: LiteralKind::String,
                                        value: "red"
                                    }
                                },
                                Kvp {
                                    key: "roughness",
                                    value: Literal {
                                        kind: LiteralKind::Number,
                                        value: "0.5"
                                    }
                                }
                            ]
                        },
                        position: Some(Vec3 { x: "1", y: "1", z: "2" }),
                        rotation: Some(Vec3 { x: "1.5", y: "2", z: "2" })
                    }
                ]
            }
        ))
    );
}

#[test]
fn string_accepts_double_quotes() {
    assert_eq!(string("\"a b\" x"), Ok((" x", "a b")));
}

#[test]
fn string_unterminated_fails() {
    let e = string("'abc").unwrap_err();
    assert_eq!(e.offset, 0);
    assert_eq!(e.context, vec![Rule::String]);
}

#[test]
fn number_forms() {
    assert_eq!(number("42"), Ok(("", "42")));
    assert_eq!(number("1.5E3,"), Ok((",", "1.5E3")));
    assert_eq!(number("1."), Ok((".", "1")));
    assert_eq!(number("2e"), Ok(("e", "2")));
    assert!(number(".5").is_err());
}

#[test]
fn boolean_false_and_failure() {
    assert_eq!(boolean("false)"), Ok((")", "false")));
    assert!(boolean("yes").is_err());
}

#[test]
fn identifier_forms() {
    assert_eq!(identifier("_a1_b: 1"), Ok((": 1", "_a1_b")));
    assert!(identifier("1abc").is_err());
}

#[test]
fn literal_classification_order() {
    assert_eq!(literal("'12'"), Ok(("", Literal { kind: LiteralKind::String, value: "12" })));
    assert_eq!(literal("12"), Ok(("", Literal { kind: LiteralKind::Number, value: "12" })));
    assert_eq!(literal("true"), Ok(("", Literal { kind: LiteralKind::Boolean, value: "true" })));
    let e = literal("nope").unwrap_err();
    assert_eq!(e.context, vec![Rule::Boolean, Rule::Literal]);
}

#[test]
fn kvp_missing_colon_fails() {
    let e = kvp("a 1").unwrap_err();
    assert_eq!(e.offset, 2);
    assert_eq!(e.context, vec![Rule::Kvp]);
}

#[test]
fn vec3_missing_component_fails() {
    assert!(vec3("1, 2").is_err());
}

#[test]
fn kinds() {
    assert_eq!(geometry_kind("sphere("), Ok(("(", GeometryKind::Sphere)));
    assert_eq!(material_kind("basic("), Ok(("(", MaterialKind::Basic)));
    assert!(geometry_kind("cube").is_err());
    assert!(material_kind("phong").is_err());
}

#[test]
fn geometry_empty_and_spaced_lists() {
    assert_eq!(geometry("sphere()"), Ok(("", Geometry { kind: GeometryKind::Sphere, args: vec![] })));
    assert_eq!(
        geometry("box(1 ,2,  3)"),
        Ok(("", Geometry { kind: GeometryKind::Box, args: vec!["1", "2", "3"] }))
    );
    assert!(geometry("box(1, )").is_err());
    assert!(geometry("box (1)").is_err());
}

#[test]
fn material_lists() {
    assert_eq!(material("standard()"), Ok(("", Material { kind: MaterialKind::Standard, properties: vec![] })));
    assert_eq!(
        material("basic(a: 1, b: \"x\", c: false)"),
        Ok((
            "",
            Material {
                kind: MaterialKind::Basic,
                properties: vec![
                    Kvp { key: "a", value: Literal { kind: LiteralKind::Number, value: "1" } },
                    Kvp { key: "b", value: Literal { kind: LiteralKind::String, value: "x" } },
                    Kvp { key: "c", value: Literal { kind: LiteralKind::Boolean, value: "false" } },
                ]
            }
        ))
    );
}

#[test]
fn mesh_fields_in_any_order() {
    let a = mesh("mesh box(1,1,1) basic(color:'red') position(0,0,0)").unwrap();
    let b = mesh("mesh position(0,0,0) basic(color:'red') box(1,1,1)").unwrap();
    assert_eq!(a.0, "");
    assert_eq!(b.0, "");
    assert_eq!(a.1, b.1);
}

#[test]
fn mesh_rotation_before_position() {
    let (rest, m) = mesh("mesh rot(1,2,3) box(1) pos(4,5,6) basic()").unwrap();
    assert_eq!(rest, "");
    assert_eq!(m.position, Some(Vec3 { x: "4", y: "5", z: "6" }));
    assert_eq!(m.rotation, Some(Vec3 { x: "1", y: "2", z: "3" }));
}

#[test]
fn mesh_arity_not_checked() {
    let (rest, m) = mesh("mesh box(1) basic(foo:'bar')").unwrap();
    assert_eq!(rest, "");
    assert_eq!(m.geometry, Geometry { kind: GeometryKind::Box, args: vec!["1"] });
    assert_eq!(
        m.material.properties,
        vec![Kvp { key: "foo", value: Literal { kind: LiteralKind::String, value: "bar" } }]
    );
}

#[test]
fn mesh_missing_material_fails() {
    let e = mesh("mesh box(1)").unwrap_err();
    assert_eq!(e.context, vec![Rule::Material, Rule::Mesh]);
}

#[test]
fn mesh_duplicate_field_stops_there() {
    let (rest, _) = mesh("mesh box(1) basic() box(2)").unwrap();
    assert_eq!(rest, "box(2)");
    assert!(scene("scene { mesh box(1) basic() box(2) }").is_err());
}

#[test]
fn scene_empty() {
    assert_eq!(scene("scene {}"), Ok(("", Scene { meshes: vec![] })));
}

#[test]
fn scene_unclosed_fails() {
    assert!(scene("scene { mesh box(1) basic()").is_err());
    assert!(scene("scen {}").is_err());
}
