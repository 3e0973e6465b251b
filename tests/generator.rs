use locus::three::{generate, three};
use locus::structure::scene;

const HEAD: &str = "import * as THREE from \"three\";\n\nexport default function createScene() {\n    let scene = new THREE.Scene()\n    let geometry, material, mesh\n\n";
const TAIL: &str = "    return scene\n}\n";

#[test]
fn three_test() {
    let input = "scene {\n\r\tmesh box(1, 1, 0.5) basic(color: 'red') position(0, 0, 0)\n\tmesh box(1, 1, 1) basic(color: 'blue') position(1, 0, 0)\n\r}";
    let output = three(input);

    let expected = format!(
        "{}{}{}",
        HEAD,
        "    geometry = new THREE.BoxGeometry(1, 1, 0.5)\n    material = new THREE.MeshBasicMaterial({ color: 'red', })\n    mesh = new THREE.Mesh(geometry, material)\n    mesh.position.set(0, 0, 0)\n    scene.add(mesh)\n\n    geometry = new THREE.BoxGeometry(1, 1, 1)\n    material = new THREE.MeshBasicMaterial({ color: 'blue', })\n    mesh = new THREE.Mesh(geometry, material)\n    mesh.position.set(1, 0, 0)\n    scene.add(mesh)\n\n",
        TAIL
    );

    assert_eq!(output.unwrap(), expected);
}

#[test]
fn single_mesh_scenario() {
    let out = three("scene {\n mesh box(1, 1, 0.5) basic(color: 'red') position(0, 0, 0)\n}").unwrap();
    let expected = format!(
        "{}{}{}",
        HEAD,
        "    geometry = new THREE.BoxGeometry(1, 1, 0.5)\n    material = new THREE.MeshBasicMaterial({ color: 'red', })\n    mesh = new THREE.Mesh(geometry, material)\n    mesh.position.set(0, 0, 0)\n    scene.add(mesh)\n\n",
        TAIL
    );
    assert_eq!(out, expected);
}

#[test]
fn empty_scene_output() {
    assert_eq!(three("scene {}").unwrap(), format!("{}{}", HEAD, TAIL));
}

#[test]
fn failed_parse_gives_no_output() {
    assert!(three("scene { mesh box(1) }").is_err());
    assert!(three("").is_err());
}

#[test]
fn same_input_same_output() {
    let input = "scene { mesh sphere(2) standard(a: 1) rot(0, 1, 0) }";
    assert_eq!(three(input), three(input));
}

#[test]
fn meshes_keep_their_order() {
    let out = three("scene { mesh sphere(2) basic() mesh box(3) basic() }").unwrap();
    let s = out.find("SphereGeometry(2)").unwrap();
    let b = out.find("BoxGeometry(3)").unwrap();
    assert!(s < b);
}

#[test]
fn properties_keep_order_and_quoting() {
    let out = three("scene { mesh box() standard(b: \"x y\", a: 0.5E2, c: true) }").unwrap();
    assert!(out.contains("    material = new THREE.MeshStandardMaterial({ b: 'x y', a: 0.5E2, c: true, })\n"));
}

#[test]
fn optional_setters_only_when_present() {
    let none = three("scene { mesh box(1) basic() }").unwrap();
    assert!(!none.contains(".set("));
    let rot = three("scene { mesh rotation(1, 2, 3) box(1) basic() }").unwrap();
    assert!(rot.contains("    mesh = new THREE.Mesh(geometry, material)\n    mesh.rotation.set(1, 2, 3)\n    scene.add(mesh)\n"));
    assert!(!rot.contains("position"));
    let both = three("scene { mesh rot(4,5,6) box(1) basic() pos(1,2,3) }").unwrap();
    assert!(both.contains("    mesh.position.set(1, 2, 3)\n    mesh.rotation.set(4, 5, 6)\n"));
}

#[test]
fn generate_from_parsed_scene() {
    let (_, sc) = scene("scene { mesh sphere() basic() }").unwrap();
    let out = generate(&sc);
    assert_eq!(
        out,
        format!(
            "{}{}{}",
            HEAD,
            "    geometry = new THREE.SphereGeometry()\n    material = new THREE.MeshBasicMaterial({ })\n    mesh = new THREE.Mesh(geometry, material)\n    scene.add(mesh)\n\n",
            TAIL
        )
    );
}
