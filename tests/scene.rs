use raytracer::ray::Ray;
use raytracer::scene::{Scene, SceneError};

#[test]
fn ray_new_keeps_origin_and_direction() {
    let r = Ray::new((1, 2, 3), (-4, 5, -6));
    assert_eq!(r.orig, (1, 2, 3));
    assert_eq!(r.dir, (-4, 5, -6));
}

#[test]
fn new_scene_is_empty() {
    let s: Scene<&str, &str> = Scene::new();
    assert_eq!(s.len(), 0);
    assert!(s.primitives().is_empty());
}

#[test]
fn materials_are_shared_by_index() {
    let mut s: Scene<&str, &str> = Scene::new();
    let glass = s.add_material("glass");
    let matte = s.add_material("matte");
    assert_eq!((glass, matte), (0, 1));
    assert_eq!(s.add("ball", glass), Ok(0));
    assert_eq!(s.add("ground", matte), Ok(1));
    assert_eq!(s.add("marble", glass), Ok(2));
    assert_eq!(s.len(), 3);
    assert_eq!(s.primitives(), &vec!["ball", "ground", "marble"]);
    assert_eq!(*s.primitive(1), "ground");
    assert_eq!(s.material_of(0), glass);
    assert_eq!(s.material_of(2), glass);
    assert_eq!(*s.material(s.material_of(1)), "matte");
}

#[test]
fn unknown_material_is_refused() {
    let mut s: Scene<&str, &str> = Scene::new();
    assert_eq!(s.add("ball", 0), Err(SceneError::UnknownMaterial));
    let only = s.add_material("metal");
    assert_eq!(s.add("ball", only + 1), Err(SceneError::UnknownMaterial));
    assert_eq!(s.len(), 0);
    assert_eq!(s.add("ball", only), Ok(0));
    assert_eq!(s.len(), 1);
}
