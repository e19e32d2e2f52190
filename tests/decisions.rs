use std::cell::RefCell;

use raytracer::integrator::{integrator_step, Step};
use raytracer::material::{scatter_choice, MaterialKind, ScatterChoice};
use raytracer::scene::Scene;
use raytracer::sphere::{choose_root, Root};

const FLAGS: [bool; 2] = [false, true];

#[test]
fn lambertian_always_scatters() {
    for a in FLAGS {
        for b in FLAGS {
            for c in FLAGS {
                assert_eq!(
                    scatter_choice(MaterialKind::Lambertian, a, b, c),
                    ScatterChoice::Diffuse
                );
            }
        }
    }
}

#[test]
fn metal_absorbs_when_ray_would_enter_surface() {
    for b in FLAGS {
        for c in FLAGS {
            assert_eq!(
                scatter_choice(MaterialKind::Metal, false, b, c),
                ScatterChoice::Absorb
            );
            assert_eq!(
                scatter_choice(MaterialKind::Metal, true, b, c),
                ScatterChoice::Reflect
            );
        }
    }
}

#[test]
fn dielectric_reflects_or_refracts_never_absorbs() {
    for a in FLAGS {
        assert_eq!(
            scatter_choice(MaterialKind::Dielectric, a, true, false),
            ScatterChoice::Reflect
        );
        assert_eq!(
            scatter_choice(MaterialKind::Dielectric, a, false, true),
            ScatterChoice::Reflect
        );
        assert_eq!(
            scatter_choice(MaterialKind::Dielectric, a, true, true),
            ScatterChoice::Reflect
        );
        assert_eq!(
            scatter_choice(MaterialKind::Dielectric, a, false, false),
            ScatterChoice::Refract
        );
    }
}

#[test]
fn spent_budget_is_black_without_querying() {
    for depth in [0, -1, i32::MIN] {
        let step = integrator_step(depth, || -> Option<Option<u8>> {
            panic!("the scene must not be queried")
        });
        assert!(matches!(step, Step::Black));
    }
}

#[test]
fn miss_shows_sky() {
    let step = integrator_step(5, || -> Option<Option<u8>> { None });
    assert!(matches!(step, Step::Sky));
}

#[test]
fn absorbed_hit_is_black() {
    let step = integrator_step(5, || -> Option<Option<u8>> { Some(None) });
    assert!(matches!(step, Step::Black));
}

#[test]
fn scattered_hit_bounces_with_one_less_depth() {
    let step = integrator_step(1, || Some(Some("ray")));
    assert!(matches!(step, Step::Bounce { depth: 0, scatter: "ray" }));
    let step = integrator_step(i32::MAX, || Some(Some(7u8)));
    assert!(matches!(step, Step::Bounce { depth: d, scatter: 7 } if d == i32::MAX - 1));
}

#[test]
fn empty_scene_scan_finds_nothing() {
    let s: Scene<f64, ()> = Scene::new();
    let best = s.nearest_hit(|_, _: Option<f64>| Some(1.0));
    assert_eq!(best, None);
}

fn sphere_scene(distances: &[f64]) -> Scene<f64, ()> {
    let mut s = Scene::new();
    let m = s.add_material(());
    for &d in distances {
        s.add(d, m).unwrap();
    }
    s
}

#[test]
fn scan_tests_each_primitive_once_in_order_with_best_so_far() {
    let s = sphere_scene(&[5.0, 3.0, 4.0, 1.0]);
    let calls = RefCell::new(Vec::new());
    let best = s.nearest_hit(|k, best: Option<f64>| {
        calls.borrow_mut().push((k, best));
        let d = *s.primitive(k);
        if d < best.unwrap_or(f64::INFINITY) {
            Some(d)
        } else {
            None
        }
    });
    assert_eq!(best, Some(1.0));
    assert_eq!(
        calls.into_inner(),
        vec![(0, None), (1, Some(5.0)), (2, Some(3.0)), (3, Some(3.0))]
    );
}

#[test]
fn overlapping_spheres_give_the_nearer_hit() {
    for order in [[2.0, 1.5], [1.5, 2.0]] {
        let s = sphere_scene(&order);
        let best = s.nearest_hit(|k, best: Option<f64>| {
            let d = *s.primitive(k);
            if d < best.unwrap_or(f64::INFINITY) {
                Some(d)
            } else {
                None
            }
        });
        assert_eq!(best, Some(1.5));
    }
}

#[test]
fn scan_returns_last_record_returned() {
    let s = sphere_scene(&[1.0, 2.0, 3.0]);
    let best = s.nearest_hit(|k, _: Option<f64>| if k == 1 { Some(20.0) } else { None });
    assert_eq!(best, Some(20.0));
    let none = s.nearest_hit(|_, _: Option<f64>| None);
    assert_eq!(none, None);
}

#[test]
fn no_real_roots_is_a_miss() {
    for a in FLAGS {
        for b in FLAGS {
            assert_eq!(choose_root(false, a, b), None);
        }
    }
}

#[test]
fn nearer_root_in_range_wins() {
    assert_eq!(choose_root(true, true, true), Some(Root::Near));
    assert_eq!(choose_root(true, true, false), Some(Root::Near));
}

#[test]
fn far_root_when_near_is_out_of_range() {
    assert_eq!(choose_root(true, false, true), Some(Root::Far));
}

#[test]
fn both_roots_out_of_range_is_a_miss() {
    assert_eq!(choose_root(true, false, false), None);
}
