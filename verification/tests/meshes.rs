use slugs::mesh::{shield_mesh_indices, terrain_mesh_indices, SHIELD_MESH_SEGMENTS};
use slugs::terrain::{displacement_schedule, Midpoint};
use slugs::world::TERRAIN_SEGMENTS;

#[test]
fn shield_indices_shape() {
    let idx = shield_mesh_indices();
    assert_eq!(SHIELD_MESH_SEGMENTS, 32);
    assert_eq!(idx.len(), 6 * 32);
    assert_eq!(&idx[0..6], &[0, 1, 2, 1, 3, 2]);
    assert_eq!(&idx[6..12], &[2, 3, 4, 3, 5, 4]);
    assert_eq!(&idx[186..192], &[62, 63, 64, 63, 65, 64]);
    assert!(idx.iter().all(|&i| i < 2 * 32 + 2));
}

#[test]
fn terrain_indices_shape() {
    let idx = terrain_mesh_indices();
    assert_eq!(idx.len(), 6 * TERRAIN_SEGMENTS);
    assert_eq!(&idx[0..6], &[0, 1, 2, 0, 2, 3]);
    assert_eq!(&idx[6..12], &[4, 5, 6, 4, 6, 7]);
    let last = 6 * (TERRAIN_SEGMENTS - 1);
    assert_eq!(&idx[last..last + 6], &[1532, 1533, 1534, 1532, 1534, 1535]);
    assert!(idx.iter().all(|&i| (i as usize) < 4 * TERRAIN_SEGMENTS));
}

#[test]
fn displacement_fills_every_inner_height_once() {
    let s = displacement_schedule(0, TERRAIN_SEGMENTS);
    assert_eq!(s.len(), TERRAIN_SEGMENTS - 1);
    assert_eq!(s[0], Midpoint { left: 0, mid: 192, right: 384, depth: 0 });
    assert_eq!(s[1], Midpoint { left: 0, mid: 96, right: 192, depth: 1 });
    let mut known = vec![false; TERRAIN_SEGMENTS + 1];
    known[0] = true;
    known[TERRAIN_SEGMENTS] = true;
    for step in &s {
        assert!(known[step.left] && known[step.right]);
        assert!(!known[step.mid]);
        assert_eq!(step.mid, (step.left + step.right) / 2);
        known[step.mid] = true;
    }
    assert!(known.iter().all(|&k| k));
}

#[test]
fn displacement_small_intervals() {
    assert!(displacement_schedule(3, 3).is_empty());
    assert!(displacement_schedule(3, 4).is_empty());
    assert_eq!(displacement_schedule(3, 5), vec![Midpoint { left: 3, mid: 4, right: 5, depth: 0 }]);
    let s = displacement_schedule(0, 4);
    assert_eq!(
        s,
        vec![
            Midpoint { left: 0, mid: 2, right: 4, depth: 0 },
            Midpoint { left: 0, mid: 1, right: 2, depth: 1 },
            Midpoint { left: 2, mid: 3, right: 4, depth: 1 },
        ]
    );
}
