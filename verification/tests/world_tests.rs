use afk_companion_bot::shared::{BlockPos, Vec3};
use afk_companion_bot::world_scan::{find_player, find_stasis, nearest_hostile_index, Scanned};

fn seen(kind: &str, name: Option<&str>, x: f64, y: f64, z: f64) -> Scanned {
    Scanned {
        kind: kind.into(),
        name: name.map(String::from),
        pos: Vec3 { x: x.to_bits(), y: y.to_bits(), z: z.to_bits() },
    }
}

#[test]
fn players_are_found_by_name_ignoring_case() {
    let list = vec![
        seen("zombie", None, 0.0, 0.0, 0.0),
        seen("player", Some("Alex"), 1.0, 2.0, 3.0),
        seen("player", Some("Steve"), 4.0, 5.0, 6.0),
    ];
    assert_eq!(find_player(&list, "steve"), Some(2));
    assert_eq!(find_player(&list, "Carl"), None);
}

#[test]
fn every_held_ender_pearl_is_a_stasis_chamber() {
    let list = vec![
        seen("ender_pearl", Some("Alex"), 10.5, 64.2, -3.5),
        seen("player", Some("Steve"), 0.0, 0.0, 0.0),
        seen("ender_pearl", None, 0.0, 0.0, 0.0),
    ];
    let found = find_stasis(&list);
    assert_eq!(found.len(), 2);
    assert_eq!(found[0].0, BlockPos::new(10, 64, -4));
    assert_eq!(found[0].1.as_deref(), Some("Alex"));
    assert_eq!(found[1].0, BlockPos::new(0, 0, 0));
    assert_eq!(found[1].1, None);
}

#[test]
fn nearest_hostile_in_sight_and_range() {
    let list = vec![
        seen("zombie", None, 0.0, 0.0, 0.0),
        seen("cow", None, 0.0, 0.0, 0.0),
        seen("skeleton", None, 0.0, 0.0, 0.0),
        seen("creeper", None, 0.0, 0.0, 0.0),
        seen("spider", None, 0.0, 0.0, 0.0),
    ];
    let dists: Vec<u64> = [4.0f64, 1.0, 2.5, 2.5, 9.0].iter().map(|d| d.to_bits()).collect();
    // The cow is nearest but not hostile; the skeleton and creeper tie, the first wins.
    assert_eq!(nearest_hostile_index(&list, &dists, &vec![true; 5], 6.5f64.to_bits()), Some(2));
    // Out of sight does not count.
    assert_eq!(nearest_hostile_index(&list, &dists, &vec![true, true, false, true, true], 6.5f64.to_bits()), Some(3));
    // Nothing within range.
    assert_eq!(nearest_hostile_index(&list, &dists, &vec![true; 5], 2.0f64.to_bits()), None);
}
