use screeps_arena::bonus_flag::{BonusFlag, Part};
use screeps_arena::game_object::GameObject;
use screeps_arena::identity::RawIdentity;
use screeps_arena::position::{HasPosition, Located, Position};

fn object_at(name: &str, x: u8, y: u8) -> GameObject {
    GameObject::new(true, RawIdentity::Text(String::from(name)), x, y, None)
}

fn names(found: &[GameObject]) -> Vec<String> {
    found.iter().map(|o| o.id().unwrap()).collect()
}

/// A host that answers a range query by returning every candidate it was sent.
fn echo_all(candidates: &[GameObject]) -> Vec<Option<GameObject>> {
    candidates.iter().cloned().map(Some).collect()
}

#[test]
fn range_query_keeps_only_the_near_candidate() {
    let origin = object_at("origin", 10, 10);
    let candidates = vec![object_at("near", 10, 12), object_at("far", 10, 20)];
    let found = origin.find_in_range(echo_all(&candidates), 5);
    assert_eq!(names(&found), vec![String::from("near")]);
}

#[test]
fn range_query_with_an_exact_host_answer() {
    let origin = object_at("origin", 10, 10);
    let answer = vec![Some(object_at("near", 10, 12))];
    let found = origin.find_in_range(answer, 5);
    assert_eq!(names(&found), vec![String::from("near")]);
}

#[test]
fn range_query_over_no_candidates_is_empty() {
    let origin = object_at("origin", 10, 10);
    for range in [0u8, 1, 5, 255] {
        let found = origin.find_in_range::<GameObject>(echo_all(&[]), range);
        assert!(found.is_empty());
    }
}

#[test]
fn range_query_never_yields_a_far_object() {
    let origin = object_at("origin", 100, 100);
    let answer = vec![
        Some(object_at("edge", 103, 97)),
        Some(object_at("beyond", 104, 100)),
        Some(object_at("corner", 0, 255)),
        Some(object_at("self", 100, 100)),
    ];
    let found = origin.find_in_range(answer, 3);
    assert_eq!(names(&found), vec![String::from("edge"), String::from("self")]);
    for o in &found {
        assert!(origin.get_range_to(&o.pos()) <= 3);
    }
}

#[test]
fn failed_conversion_leaves_the_other_elements() {
    let origin = object_at("origin", 10, 10);
    let answer = vec![Some(object_at("a", 11, 10)), None, Some(object_at("b", 9, 9)), None];
    let found = origin.find_in_range(answer, 2);
    assert_eq!(names(&found), vec![String::from("a"), String::from("b")]);
}

#[test]
fn range_zero_keeps_only_the_same_tile() {
    let origin = object_at("origin", 0, 0);
    let answer = vec![Some(object_at("here", 0, 0)), Some(object_at("next", 1, 0))];
    assert_eq!(names(&origin.find_in_range(answer, 0)), vec![String::from("here")]);
}

#[test]
fn closest_over_no_candidates_is_none() {
    let origin = object_at("origin", 10, 10);
    assert!(origin.find_closest_by_range::<GameObject>(None).is_none());
    assert!(origin.find_closest_by_path::<GameObject>(None).is_none());
}

#[test]
fn closest_none_does_not_tell_why() {
    let origin = object_at("origin", 10, 10);
    let no_result = origin.find_closest_by_range::<GameObject>(None);
    let not_converted = origin.find_closest_by_range::<GameObject>(Some(None));
    assert!(no_result.is_none() && not_converted.is_none());
    let no_path = origin.find_closest_by_path::<GameObject>(None);
    let path_not_converted = origin.find_closest_by_path::<GameObject>(Some(None));
    assert!(no_path.is_none() && path_not_converted.is_none());
}

#[test]
fn closest_returns_the_host_pick() {
    let origin = object_at("origin", 10, 10);
    let by_range = origin.find_closest_by_range(Some(Some(object_at("pick", 12, 12))));
    assert_eq!(by_range.unwrap().id(), Ok(String::from("pick")));
    let by_path = origin.find_closest_by_path(Some(Some(object_at("route", 3, 4))));
    assert_eq!(by_path.unwrap().id(), Ok(String::from("route")));
}

#[test]
fn range_between_tiles_is_the_larger_gap() {
    let a = Position::new(10, 10);
    assert_eq!(a.range_to(&Position::new(13, 8)), 3);
    assert_eq!(a.range_to(&Position::new(10, 10)), 0);
    assert_eq!(Position::new(0, 255).range_to(&Position::new(255, 0)), 255);
    let o = object_at("o", 5, 5);
    assert_eq!(o.get_range_to(&Position::new(1, 7)), 4);
}

#[test]
fn game_object_accessors() {
    let o = GameObject::new(false, RawIdentity::Number(3), 7, 8, Some(40));
    assert!(!o.is_live());
    assert_eq!((o.x(), o.y()), (7, 8));
    assert_eq!(o.ticks_to_decay(), Some(40));
    assert_eq!(o.pos(), Position::new(7, 8));
}

#[test]
fn bonus_flag_in_range_queries() {
    let flag = BonusFlag::new(object_at("flag", 20, 21), None, Part::Heal);
    assert_eq!(flag.pos(), Position::new(20, 21));
    assert_eq!(flag.my(), None);
    assert_eq!(flag.bonus_type(), Part::Heal);
    assert_eq!(flag.object().x(), 20);
    let origin = object_at("origin", 18, 18);
    let answer = vec![
        Some(flag.clone()),
        Some(BonusFlag::new(object_at("far", 40, 40), Some(true), Part::Attack)),
    ];
    let found = origin.find_in_range(answer, 3);
    assert_eq!(found.len(), 1);
    assert_eq!(found[0].object().id(), Ok(String::from("flag")));
}

#[test]
fn located_items_keep_their_payload() {
    let origin = object_at("origin", 50, 50);
    let answer = vec![
        Some(Located { at: Position::new(52, 49), item: "spawn" }),
        None,
        Some(Located { at: Position::new(60, 50), item: "tower" }),
    ];
    let found = origin.find_in_range(answer, 2);
    assert_eq!(found.len(), 1);
    assert_eq!(found[0].item, "spawn");
    assert_eq!(found[0].pos(), Position::new(52, 49));
}

#[test]
fn part_names_from_the_host() {
    assert_eq!(Part::from_name("heal"), Some(Part::Heal));
    assert_eq!(Part::from_name("ranged_attack"), Some(Part::RangedAttack));
    assert_eq!(Part::from_name("work"), Some(Part::Work));
    assert_eq!(Part::from_name("attack"), Some(Part::Attack));
    assert_eq!(Part::from_name("Heal"), None);
    assert_eq!(Part::from_name(""), None);
    assert_eq!(Part::from_name("workers"), None);
}
