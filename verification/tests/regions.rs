use papirus::app::Mode;
use papirus::geometry::{Position, Rect};
use papirus::regions::{Region, Regions};

#[test]
fn a_rectangle_contains_its_cells_and_no_others() {
    let rect = Rect::new(1, 2, 3, 4);
    assert!(rect.contains(Position { x: 1, y: 2 }));
    assert!(rect.contains(Position { x: 3, y: 2 }));
    assert!(rect.contains(Position { x: 1, y: 5 }));
    assert!(rect.contains(Position { x: 3, y: 5 }));
    assert!(!rect.contains(Position { x: 0, y: 2 }));
    assert!(!rect.contains(Position { x: 4, y: 2 }));
    assert!(!rect.contains(Position { x: 1, y: 1 }));
    assert!(!rect.contains(Position { x: 1, y: 6 }));
    assert!(!rect.contains(Position { x: 0, y: 1 }));
    assert!(!rect.contains(Position { x: 4, y: 6 }));
    assert_eq!(rect.right(), 4);
    assert_eq!(rect.bottom(), 6);
}

#[test]
fn an_empty_rectangle_contains_nothing() {
    let rect = Rect::new(5, 5, 0, 3);
    assert!(!rect.contains(Position::new(5, 5)));
    let rect = Rect::new(5, 5, 3, 0);
    assert!(!rect.contains(Position::new(5, 5)));
}

#[test]
fn the_far_edges_are_held_at_the_largest_coordinate() {
    let rect = Rect::new(u16::MAX - 1, u16::MAX - 1, 10, 10);
    assert_eq!(rect.right(), u16::MAX);
    assert_eq!(rect.bottom(), u16::MAX);
    assert!(rect.contains(Position::new(u16::MAX - 1, u16::MAX - 1)));
    assert!(!rect.contains(Position::new(u16::MAX, u16::MAX - 1)));
    assert!(!rect.contains(Position::new(u16::MAX - 1, u16::MAX)));
}

#[test]
fn a_new_registry_is_empty() {
    let regions = Regions::new();
    assert!(regions.is_empty());
    assert_eq!(regions.len(), 0);
    assert_eq!(regions.hit(Position::new(0, 0)), None);
    assert_eq!(regions.get(Mode::Url), None);
    assert_eq!(regions.entries(), vec![]);
}

#[test]
fn regions_are_kept_in_registration_order() {
    let mut regions = Regions::new();
    regions.insert(Mode::Request, Rect::new(0, 5, 40, 19));
    regions.insert(Mode::Url, Rect::new(0, 2, 80, 3));
    assert_eq!(regions.len(), 2);
    assert!(!regions.is_empty());
    assert_eq!(
        regions.entries(),
        vec![
            Region { mode: Mode::Request, area: Rect::new(0, 5, 40, 19) },
            Region { mode: Mode::Url, area: Rect::new(0, 2, 80, 3) },
        ]
    );
    assert_eq!(regions.get(Mode::Url), Some(Rect::new(0, 2, 80, 3)));
    assert_eq!(regions.get(Mode::Request), Some(Rect::new(0, 5, 40, 19)));
    assert_eq!(regions.get(Mode::Home), None);
}

#[test]
fn registering_a_mode_again_replaces_its_region_in_place() {
    let mut regions = Regions::new();
    regions.insert(Mode::Url, Rect::new(0, 2, 80, 3));
    regions.insert(Mode::Request, Rect::new(0, 5, 40, 19));
    regions.insert(Mode::Url, Rect::new(0, 2, 120, 3));
    assert_eq!(
        regions.entries(),
        vec![
            Region { mode: Mode::Url, area: Rect::new(0, 2, 120, 3) },
            Region { mode: Mode::Request, area: Rect::new(0, 5, 40, 19) },
        ]
    );
    regions.clear();
    assert!(regions.is_empty());
}

#[test]
fn a_click_selects_the_region_that_contains_it() {
    let mut regions = Regions::new();
    regions.insert(Mode::Url, Rect::new(0, 2, 80, 3));
    regions.insert(Mode::Request, Rect::new(0, 5, 40, 19));
    assert_eq!(regions.hit(Position::new(0, 2)), Some(Mode::Url));
    assert_eq!(regions.hit(Position::new(79, 4)), Some(Mode::Url));
    assert_eq!(regions.hit(Position::new(0, 5)), Some(Mode::Request));
    assert_eq!(regions.hit(Position::new(39, 23)), Some(Mode::Request));
    assert_eq!(regions.hit(Position::new(40, 5)), None);
    assert_eq!(regions.hit(Position::new(0, 0)), None);
    assert_eq!(regions.hit(Position::new(80, 3)), None);
    assert_eq!(regions.hit(Position::new(0, 24)), None);
}

#[test]
fn where_regions_overlap_the_first_registered_wins() {
    let mut regions = Regions::new();
    regions.insert(Mode::Request, Rect::new(0, 0, 10, 10));
    regions.insert(Mode::Url, Rect::new(5, 5, 10, 10));
    assert_eq!(regions.hit(Position::new(7, 7)), Some(Mode::Request));
    assert_eq!(regions.hit(Position::new(12, 12)), Some(Mode::Url));

    let mut regions = Regions::new();
    regions.insert(Mode::Url, Rect::new(5, 5, 10, 10));
    regions.insert(Mode::Request, Rect::new(0, 0, 10, 10));
    assert_eq!(regions.hit(Position::new(7, 7)), Some(Mode::Url));
    assert_eq!(regions.hit(Position::new(2, 2)), Some(Mode::Request));
}
