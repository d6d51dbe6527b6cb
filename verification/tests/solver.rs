use papirus::layout::{Constraint, Direction};
use ratatui::layout::{Constraint as Wish, Direction as Axis, Layout, Rect};

/// The parts that the solver gives, as (start, size) along the axis.
fn parts(direction: Direction, constraints: &[Constraint], area: Rect) -> Vec<(u32, u32)> {
    let wishes: Vec<Wish> = constraints
        .iter()
        .map(|c| match *c {
            Constraint::Length(n) => Wish::Length(n),
            Constraint::Percentage(n) => Wish::Percentage(n),
            Constraint::Min(n) => Wish::Min(n),
        })
        .collect();
    let axis = match direction {
        Direction::Vertical => Axis::Vertical,
        Direction::Horizontal => Axis::Horizontal,
    };
    Layout::new(axis, wishes)
        .split(area)
        .iter()
        .map(|r| match direction {
            Direction::Vertical => (u32::from(r.y), u32::from(r.height)),
            Direction::Horizontal => (u32::from(r.x), u32::from(r.width)),
        })
        .collect()
}

fn start_and_room(direction: Direction, area: Rect) -> (u32, u32) {
    match direction {
        Direction::Vertical => (u32::from(area.y), u32::from(area.bottom() - area.y)),
        Direction::Horizontal => (u32::from(area.x), u32::from(area.right() - area.x)),
    }
}

fn lengths(constraints: &[Constraint]) -> u32 {
    constraints
        .iter()
        .map(|c| match *c {
            Constraint::Length(n) => u32::from(n),
            _ => 0,
        })
        .sum()
}

fn is_plain(constraints: &[Constraint]) -> bool {
    constraints.iter().all(|c| !matches!(c, Constraint::Min(n) if *n > 0))
}

fn has_one_filler(constraints: &[Constraint]) -> bool {
    let others = constraints.iter().filter(|c| !matches!(c, Constraint::Length(_))).count();
    others == 1
        && constraints.iter().all(|c| match *c {
            Constraint::Length(_) => true,
            Constraint::Percentage(p) => p >= 100,
            Constraint::Min(n) => n == 0,
        })
}

fn all_shares(constraints: &[Constraint]) -> Option<Vec<u32>> {
    constraints
        .iter()
        .map(|c| match *c {
            Constraint::Percentage(p) => Some(u32::from(p)),
            _ => None,
        })
        .collect()
}

/// Holds the solver to everything that the library takes from it.
fn check(direction: Direction, constraints: &[Constraint], area: Rect) {
    let parts = parts(direction, constraints, area);
    let (start, room) = start_and_room(direction, area);
    let told = format!("{direction:?} {constraints:?} in {area:?}: {parts:?}");
    assert_eq!(parts.len(), constraints.len(), "{told}");
    for (at, size) in &parts {
        assert!(start <= *at && at + size <= start + room, "{told}");
    }
    let fit = lengths(constraints) <= room;
    if is_plain(constraints) {
        if let Some(first) = parts.first() {
            assert_eq!(first.0, start, "{told}");
        }
        for pair in parts.windows(2) {
            assert_eq!(pair[1].0, pair[0].0 + pair[0].1, "{told}");
        }
        if fit {
            for (c, part) in constraints.iter().zip(&parts) {
                if let Constraint::Length(n) = c {
                    assert_eq!(part.1, u32::from(*n), "{told}");
                }
            }
        }
    }
    if has_one_filler(constraints) && fit {
        let last = parts.last().unwrap();
        assert_eq!(last.0 + last.1, start + room, "{told}");
    }
    if let Some(shares) = all_shares(constraints) {
        if shares.iter().sum::<u32>() <= 100 {
            let mut sum = 0;
            for (share, part) in shares.iter().zip(&parts) {
                sum += share;
                assert_eq!(part.0 + part.1, start + (room * sum + 50) / 100, "{told}");
            }
        }
    }
}

fn areas() -> Vec<Rect> {
    vec![
        Rect { x: 0, y: 0, width: 80, height: 24 },
        Rect { x: 0, y: 0, width: 0, height: 0 },
        Rect { x: 0, y: 0, width: 1, height: 1 },
        Rect { x: 3, y: 7, width: 2, height: 3 },
        Rect { x: 3, y: 7, width: 5, height: 4 },
        Rect { x: 0, y: 5, width: 81, height: 5 },
        Rect { x: 1, y: 1, width: 33, height: 6 },
        Rect { x: 0, y: 0, width: 7, height: 101 },
        Rect { x: 9, y: 0, width: 200, height: 9 },
        Rect { x: u16::MAX - 20, y: u16::MAX - 9, width: 30, height: 30 },
    ]
}

fn wishes() -> Vec<Constraint> {
    vec![
        Constraint::Length(0),
        Constraint::Length(1),
        Constraint::Length(2),
        Constraint::Length(3),
        Constraint::Length(30),
        Constraint::Percentage(0),
        Constraint::Percentage(20),
        Constraint::Percentage(33),
        Constraint::Percentage(50),
        Constraint::Percentage(100),
        Constraint::Percentage(250),
        Constraint::Min(0),
    ]
}

fn hold_pairs(direction: Direction) {
    let wishes = wishes();
    for area in areas() {
        check(direction, &[], area);
        for a in &wishes {
            check(direction, &[*a], area);
            for b in &wishes {
                check(direction, &[*a, *b], area);
            }
        }
    }
}

fn hold_threes(direction: Direction, area: Rect) {
    let wishes = wishes();
    for a in &wishes {
        for b in &wishes {
            for c in &wishes {
                check(direction, &[*a, *b, *c], area);
            }
        }
    }
}

#[test]
fn the_solver_keeps_to_what_is_taken_from_it_for_up_to_two_rows() {
    hold_pairs(Direction::Vertical);
}

#[test]
fn the_solver_keeps_to_what_is_taken_from_it_for_up_to_two_columns() {
    hold_pairs(Direction::Horizontal);
}

#[test]
fn the_solver_keeps_to_what_is_taken_from_it_for_three_rows_of_a_screen() {
    hold_threes(Direction::Vertical, Rect { x: 0, y: 0, width: 80, height: 24 });
}

#[test]
fn the_solver_keeps_to_what_is_taken_from_it_for_three_rows_of_a_small_area() {
    hold_threes(Direction::Vertical, Rect { x: 3, y: 7, width: 5, height: 4 });
}

#[test]
fn the_solver_keeps_to_what_is_taken_from_it_for_three_columns_of_a_screen() {
    hold_threes(Direction::Horizontal, Rect { x: 0, y: 0, width: 81, height: 24 });
}

#[test]
fn the_solver_keeps_to_what_is_taken_from_it_for_three_columns_at_the_edge() {
    hold_threes(Direction::Horizontal, Rect { x: u16::MAX - 20, y: 0, width: 30, height: 3 });
}

#[test]
fn the_solver_keeps_to_what_is_taken_from_it_for_many_parts() {
    let lists: Vec<Vec<Constraint>> = vec![
        vec![Constraint::Length(1); 12],
        vec![Constraint::Percentage(10); 10],
        vec![Constraint::Percentage(7); 14],
        [vec![Constraint::Length(2); 6], vec![Constraint::Min(0)], vec![Constraint::Length(1); 5]].concat(),
        [vec![Constraint::Length(3); 4], vec![Constraint::Percentage(100)]].concat(),
        [vec![Constraint::Percentage(100)], vec![Constraint::Length(3); 9]].concat(),
        vec![
            Constraint::Length(2),
            Constraint::Percentage(40),
            Constraint::Min(0),
            Constraint::Percentage(40),
            Constraint::Length(5),
            Constraint::Min(0),
        ],
    ];
    for area in areas() {
        for direction in [Direction::Vertical, Direction::Horizontal] {
            for list in &lists {
                check(direction, list, area);
            }
        }
    }
}
