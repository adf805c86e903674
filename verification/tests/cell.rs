use worm::cell::{Cell, Direction, Point};

#[test]
fn default_point() {
    assert_eq!(Point::default(), Point::new(0, 0));
    assert_eq!(Point::default(), (0, 0).into());
}

#[test]
fn point_into_pair() {
    let p: (u8, u8) = Point::default().into();
    assert_eq!(p, (0, 0));

    let p: (u8, u8) = Point::new(100, 34).into();
    assert_eq!(p, (100, 34));

    let p: (u8, u8) = Point::new(34, 45).into();
    assert_eq!(p, (34, 45));
}

#[test]
fn test_point_step_to() {
    let mut p = Point::default();

    p.step_to(&Direction::Up);
    assert_eq!(p, (0, 1).into());

    p.step_to(&Direction::Down);
    assert_eq!(p, (0, 0).into());

    p.step_to(&Direction::Right);
    assert_eq!(p, (1, 0).into());

    p.step_to(&Direction::Left);
    assert_eq!(p, (0, 0).into());

    p.step_to(&Direction::Left);
    assert_eq!(p, (255, 0).into());

    p.step_to(&Direction::Down);
    assert_eq!(p, (255, 255).into());

    p.step_to(&Direction::Up);
    assert_eq!(p, (255, 0).into());

    p.step_to(&Direction::Right);
    assert_eq!(p, (0, 0).into());
}

#[test]
fn default_direction() {
    assert_eq!(Direction::default(), Direction::Up);
}

#[test]
fn default_cell() {
    let c = Cell::default();
    let Cell(p, d) = c;
    assert_eq!(p, Point::default());
    assert_eq!(d, Direction::Up)
}

#[test]
fn test_cell_is_near() {
    let c1 = Cell::new(Point::new(128, 128), Direction::Up);

    let c2 = Cell::new(Point::new(129, 127), Direction::Up);
    assert!(!c1.is_next_to(&c2));

    let c2 = Cell::new(Point::new(129, 128), Direction::Up);
    assert!(c1.is_next_to(&c2));

    let c2 = Cell::new(Point::new(129, 129), Direction::Up);
    assert!(!c1.is_next_to(&c2));

    let c2 = Cell::new(Point::new(128, 127), Direction::Up);
    assert!(c1.is_next_to(&c2));

    let c2 = Cell::new(Point::new(128, 128), Direction::Up);
    assert!(!c1.is_next_to(&c2));

    let c2 = Cell::new(Point::new(128, 129), Direction::Up);
    assert!(c1.is_next_to(&c2));

    let c2 = Cell::new(Point::new(127, 129), Direction::Up);
    assert!(!c1.is_next_to(&c2));

    let c2 = Cell::new(Point::new(127, 128), Direction::Up);
    assert!(c1.is_next_to(&c2));

    let c2 = Cell::new(Point::new(127, 127), Direction::Up);
    assert!(!c1.is_next_to(&c2));

    let c2 = Cell::new(Point::new(126, 127), Direction::Up);
    assert!(!c1.is_next_to(&c2));

    let c2 = Cell::new(Point::new(126, 128), Direction::Up);
    assert!(!c1.is_next_to(&c2));

    let c2 = Cell::new(Point::new(130, 129), Direction::Up);
    assert!(!c1.is_next_to(&c2));

    let c2 = Cell::new(Point::new(129, 128), Direction::Down);
    assert!(c1.is_next_to(&c2));

    let c2 = Cell::new(Point::new(129, 128), Direction::Left);
    assert!(c1.is_next_to(&c2));

    let c2 = Cell::new(Point::new(129, 128), Direction::Right);
    assert!(c1.is_next_to(&c2));
}

#[test]
fn test_cell_is_near_on_the_edge() {
    let c1 = Cell::new(Point::new(0, 0), Direction::Up);
    let c2 = Cell::new(Point::new(255, 255), Direction::Up);
    assert!(!c1.is_next_to(&c2));

    let c2 = Cell::new(Point::new(255, 0), Direction::Up);
    assert!(c1.is_next_to(&c2));

    let c2 = Cell::new(Point::new(255, 1), Direction::Up);
    assert!(!c1.is_next_to(&c2));

    let c2 = Cell::new(Point::new(0, 255), Direction::Up);
    assert!(c1.is_next_to(&c2));

    let c2 = Cell::new(Point::new(0, 0), Direction::Up);
    assert!(!c1.is_next_to(&c2));

    let c2 = Cell::new(Point::new(0, 1), Direction::Up);
    assert!(c1.is_next_to(&c2));

    let c1 = Cell::new(Point::new(255, 255), Direction::Up);
    let c2 = Cell::new(Point::new(0, 0), Direction::Up);
    assert!(!c1.is_next_to(&c2));

    let c2 = Cell::new(Point::new(0, 255), Direction::Up);
    assert!(c1.is_next_to(&c2));

    let c2 = Cell::new(Point::new(0, 254), Direction::Up);
    assert!(!c1.is_next_to(&c2));

    let c2 = Cell::new(Point::new(255, 0), Direction::Up);
    assert!(c1.is_next_to(&c2));

    let c2 = Cell::new(Point::new(255, 255), Direction::Up);
    assert!(!c1.is_next_to(&c2));

    let c2 = Cell::new(Point::new(255, 254), Direction::Up);
    assert!(c1.is_next_to(&c2));
}

#[test]
fn test_is_linked() {
    let c1 = Cell::new(Point::new(128, 128), Direction::Up);

    let c2 = Cell::new(Point::new(129, 127), Direction::Up);
    assert!(!c1.is_linked(&c2));

    let c2 = Cell::new(Point::new(129, 128), Direction::Up);
    assert!(c1.is_linked(&c2));

    let c2 = Cell::new(Point::new(129, 128), Direction::Down);
    assert!(!c1.is_linked(&c2));
}

#[test]
fn direction_from_byte_cycles_through_the_four_variants() {
    assert_eq!(Direction::from_byte(0), Direction::Up);
    assert_eq!(Direction::from_byte(1), Direction::Right);
    assert_eq!(Direction::from_byte(2), Direction::Down);
    assert_eq!(Direction::from_byte(3), Direction::Left);
    assert_eq!(Direction::from_byte(4), Direction::Up);
    assert_eq!(Direction::from_byte(255), Direction::Left);
}

#[test]
fn cell_accessors_and_transitions() {
    let mut c = Cell::new(Point::new(7, 9), Direction::Right);
    assert_eq!(*c.point(), Point::new(7, 9));
    assert_eq!(c.direction(), Direction::Right);

    c.turn(&Direction::Down);
    assert_eq!(*c.point(), Point::new(7, 9));
    assert_eq!(c.direction(), Direction::Down);

    c.step();
    assert_eq!(*c.point(), Point::new(7, 8));
    assert_eq!(c.direction(), Direction::Down);
}

#[test]
fn cell_is_next_position_only_directly_ahead() {
    let c = Cell::new(Point::new(5, 5), Direction::Up);
    assert!(c.is_next_position(&Point::new(5, 6)));
    assert!(!c.is_next_position(&Point::new(5, 4)));
    assert!(!c.is_next_position(&Point::new(4, 5)));
    assert!(!c.is_next_position(&Point::new(6, 5)));
    assert!(!c.is_next_position(&Point::new(6, 6)));
    assert!(!c.is_next_position(&Point::new(5, 5)));
}
