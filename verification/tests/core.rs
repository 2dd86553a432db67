use hyprsome::geometry::{Client, Frac, Monitor, Transform};
use hyprsome::navigate::{
    decide, focus_left, get_current_monitor, get_leftmost_client_for_monitor, get_monitor_by_id,
    navigate, Action, Direction,
};
use hyprsome::edges::{
    is_bottom_client, is_bottom_monitor, is_leftmost_client, is_leftmost_monitor,
    is_rightmost_client, is_rightmost_monitor, is_top_client, is_top_monitor,
};
use hyprsome::Error;

fn mon(id: i128, name: &str, x: i32, y: i32, focused: bool) -> Monitor {
    Monitor {
        id,
        name: name.to_string(),
        x,
        y,
        width: 1920,
        height: 1080,
        scale_num: 1,
        scale_den: 1,
        transform: Transform::Normal,
        reserved_top: 0,
        reserved_bottom: 0,
        reserved_left: 0,
        reserved_right: 0,
        focused,
    }
}

fn client(x: i32, y: i32, width: i32, height: i32, monitor_id: i128) -> Client {
    Client {
        x,
        y,
        width,
        height,
        monitor_id,
    }
}

#[test]
fn effective_dimensions_non_rotating() {
    for t in [
        Transform::Normal,
        Transform::Normal180,
        Transform::Flipped,
        Transform::Flipped180,
    ] {
        let mut m = mon(0, "DP-1", 0, 0, true);
        m.width = 1920;
        m.height = 1080;
        m.scale_num = 3;
        m.scale_den = 2;
        m.transform = t;
        // effective width = 1920 / (3/2) = 1920 * 2 / 3
        assert_eq!(m.real_width(), Frac { num: 3840, den: 3 });
        assert_eq!(m.real_height(), Frac { num: 2160, den: 3 });
    }
}

#[test]
fn effective_dimensions_rotating_swap() {
    for t in [
        Transform::Normal90,
        Transform::Normal270,
        Transform::Flipped90,
        Transform::Flipped270,
    ] {
        let mut m = mon(0, "DP-1", 0, 0, true);
        m.width = 1920;
        m.height = 1080;
        m.scale_num = 3;
        m.scale_den = 2;
        m.transform = t;
        assert_eq!(m.real_width(), Frac { num: 2160, den: 3 });
        assert_eq!(m.real_height(), Frac { num: 3840, den: 3 });
    }
}

#[test]
fn leftmost_client_boundary_is_exact() {
    let m = mon(0, "DP-1", 0, 0, true);
    let at_edge = client(10, 50, 500, 500, 0);
    let one_off = client(11, 50, 500, 500, 0);
    assert!(is_leftmost_client(&at_edge, &m, 10));
    assert!(!is_leftmost_client(&one_off, &m, 10));
}

#[test]
fn rightmost_client_with_scale() {
    // 1920 pixels at scale 2 leave an effective width of 960.
    let mut m = mon(0, "DP-1", 0, 0, true);
    m.scale_num = 2;
    m.scale_den = 1;
    // 960 + 0 - 10 == width + x
    let at_edge = client(450, 50, 500, 500, 0);
    let one_off = client(451, 50, 500, 500, 0);
    assert!(is_rightmost_client(&at_edge, &m, 10));
    assert!(!is_rightmost_client(&one_off, &m, 10));
}

#[test]
fn top_client_respects_reserved_margin() {
    let mut m = mon(0, "DP-1", 0, 0, true);
    m.reserved_top = 30;
    let at_edge = client(100, 40, 500, 500, 0);
    let one_off = client(100, 41, 500, 500, 0);
    assert!(is_top_client(&at_edge, &m, 10));
    assert!(!is_top_client(&one_off, &m, 10));
}

#[test]
fn bottom_client_compares_against_gap() {
    // Effective height 1080; the bottom test is 1080 + y - gap - reserved ==
    // height + gap, independent of the client's y coordinate.
    let mut m = mon(0, "DP-1", 0, 0, true);
    m.reserved_bottom = 20;
    let at_edge = client(100, 700, 500, 1040, 0);
    let one_off = client(100, 700, 500, 1041, 0);
    assert!(is_bottom_client(&at_edge, &m, 10));
    assert!(!is_bottom_client(&one_off, &m, 10));
}

#[test]
fn monitor_edges_two_side_by_side() {
    let a = mon(0, "DP-1", 0, 0, true);
    let b = mon(1, "DP-2", 1920, 0, false);
    let ms = vec![mon(0, "DP-1", 0, 0, true), mon(1, "DP-2", 1920, 0, false)];
    assert!(is_leftmost_monitor(&a, &ms));
    assert!(!is_leftmost_monitor(&b, &ms));
    assert!(is_rightmost_monitor(&b, &ms));
    assert!(!is_rightmost_monitor(&a, &ms));
    // Both sit at the same y, so both are top and bottom at once.
    assert!(is_top_monitor(&a, &ms) && is_top_monitor(&b, &ms));
    assert!(is_bottom_monitor(&a, &ms) && is_bottom_monitor(&b, &ms));
}

#[test]
fn decision_table_is_total() {
    let d = Direction::Right;
    assert_eq!(decide(d, true, true), Action::NoOp);
    assert_eq!(decide(d, true, false), Action::FocusAdjacentMonitor(d));
    assert_eq!(decide(d, false, true), Action::FocusAdjacentWindow(d));
    assert_eq!(decide(d, false, false), Action::FocusAdjacentWindow(d));
}

#[test]
fn no_active_client_always_leaves_monitor() {
    let ms = vec![mon(0, "DP-1", 0, 0, true), mon(1, "DP-2", 1920, 0, false)];
    let empty: Vec<Monitor> = Vec::new();
    for d in [
        Direction::Left,
        Direction::Right,
        Direction::Up,
        Direction::Down,
    ] {
        assert_eq!(navigate(d, None, &ms, 10), Ok(Action::FocusAdjacentMonitor(d)));
        assert_eq!(
            navigate(d, None, &empty, 10),
            Ok(Action::FocusAdjacentMonitor(d))
        );
    }
}

#[test]
fn left_at_layout_edge_is_noop() {
    // One client at x=10 with gap 10 on the monitor at x=0; that monitor is
    // the leftmost of the two.
    let ms = vec![mon(0, "DP-1", 0, 0, true), mon(1, "DP-2", 1920, 0, false)];
    let c = client(10, 50, 500, 500, 0);
    assert_eq!(navigate(Direction::Left, Some(&c), &ms, 10), Ok(Action::NoOp));
}

#[test]
fn left_inside_monitor_moves_window_focus() {
    let ms = vec![mon(0, "DP-1", 0, 0, true), mon(1, "DP-2", 1920, 0, false)];
    let c = client(500, 50, 500, 500, 0);
    assert_eq!(
        navigate(Direction::Left, Some(&c), &ms, 10),
        Ok(Action::FocusAdjacentWindow(Direction::Left))
    );
}

#[test]
fn left_edge_of_second_monitor_crosses_over() {
    let ms = vec![mon(0, "DP-1", 0, 0, false), mon(1, "DP-2", 1920, 0, true)];
    let second = mon(1, "DP-2", 1920, 0, true);
    let c = client(1930, 50, 500, 500, 1);
    assert!(is_leftmost_client(&c, &second, 10));
    assert!(!is_leftmost_monitor(&second, &ms));
    assert_eq!(
        navigate(Direction::Left, Some(&c), &ms, 10),
        Ok(Action::FocusAdjacentMonitor(Direction::Left))
    );
}

#[test]
fn focus_functions_match_navigate() {
    let ms = vec![mon(0, "DP-1", 0, 0, true), mon(1, "DP-2", 1920, 0, false)];
    let c = client(10, 50, 500, 500, 0);
    let m = mon(0, "DP-1", 0, 0, true);
    assert_eq!(focus_left(&c, &m, &ms, 10), Action::NoOp);
    assert_eq!(
        hyprsome::navigate::focus_right(&c, &m, &ms, 10),
        Action::FocusAdjacentWindow(Direction::Right)
    );
    assert_eq!(
        hyprsome::navigate::focus_up(&c, &m, &ms, 10),
        Action::FocusAdjacentWindow(Direction::Up)
    );
    assert_eq!(
        hyprsome::navigate::focus_down(&c, &m, &ms, 10),
        Action::FocusAdjacentWindow(Direction::Down)
    );
}

#[test]
fn navigate_with_empty_monitor_list_is_configuration_error() {
    let empty: Vec<Monitor> = Vec::new();
    let c = client(10, 50, 500, 500, 0);
    assert_eq!(
        navigate(Direction::Left, Some(&c), &empty, 10),
        Err(Error::ConfigurationError)
    );
}

#[test]
fn navigate_with_unknown_monitor_id_fails() {
    let ms = vec![mon(0, "DP-1", 0, 0, true)];
    let c = client(10, 50, 500, 500, 7);
    assert_eq!(
        navigate(Direction::Left, Some(&c), &ms, 10),
        Err(Error::PreconditionViolation)
    );
}

#[test]
fn current_monitor_is_first_focused() {
    let ms = vec![mon(0, "DP-1", 0, 0, false), mon(1, "DP-2", 1920, 0, true)];
    let m = get_current_monitor(&ms).unwrap();
    assert_eq!(m.id, 1);
    let unfocused = vec![mon(0, "DP-1", 0, 0, false)];
    assert_eq!(
        get_current_monitor(&unfocused).err(),
        Some(Error::PreconditionViolation)
    );
}

#[test]
fn monitor_lookup_by_id() {
    let ms = vec![mon(5, "DP-1", 0, 0, true), mon(9, "DP-2", 1920, 0, false)];
    assert_eq!(get_monitor_by_id(&ms, 9).unwrap().name, "DP-2");
    assert_eq!(
        get_monitor_by_id(&ms, 3).err(),
        Some(Error::PreconditionViolation)
    );
}

#[test]
fn leftmost_client_picks_first_minimum() {
    let cs = vec![
        client(700, 0, 100, 100, 0),
        client(300, 0, 100, 100, 1),
        client(200, 10, 100, 100, 0),
        client(200, 99, 100, 100, 0),
    ];
    let c = get_leftmost_client_for_monitor(&cs, 0).unwrap();
    assert_eq!((c.x, c.y), (200, 10));
    assert_eq!(
        get_leftmost_client_for_monitor(&cs, 4).err(),
        Some(Error::PreconditionViolation)
    );
}

#[test]
fn monitors_sharing_an_extreme_are_all_at_the_edge() {
    // Two monitors stacked at the same x: both count as leftmost and
    // rightmost, with no tie-break by name or index.
    let a = mon(0, "DP-1", 0, 0, true);
    let b = mon(1, "DP-2", 0, 1080, false);
    let ms = vec![mon(0, "DP-1", 0, 0, true), mon(1, "DP-2", 0, 1080, false)];
    assert!(is_leftmost_monitor(&a, &ms) && is_leftmost_monitor(&b, &ms));
    assert!(is_rightmost_monitor(&a, &ms) && is_rightmost_monitor(&b, &ms));
    assert!(is_top_monitor(&a, &ms) && !is_top_monitor(&b, &ms));
    assert!(is_bottom_monitor(&b, &ms) && !is_bottom_monitor(&a, &ms));
}

#[test]
fn single_monitor_is_every_edge() {
    let a = mon(0, "DP-1", 0, 0, true);
    let ms = vec![mon(0, "DP-1", 0, 0, true)];
    assert!(is_leftmost_monitor(&a, &ms));
    assert!(is_rightmost_monitor(&a, &ms));
    assert!(is_top_monitor(&a, &ms));
    assert!(is_bottom_monitor(&a, &ms));
}
