use vstd::prelude::*;

use crate::Error;
use crate::edges::{
    is_bottom_client, is_bottom_monitor, is_leftmost_client, is_leftmost_monitor,
    is_rightmost_client, is_rightmost_monitor, is_top_client, is_top_monitor,
    spec_is_bottom_client, spec_is_bottom_monitor, spec_is_leftmost_client,
    spec_is_leftmost_monitor, spec_is_rightmost_client, spec_is_rightmost_monitor,
    spec_is_top_client, spec_is_top_monitor,
};
use crate::geometry::{Client, Monitor};

verus! {

/// A direction of focus movement.
#[derive(Clone, Copy, PartialEq, Eq, Structural, Debug)]
pub enum Direction {
    Left,
    Right,
    Up,
    Down,
}

/// The action a navigation decision settles on; the caller performs it
/// against the window manager.
#[derive(Clone, Copy, PartialEq, Eq, Structural, Debug)]
pub enum Action {
    /// Focus is already at the extreme edge of the whole layout.
    NoOp,
    /// Leave this monitor toward the given direction.
    FocusAdjacentMonitor(Direction),
    /// Move focus to the next window on this monitor in the given direction.
    FocusAdjacentWindow(Direction),
}

/// The three-way classification at the heart of directional navigation:
/// window and monitor both at the edge means nowhere to go, only the window
/// at the edge means leaving the monitor, anything else stays within it.
pub open spec fn spec_decide(d: Direction, client_edge: bool, monitor_edge: bool) -> Action {
    if client_edge && monitor_edge {
        Action::NoOp
    } else if client_edge {
        Action::FocusAdjacentMonitor(d)
    } else {
        Action::FocusAdjacentWindow(d)
    }
}

/// For every combination of the two edge facts, exactly one of the three
/// actions is decided: `NoOp` precisely when both hold, leaving the monitor
/// precisely when only the window is at its edge, and moving within the
/// monitor precisely when the window is not at its edge.
pub proof fn lemma_decision_total(d: Direction, client_edge: bool, monitor_edge: bool)
    ensures
        spec_decide(d, client_edge, monitor_edge) is NoOp <==> (client_edge && monitor_edge),
        spec_decide(d, client_edge, monitor_edge) == Action::FocusAdjacentMonitor(d) <==> (
        client_edge && !monitor_edge),
        spec_decide(d, client_edge, monitor_edge) == Action::FocusAdjacentWindow(d) <==>
            !client_edge,
{
}

/// Turns the two edge facts for a direction into the action to take.
pub fn decide(d: Direction, client_edge: bool, monitor_edge: bool) -> (r: Action)
    ensures
        r == spec_decide(d, client_edge, monitor_edge),
{
    if client_edge && monitor_edge {
        Action::NoOp
    } else if client_edge {
        Action::FocusAdjacentMonitor(d)
    } else {
        Action::FocusAdjacentWindow(d)
    }
}

/// Decides what a leftward focus command should do for the active window
/// `aw` on its monitor `mon`, given all connected monitors and the gap.
pub fn focus_left(aw: &Client, mon: &Monitor, monitors: &Vec<Monitor>, gaps: i32) -> (r: Action)
    requires
        monitors@.len() > 0,
    ensures
        r == spec_decide(
            Direction::Left,
            spec_is_leftmost_client(*aw, *mon, gaps as int),
            spec_is_leftmost_monitor(*mon, monitors@),
        ),
{
    let client_edge = is_leftmost_client(aw, mon, gaps);
    let monitor_edge = is_leftmost_monitor(mon, monitors);
    decide(Direction::Left, client_edge, monitor_edge)
}

/// Decides what a rightward focus command should do.
pub fn focus_right(aw: &Client, mon: &Monitor, monitors: &Vec<Monitor>, gaps: i32) -> (r: Action)
    requires
        monitors@.len() > 0,
    ensures
        r == spec_decide(
            Direction::Right,
            spec_is_rightmost_client(*aw, *mon, gaps as int),
            spec_is_rightmost_monitor(*mon, monitors@),
        ),
{
    let client_edge = is_rightmost_client(aw, mon, gaps);
    let monitor_edge = is_rightmost_monitor(mon, monitors);
    decide(Direction::Right, client_edge, monitor_edge)
}

/// Decides what an upward focus command should do.
pub fn focus_up(aw: &Client, mon: &Monitor, monitors: &Vec<Monitor>, gaps: i32) -> (r: Action)
    requires
        monitors@.len() > 0,
    ensures
        r == spec_decide(
            Direction::Up,
            spec_is_top_client(*aw, *mon, gaps as int),
            spec_is_top_monitor(*mon, monitors@),
        ),
{
    let client_edge = is_top_client(aw, mon, gaps);
    let monitor_edge = is_top_monitor(mon, monitors);
    decide(Direction::Up, client_edge, monitor_edge)
}

/// Decides what a downward focus command should do.
pub fn focus_down(aw: &Client, mon: &Monitor, monitors: &Vec<Monitor>, gaps: i32) -> (r: Action)
    requires
        monitors@.len() > 0,
    ensures
        r == spec_decide(
            Direction::Down,
            spec_is_bottom_client(*aw, *mon, gaps as int),
            spec_is_bottom_monitor(*mon, monitors@),
        ),
{
    let client_edge = is_bottom_client(aw, mon, gaps);
    let monitor_edge = is_bottom_monitor(mon, monitors);
    decide(Direction::Down, client_edge, monitor_edge)
}

/// No monitor in the sequence carries the focused flag.
pub open spec fn spec_no_focused(ms: Seq<Monitor>) -> bool {
    forall|i: int| 0 <= i < ms.len() ==> !(#[trigger] ms[i]).focused
}

/// Position `k` holds the first monitor in the sequence that carries the
/// focused flag.
pub open spec fn spec_is_first_focused(ms: Seq<Monitor>, k: int) -> bool {
    &&& 0 <= k < ms.len()
    &&& ms[k].focused
    &&& forall|j: int| 0 <= j < k ==> !(#[trigger] ms[j]).focused
}

/// Returns the first monitor that the window manager reports as focused, or
/// a fatal error when none is.
pub fn get_current_monitor(monitors: &Vec<Monitor>) -> (r: Result<&Monitor, Error>)
    ensures
        match r {
            Ok(m) => exists|k: int| spec_is_first_focused(monitors@, k) && *m == monitors@[k],
            Err(e) => e == Error::PreconditionViolation && spec_no_focused(monitors@),
        },
{
    let mut i: usize = 0;
    while i < monitors.len()
        invariant
            0 <= i <= monitors@.len(),
            forall|j: int| 0 <= j < i ==> !(#[trigger] monitors@[j]).focused,
        decreases monitors@.len() - i,
    {
        if monitors[i].focused {
            return Ok(&monitors[i]);
        }
        i += 1;
    }
    Err(Error::PreconditionViolation)
}

/// Position `k` holds the first monitor in the sequence whose id is `id`.
pub open spec fn spec_is_first_with_id(ms: Seq<Monitor>, id: i128, k: int) -> bool {
    &&& 0 <= k < ms.len()
    &&& ms[k].id == id
    &&& forall|j: int| 0 <= j < k ==> (#[trigger] ms[j]).id != id
}

/// No monitor in the sequence has the given id.
pub open spec fn spec_no_monitor_with_id(ms: Seq<Monitor>, id: i128) -> bool {
    forall|i: int| 0 <= i < ms.len() ==> (#[trigger] ms[i]).id != id
}

/// Returns the first monitor with the given id, or a fatal error when the
/// window manager reports none with it.
pub fn get_monitor_by_id(monitors: &Vec<Monitor>, id: i128) -> (r: Result<&Monitor, Error>)
    ensures
        match r {
            Ok(m) => exists|k: int| spec_is_first_with_id(monitors@, id, k) && *m == monitors@[k],
            Err(e) => e == Error::PreconditionViolation && spec_no_monitor_with_id(monitors@, id),
        },
{
    let mut i: usize = 0;
    while i < monitors.len()
        invariant
            0 <= i <= monitors@.len(),
            forall|j: int| 0 <= j < i ==> (#[trigger] monitors@[j]).id != id,
        decreases monitors@.len() - i,
    {
        if monitors[i].id == id {
            return Ok(&monitors[i]);
        }
        i += 1;
    }
    Err(Error::PreconditionViolation)
}

/// Position `k` holds the first client owned by monitor `id` whose x
/// coordinate is minimal among that monitor's clients.
pub open spec fn spec_is_first_leftmost_on(cs: Seq<Client>, id: i128, k: int) -> bool {
    &&& 0 <= k < cs.len()
    &&& cs[k].monitor_id == id
    &&& forall|i: int|
        0 <= i < cs.len() && (#[trigger] cs[i]).monitor_id == id ==> cs[k].x <= cs[i].x
    &&& forall|j: int|
        0 <= j < k && (#[trigger] cs[j]).monitor_id == id ==> cs[k].x < cs[j].x
}

/// No client in the sequence is owned by monitor `id`.
pub open spec fn spec_no_client_on(cs: Seq<Client>, id: i128) -> bool {
    forall|i: int| 0 <= i < cs.len() ==> (#[trigger] cs[i]).monitor_id != id
}

/// Among the clients on the monitor with id `mon_id`, returns the first one
/// with the smallest x coordinate, or a fatal error when that monitor has no
/// client at all.
pub fn get_leftmost_client_for_monitor(clients: &Vec<Client>, mon_id: i128) -> (r: Result<
    &Client,
    Error,
>)
    ensures
        match r {
            Ok(c) => exists|k: int| spec_is_first_leftmost_on(clients@, mon_id, k) && *c
                == clients@[k],
            Err(e) => e == Error::PreconditionViolation && spec_no_client_on(clients@, mon_id),
        },
{
    let mut best: Option<usize> = None;
    let mut i: usize = 0;
    while i < clients.len()
        invariant
            0 <= i <= clients@.len(),
            match best {
                Some(b) => {
                    &&& 0 <= b < i
                    &&& clients@[b as int].monitor_id == mon_id
                    &&& forall|j: int|
                        0 <= j < i && (#[trigger] clients@[j]).monitor_id == mon_id ==> clients@[b as int].x <= clients@[j].x
                    &&& forall|j: int|
                        0 <= j < b && (#[trigger] clients@[j]).monitor_id == mon_id ==> clients@[b as int].x < clients@[j].x
                },
                None => forall|j: int| 0 <= j < i ==> (#[trigger] clients@[j]).monitor_id != mon_id,
            },
        decreases clients@.len() - i,
    {
        if clients[i].monitor_id == mon_id {
            match best {
                Some(b) => {
                    if clients[i].x < clients[b].x {
                        best = Some(i);
                    }
                },
                None => {
                    best = Some(i);
                },
            }
        }
        i += 1;
    }
    match best {
        Some(b) => Ok(&clients[b]),
        None => Err(Error::PreconditionViolation),
    }
}


/// The client-edge predicate that belongs to a direction.
pub open spec fn spec_client_edge(d: Direction, c: Client, m: Monitor, gaps: int) -> bool {
    match d {
        Direction::Left => spec_is_leftmost_client(c, m, gaps),
        Direction::Right => spec_is_rightmost_client(c, m, gaps),
        Direction::Up => spec_is_top_client(c, m, gaps),
        Direction::Down => spec_is_bottom_client(c, m, gaps),
    }
}

/// The monitor-edge predicate that belongs to a direction.
pub open spec fn spec_monitor_edge(d: Direction, m: Monitor, ms: Seq<Monitor>) -> bool {
    match d {
        Direction::Left => spec_is_leftmost_monitor(m, ms),
        Direction::Right => spec_is_rightmost_monitor(m, ms),
        Direction::Up => spec_is_top_monitor(m, ms),
        Direction::Down => spec_is_bottom_monitor(m, ms),
    }
}

/// Decides one directional focus command from a full snapshot: the active
/// window if any, all connected monitors, and the gap setting. With no
/// active window the decision is always to leave toward the neighboring
/// monitor, whatever the monitor layout; otherwise the window's own monitor
/// is looked up and the edge predicates for the direction decide.
pub fn navigate(d: Direction, active: Option<&Client>, monitors: &Vec<Monitor>, gaps: i32) -> (r:
    Result<Action, Error>)
    ensures
        match active {
            None => r == Ok::<Action, Error>(Action::FocusAdjacentMonitor(d)),
            Some(aw) => {
                if monitors@.len() == 0 {
                    r == Err::<Action, Error>(Error::ConfigurationError)
                } else {
                    match r {
                        Ok(a) => exists|k: int|
                            spec_is_first_with_id(monitors@, aw.monitor_id, k) && a == spec_decide(
                                d,
                                spec_client_edge(d, *aw, monitors@[k], gaps as int),
                                spec_monitor_edge(d, monitors@[k], monitors@),
                            ),
                        Err(e) => e == Error::PreconditionViolation && spec_no_monitor_with_id(
                            monitors@,
                            aw.monitor_id,
                        ),
                    }
                }
            },
        },
{
    match active {
        None => Ok(Action::FocusAdjacentMonitor(d)),
        Some(aw) => {
            if monitors.len() == 0 {
                return Err(Error::ConfigurationError);
            }
            let mon = match get_monitor_by_id(monitors, aw.monitor_id) {
                Ok(m) => m,
                Err(e) => {
                    return Err(e);
                },
            };
            let a = match d {
                Direction::Left => focus_left(aw, mon, monitors, gaps),
                Direction::Right => focus_right(aw, mon, monitors, gaps),
                Direction::Up => focus_up(aw, mon, monitors, gaps),
                Direction::Down => focus_down(aw, mon, monitors, gaps),
            };
            Ok(a)
        },
    }
}

} // verus!
