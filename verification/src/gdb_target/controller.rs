//! The report of `monitor ctrl`: what the controller readings mean.

use vstd::prelude::*;
use vstd::string::*;

verus! {

/// The connection status of a controller that is not connected (`kV5ControllerOffline`).
pub const CONTROLLER_OFFLINE: u8 = 0;
/// The connection status of a controller on a cable (`kV5ControllerTethered`).
pub const CONTROLLER_TETHERED: u8 = 1;
/// The connection status of a controller connected by radio (`kV5ControllerVexnet`).
pub const CONTROLLER_VEXNET: u8 = 2;

/// The number of buttons the report lists.
pub const CONTROLLER_BUTTON_COUNT: usize = 13;

/// How a controller with a given connection status is reported: by the name of its connection,
/// or not at all when it is offline.
pub open spec fn spec_connection_name(status: u8) -> Option<Seq<char>> {
    if status == CONTROLLER_TETHERED {
        Some("Tethered"@)
    } else if status == CONTROLLER_VEXNET {
        Some("VEXnet"@)
    } else {
        None
    }
}

/// Returns the name of a controller's connection, or `None` when it is offline.
pub fn connection_name(status: u8) -> (r: Option<&'static str>)
    ensures
        match spec_connection_name(status) {
            Some(name) => r matches Some(n) && n@ == name,
            None => r is None,
        },
{
    if status == CONTROLLER_TETHERED {
        Some("Tethered")
    } else if status == CONTROLLER_VEXNET {
        Some("VEXnet")
    } else {
        None
    }
}

/// The name of the `i`-th reported button, in report order.
pub open spec fn spec_button_name(i: int) -> Seq<char> {
    if i == 0 {
        "L1"@
    } else if i == 1 {
        "L2"@
    } else if i == 2 {
        "R1"@
    } else if i == 3 {
        "R2"@
    } else if i == 4 {
        "Up"@
    } else if i == 5 {
        "Down"@
    } else if i == 6 {
        "Left"@
    } else if i == 7 {
        "Right"@
    } else if i == 8 {
        "X"@
    } else if i == 9 {
        "B"@
    } else if i == 10 {
        "Y"@
    } else if i == 11 {
        "A"@
    } else {
        "SEL"@
    }
}

/// Returns the name of the `i`-th reported button.
pub fn button_name(i: usize) -> (r: &'static str)
    requires
        i < CONTROLLER_BUTTON_COUNT,
    ensures
        r@ == spec_button_name(i as int),
{
    match i {
        0 => "L1",
        1 => "L2",
        2 => "R1",
        3 => "R2",
        4 => "Up",
        5 => "Down",
        6 => "Left",
        7 => "Right",
        8 => "X",
        9 => "B",
        10 => "Y",
        11 => "A",
        _ => "SEL",
    }
}

/// The names of the pressed buttons among the first `n`, in report order: a button is pressed
/// when its reading is not zero.
pub open spec fn spec_pressed_names(buttons: Seq<i32>, n: int) -> Seq<Seq<char>>
    decreases n,
{
    if n <= 0 {
        Seq::empty()
    } else if buttons[n - 1] != 0 {
        spec_pressed_names(buttons, n - 1).push(spec_button_name(n - 1))
    } else {
        spec_pressed_names(buttons, n - 1)
    }
}

/// The buttons are reported in a fixed order, by these names: L1, L2, R1, R2, Up, Down, Left,
/// Right, X, B, Y, A, SEL. A cable connection is named `Tethered`, a radio one `VEXnet`, and an
/// offline controller (or any other status) has no name.
pub proof fn lemma_button_and_connection_names(i: int)
    requires
        0 <= i < CONTROLLER_BUTTON_COUNT,
    ensures
        CONTROLLER_BUTTON_COUNT == 13,
        spec_button_name(i) == seq![
            "L1"@, "L2"@, "R1"@, "R2"@, "Up"@, "Down"@, "Left"@, "Right"@, "X"@, "B"@, "Y"@, "A"@, "SEL"@,
        ][i],
        spec_connection_name(1) == Some("Tethered"@),
        spec_connection_name(2) == Some("VEXnet"@),
        spec_connection_name(0) is None,
        forall|status: u8| status != 1 && status != 2 ==> #[trigger] spec_connection_name(status) is None,
{
}

/// With the buttons read up to `n`, the pressed ones among them are listed: when the `i`-th is
/// the only one pressed, the list holds its name alone once `n` has passed it, and is empty before.
proof fn lemma_pressed_prefix_single(buttons: Seq<i32>, i: int, n: int)
    requires
        0 <= i < buttons.len(),
        n <= buttons.len(),
        forall|j: int| 0 <= j < buttons.len() && j != i ==> buttons[j] == 0,
        buttons[i] != 0,
    ensures
        spec_pressed_names(buttons, n) == (if i < n { seq![spec_button_name(i)] } else { Seq::<Seq<char>>::empty() }),
    decreases n,
{
    if n > 0 {
        lemma_pressed_prefix_single(buttons, i, n - 1);
        if i < n - 1 {
            assert(buttons[n - 1] == 0);
        } else if i == n - 1 {
            assert(Seq::<Seq<char>>::empty().push(spec_button_name(i)) =~= seq![spec_button_name(i)]);
        } else {
            assert(buttons[n - 1] == 0);
        }
    }
}

/// A report lists exactly the pressed buttons: with only the `i`-th button pressed, the pressed
/// list is that button's name alone, and with none pressed it is empty.
pub proof fn lemma_single_button_reported(buttons: Seq<i32>, i: int)
    requires
        buttons.len() == CONTROLLER_BUTTON_COUNT,
        0 <= i < CONTROLLER_BUTTON_COUNT,
        forall|j: int| 0 <= j < buttons.len() && j != i ==> buttons[j] == 0,
    ensures
        buttons[i] != 0 ==> spec_pressed_names(buttons, CONTROLLER_BUTTON_COUNT as int) == seq![
            seq!["L1"@, "L2"@, "R1"@, "R2"@, "Up"@, "Down"@, "Left"@, "Right"@, "X"@, "B"@, "Y"@, "A"@, "SEL"@][i],
        ],
        buttons[i] == 0 ==> spec_pressed_names(buttons, CONTROLLER_BUTTON_COUNT as int).len() == 0,
{
    lemma_button_and_connection_names(i);
    if buttons[i] != 0 {
        lemma_pressed_prefix_single(buttons, i, CONTROLLER_BUTTON_COUNT as int);
    } else {
        lemma_no_button_pressed(buttons, CONTROLLER_BUTTON_COUNT as int);
    }
}

/// With no button pressed up to `n`, none is listed.
proof fn lemma_no_button_pressed(buttons: Seq<i32>, n: int)
    requires
        n <= buttons.len(),
        forall|j: int| 0 <= j < n ==> buttons[j] == 0,
    ensures
        spec_pressed_names(buttons, n).len() == 0,
    decreases n,
{
    if n > 0 {
        lemma_no_button_pressed(buttons, n - 1);
    }
}

/// A controller's report.
#[derive(Debug)]
pub enum ControllerReport {
    /// The controller is not connected.
    Offline,
    /// The controller is connected.
    Online {
        /// How it is connected: `Tethered` or `VEXnet`.
        connection: &'static str,
        /// The left stick's X and Y readings.
        left_stick: (i32, i32),
        /// The right stick's X and Y readings.
        right_stick: (i32, i32),
        /// The battery capacity in percent.
        battery: i32,
        /// The names of the pressed buttons, in report order.
        pressed: Vec<&'static str>,
    },
}

/// Reads a controller: `status` is its connection status, `sticks` the left X, left Y, right X
/// and right Y readings, `battery` its battery capacity and `buttons` the readings of the
/// reported buttons in report order (L1, L2, R1, R2, Up, Down, Left, Right, X, B, Y, A, SEL).
pub fn controller_report(status: u8, sticks: [i32; 4], battery: i32, buttons: &[i32]) -> (r: ControllerReport)
    requires
        buttons@.len() == CONTROLLER_BUTTON_COUNT,
    ensures
        match spec_connection_name(status) {
            None => r is Offline,
            Some(name) => r matches ControllerReport::Online { connection, left_stick, right_stick, battery: b, pressed }
                && connection@ == name && left_stick == (sticks[0], sticks[1]) && right_stick == (sticks[2], sticks[3])
                && b == battery && pressed.deep_view() == spec_pressed_names(buttons@, CONTROLLER_BUTTON_COUNT as int),
        },
{
    let connection = match connection_name(status) {
        Some(name) => name,
        None => {
            return ControllerReport::Offline;
        },
    };
    let mut pressed: Vec<&'static str> = Vec::new();
    let mut i: usize = 0;
    while i < CONTROLLER_BUTTON_COUNT
        invariant
            i <= CONTROLLER_BUTTON_COUNT,
            buttons@.len() == CONTROLLER_BUTTON_COUNT,
            pressed.deep_view() == spec_pressed_names(buttons@, i as int),
        decreases CONTROLLER_BUTTON_COUNT - i,
    {
        if buttons[i] != 0 {
            let name = button_name(i);
            let ghost before = pressed.deep_view();
            pressed.push(name);
            assert(pressed.deep_view() =~= before.push(name@));
        }
        i = i + 1;
    }
    ControllerReport::Online {
        connection,
        left_stick: (sticks[0], sticks[1]),
        right_stick: (sticks[2], sticks[3]),
        battery,
        pressed,
    }
}

/// The names joined, each after a space.
pub open spec fn spec_spaced(names: Seq<Seq<char>>) -> Seq<char>
    decreases names.len(),
{
    if names.len() == 0 {
        Seq::empty()
    } else {
        spec_spaced(names.drop_last()) + " "@ + names.last()
    }
}

/// The active-buttons line: each pressed button's name after a space, or ` (none)`.
pub open spec fn spec_buttons_text(names: Seq<Seq<char>>) -> Seq<char> {
    if names.len() == 0 {
        " (none)"@
    } else {
        spec_spaced(names)
    }
}

/// Returns the active-buttons line for the pressed buttons.
pub fn buttons_text(pressed: &Vec<&str>) -> (r: String)
    ensures
        r@ == spec_buttons_text(pressed.deep_view()),
{
    if pressed.len() == 0 {
        return String::from_str(" (none)");
    }
    let mut s = String::new();
    let mut i: usize = 0;
    while i < pressed.len()
        invariant
            i <= pressed@.len(),
            s@ == spec_spaced(pressed.deep_view().take(i as int)),
        decreases pressed@.len() - i,
    {
        proof {
            assert(pressed.deep_view().take(i + 1).drop_last() =~= pressed.deep_view().take(i as int));
        }
        s.append(" ");
        s.append(pressed[i]);
        i = i + 1;
    }
    assert(pressed.deep_view().take(pressed@.len() as int) =~= pressed.deep_view());
    s
}

} // verus!
