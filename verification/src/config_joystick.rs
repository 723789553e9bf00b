//! What the controls of a joystick are bound to.

use crate::config_command::Command;
use std::collections::HashMap;
use vstd::prelude::*;
use vstd::std_specs::iter::IteratorSpec;

verus! {

broadcast use vstd::std_specs::hash::group_hash_axioms;

/// The commands of the eight directions of a hat.
#[derive(Debug, Clone, Copy, PartialEq, Eq, Structural)]
pub struct HatConfig {
    pub up: Command,
    pub down: Command,
    pub left: Command,
    pub right: Command,
    pub left_up: Command,
    pub right_up: Command,
    pub left_down: Command,
    pub right_down: Command,
}

impl Default for HatConfig {
    fn default() -> (r: Self)
        ensures
            r == (HatConfig {
                up: Command::Unset,
                down: Command::Unset,
                left: Command::Unset,
                right: Command::Unset,
                left_up: Command::Unset,
                right_up: Command::Unset,
                left_down: Command::Unset,
                right_down: Command::Unset,
            }),
    {
        HatConfig {
            up: Command::Unset,
            down: Command::Unset,
            left: Command::Unset,
            right: Command::Unset,
            left_up: Command::Unset,
            right_up: Command::Unset,
            left_down: Command::Unset,
            right_down: Command::Unset,
        }
    }
}

/// How far an axis must move, by default, before it counts.
pub const DEFAULT_SENSIBILITY: usize = 20000;

/// The commands of the two directions of an axis, and how far the axis must
/// move before it counts.
#[derive(Debug, Clone, Copy, PartialEq, Eq, Structural)]
pub struct Axis {
    pub negative: Command,
    pub positive: Command,
    pub sensibility: usize,
}

impl Axis {
    pub fn new(negative: Command, positive: Command, sensibility: usize) -> (r: Self)
        ensures
            r == (Axis { negative, positive, sensibility }),
    {
        Self { negative, positive, sensibility }
    }

    /// An axis that is bound to nothing and has no threshold.
    pub open spec fn spec_is_unset(&self) -> bool {
        self.negative == Command::Unset && self.positive == Command::Unset && self.sensibility
            == 0
    }

    /// Whether the axis is bound to nothing and has no threshold.
    #[verifier::when_used_as_spec(spec_is_unset)]
    pub fn is_unset(&self) -> (r: bool)
        ensures
            r == self.spec_is_unset(),
    {
        self.negative.is_none() && self.positive.is_none() && self.sensibility == 0
    }
}

impl Default for Axis {
    fn default() -> (r: Self)
        ensures
            r == (Axis {
                negative: Command::Unset,
                positive: Command::Unset,
                sensibility: DEFAULT_SENSIBILITY,
            }),
    {
        Self {
            negative: Command::Unset,
            positive: Command::Unset,
            sensibility: DEFAULT_SENSIBILITY,
        }
    }
}

/// No button is bound to a command.
pub open spec fn buttons_unset(buttons: Map<u8, Command>) -> bool {
    forall|k: u8| buttons.contains_key(k) ==> buttons[k] == Command::Unset
}

/// No axis is bound to a command or has a threshold.
pub open spec fn axes_unset(axes: Map<u8, Axis>) -> bool {
    forall|k: u8| axes.contains_key(k) ==> axes[k].spec_is_unset()
}

/// Whether no button is bound to a command.
pub fn buttons_empty(buttons: &HashMap<u8, Command>) -> (r: bool)
    ensures
        r == buttons_unset(buttons@),
{
    let ghost all = buttons.iter().remaining();
    let ghost mut seen: int = 0;
    for entry in it: buttons.iter()
        invariant
            it.seq() == all,
            seen == it.index(),
            forall|i: int| 0 <= i < seen ==> *(#[trigger] all[i]).1 == Command::Unset,
    {
        if !entry.1.is_none() {
            assert(buttons@.contains_key(*entry.0) && buttons@[*entry.0] == *entry.1);
            return false;
        }
        proof {
            seen = seen + 1;
        }
    }
    assert forall|k: u8| buttons@.contains_key(k) implies buttons@[k] == Command::Unset by {
        let pair = (&k, &buttons@[k]);
        assert(all.contains(pair));
        let i = choose|i: int| 0 <= i < all.len() && all[i] == pair;
        assert(*all[i].1 == Command::Unset);
    }
    true
}

/// Whether no axis is bound to a command or has a threshold.
pub fn axes_empty(axes: &HashMap<u8, Axis>) -> (r: bool)
    ensures
        r == axes_unset(axes@),
{
    let ghost all = axes.iter().remaining();
    let ghost mut seen: int = 0;
    for entry in it: axes.iter()
        invariant
            it.seq() == all,
            seen == it.index(),
            forall|i: int| 0 <= i < seen ==> (#[trigger] all[i]).1.spec_is_unset(),
    {
        if !entry.1.is_unset() {
            assert(axes@.contains_key(*entry.0) && axes@[*entry.0] == *entry.1);
            return false;
        }
        proof {
            seen = seen + 1;
        }
    }
    assert forall|k: u8| axes@.contains_key(k) implies axes@[k].spec_is_unset() by {
        let pair = (&k, &axes@[k]);
        assert(all.contains(pair));
        let i = choose|i: int| 0 <= i < all.len() && all[i] == pair;
        assert(all[i].1.spec_is_unset());
    }
    true
}

/// The bindings of one joystick: buttons and axes by their number, and the
/// hats, if the joystick has any, by theirs.
#[derive(Debug, Clone)]
pub struct JoystickConfig {
    pub buttons: HashMap<u8, Command>,
    pub axes: HashMap<u8, Axis>,
    pub hats: Option<HashMap<u32, HatConfig>>,
}

/// Mathematical model of a [`JoystickConfig`].
pub struct JoystickView {
    pub buttons: Map<u8, Command>,
    pub axes: Map<u8, Axis>,
    pub hats: Option<Map<u32, HatConfig>>,
}

impl View for JoystickConfig {
    type V = JoystickView;

    open spec fn view(&self) -> JoystickView {
        JoystickView {
            buttons: self.buttons@,
            axes: self.axes@,
            hats: match self.hats {
                Some(hats) => Some(hats@),
                None => None,
            },
        }
    }
}

/// The bindings of a joystick of which nothing is bound yet.
pub open spec fn no_bindings() -> JoystickView {
    JoystickView { buttons: Map::empty(), axes: Map::empty(), hats: None }
}

impl Default for JoystickConfig {
    fn default() -> (r: Self)
        ensures
            r@ == no_bindings(),
    {
        Self { buttons: HashMap::new(), axes: HashMap::new(), hats: None }
    }
}

impl JoystickConfig {
    /// Nothing of the joystick is bound: no hats, no button, no axis.
    pub open spec fn spec_is_unset(&self) -> bool {
        self.hats is None && buttons_unset(self.buttons@) && axes_unset(self.axes@)
    }

    /// Whether nothing of the joystick is bound. Such a joystick is left out
    /// when the configuration is written.
    #[verifier::when_used_as_spec(spec_is_unset)]
    pub fn is_unset(&self) -> (r: bool)
        ensures
            r == self.spec_is_unset(),
    {
        !(self.hats.is_some() || !buttons_empty(&self.buttons) || !axes_empty(&self.axes))
    }
}

/// Whether no joystick of the list has anything bound. The list pairs each
/// joystick's identifier with its bindings.
pub fn joysticks_empty(joystick: &Vec<(String, JoystickConfig)>) -> (r: bool)
    ensures
        r == forall|i: int| 0 <= i < joystick@.len() ==> (#[trigger] joystick@[i]).1.spec_is_unset(),
{
    let mut i: usize = 0;
    while i < joystick.len()
        invariant
            i <= joystick@.len(),
            forall|j: int| 0 <= j < i ==> (#[trigger] joystick@[j]).1.spec_is_unset(),
        decreases joystick@.len() - i,
    {
        if !joystick[i].1.is_unset() {
            return false;
        }
        i += 1;
    }
    true
}

} // verus!
