//! What the player asks for, once the keys have been resolved.

use crate::util::vec_extension::{Vec2, UNITS_PER_TILE};
use vstd::prelude::*;

verus! {

/// An action that a key combination stands for.
#[non_exhaustive]
#[derive(Debug, Hash, PartialEq, Eq, Copy, Clone, Structural)]
pub enum ActionCode {
    CameraUp,
    CameraDown,
    CameraLeft,
    CameraRight,
    TurnLeft,
    TurnRight,
    Shoot,
    FlipDebugHitboxes,
    Click,
}

/// Whether `code` is among the actions that are held.
pub fn is_held(held: &Vec<ActionCode>, code: ActionCode) -> (r: bool)
    ensures
        r == held@.contains(code),
{
    let mut i: usize = 0;
    while i < held.len()
        invariant
            i <= held@.len(),
            forall|j: int| 0 <= j < i ==> held@[j] != code,
        decreases held@.len() - i,
    {
        if held[i] == code {
            return true;
        }
        i = i + 1;
    }
    false
}

/// One tile along an axis for the action that moves the camera forward
/// along it, one tile back for the action that moves it backward, and no
/// movement where both or neither are held.
pub open spec fn axis_shift(held: Seq<ActionCode>, back: ActionCode, forward: ActionCode) -> int {
    (if held.contains(forward) {
        UNITS_PER_TILE as int
    } else {
        0
    }) - (if held.contains(back) {
        UNITS_PER_TILE as int
    } else {
        0
    })
}

/// How far the camera moves in one tick while the actions in `held` are
/// held: one tile per tick along each axis, up being the direction of
/// falling second coordinates.
pub fn camera_shift(held: &Vec<ActionCode>) -> (r: Vec2)
    ensures
        r.x == axis_shift(held@, ActionCode::CameraLeft, ActionCode::CameraRight),
        r.y == axis_shift(held@, ActionCode::CameraUp, ActionCode::CameraDown),
{
    let mut shift = Vec2 { x: 0, y: 0 };
    if is_held(held, ActionCode::CameraUp) {
        shift.y = shift.y - UNITS_PER_TILE;
    }
    if is_held(held, ActionCode::CameraDown) {
        shift.y = shift.y + UNITS_PER_TILE;
    }
    if is_held(held, ActionCode::CameraLeft) {
        shift.x = shift.x - UNITS_PER_TILE;
    }
    if is_held(held, ActionCode::CameraRight) {
        shift.x = shift.x + UNITS_PER_TILE;
    }
    shift
}

/// The modifier bits: Shift, Control, Alt and the logo key.
pub const MOD_NONE: u8 = 0;

pub const MOD_SHIFT: u8 = 1;

pub const MOD_CTRL: u8 = 2;

pub const MOD_ALT: u8 = 4;

pub const MOD_LOGO: u8 = 8;

/// A button of the mouse or a key of the keyboard, by its number.
#[derive(Debug, Clone, Copy, Hash, PartialEq, Eq, Structural)]
pub enum Button {
    Mouse(u32),
    Keyboard(u32),
    Nothing,
}

/// A set of modifiers, as bits, together with a button.
#[derive(Debug, Clone, Copy, Hash, PartialEq, Eq, Structural)]
pub struct KeyCombo(pub u8, pub Button);

/// The actions that a combination stands for.
#[derive(Debug)]
pub struct Binding {
    pub combo: KeyCombo,
    pub actions: Vec<ActionCode>,
}

/// The combinations that stand for actions, in the order in which they are
/// looked at.
#[derive(Debug)]
pub struct ComboToAction(pub Vec<Binding>);

/// Whether all the modifiers in `want` are among those in `have`.
pub open spec fn has_mods(have: u8, want: u8) -> bool {
    have & want == want
}

/// The position of the first binding of `combo` at or after `from`; the
/// number of bindings if there is none.
pub open spec fn first_binding(bindings: Seq<Binding>, combo: KeyCombo, from: int) -> int
    decreases bindings.len() - from,
{
    if from < 0 || from >= bindings.len() {
        bindings.len() as int
    } else if bindings[from].combo == combo {
        from
    } else {
        first_binding(bindings, combo, from + 1)
    }
}

impl ComboToAction {
    /// The actions of the first binding of `kc`, if it has one.
    pub fn resolve_key_combo(&self, kc: &KeyCombo) -> (r: Option<&Vec<ActionCode>>)
        ensures
            match r {
                Some(actions) => {
                    &&& first_binding(self.0@, *kc, 0) < self.0@.len()
                    &&& *actions == self.0@[first_binding(self.0@, *kc, 0)].actions
                },
                None => first_binding(self.0@, *kc, 0) == self.0@.len(),
            },
    {
        let mut i: usize = 0;
        while i < self.0.len()
            invariant
                i <= self.0@.len(),
                first_binding(self.0@, *kc, 0) == first_binding(self.0@, *kc, i as int),
            decreases self.0@.len() - i,
        {
            if self.0[i].combo == *kc {
                return Some(&self.0[i].actions);
            }
            i = i + 1;
        }
        None
    }
}

/// What the resolution of the combinations works on: the actions that are
/// held, and the modifiers that a combination has taken and that stay
/// blocked until they are released.
pub struct Resolution {
    pub held: Set<ActionCode>,
    pub blocked: u8,
}

/// Whether a combination has been let go: its button is up and its modifiers
/// are not all blocked. No modifiers are always all blocked, so a
/// combination without modifiers is never let go.
pub open spec fn combo_released(pressed: Set<Button>, blocked: u8, combo: KeyCombo) -> bool {
    !pressed.contains(combo.1) && !has_mods(blocked, combo.0)
}

/// Whether a combination is down: its button and all its modifiers are.
pub open spec fn combo_down(pressed: Set<Button>, pressed_mods: u8, combo: KeyCombo) -> bool {
    pressed.contains(combo.1) && has_mods(pressed_mods, combo.0)
}

/// The resolution after one binding has been looked at: the actions of a
/// combination that has been let go are no longer held; those of one that is
/// down are held, and its modifiers are blocked.
pub open spec fn resolve_one(
    pressed: Set<Button>,
    pressed_mods: u8,
    state: Resolution,
    binding: Binding,
) -> Resolution {
    if combo_released(pressed, state.blocked, binding.combo) {
        Resolution { held: state.held.difference(binding.actions@.to_set()), blocked: state.blocked }
    } else if combo_down(pressed, pressed_mods, binding.combo) {
        Resolution {
            held: state.held.union(binding.actions@.to_set()),
            blocked: state.blocked | binding.combo.0,
        }
    } else {
        state
    }
}

/// The resolution after all of `bindings` have been looked at, in order.
pub open spec fn resolve_all(
    pressed: Set<Button>,
    pressed_mods: u8,
    state: Resolution,
    bindings: Seq<Binding>,
) -> Resolution
    decreases bindings.len(),
{
    if bindings.len() == 0 {
        state
    } else {
        resolve_one(
            pressed,
            pressed_mods,
            resolve_all(pressed, pressed_mods, state, bindings.drop_last()),
            bindings.last(),
        )
    }
}

/// Whether `button` is among `buttons`.
fn has_button(buttons: &Vec<Button>, button: Button) -> (r: bool)
    ensures
        r == buttons@.contains(button),
{
    let mut i: usize = 0;
    while i < buttons.len()
        invariant
            i <= buttons@.len(),
            forall|j: int| 0 <= j < i ==> buttons@[j] != button,
        decreases buttons@.len() - i,
    {
        if buttons[i] == button {
            return true;
        }
        i = i + 1;
    }
    false
}

/// Takes every occurrence of `button` out of `buttons`.
fn drop_button(buttons: &mut Vec<Button>, button: Button)
    ensures
        final(buttons)@.to_set() == old(buttons)@.to_set().remove(button),
{
    let mut kept: Vec<Button> = Vec::new();
    let mut i: usize = 0;
    while i < buttons.len()
        invariant
            i <= buttons@.len(),
            buttons@ == old(buttons)@,
            forall|b: Button|
                kept@.contains(b) <==> b != button && buttons@.take(i as int).contains(b),
        decreases buttons@.len() - i,
    {
        let b = buttons[i];
        let ghost before = kept@;
        if b != button {
            kept.push(b);
        }
        proof {
            assert(buttons@.take(i + 1) =~= buttons@.take(i as int).push(b));
            assert forall|x: Button|
                kept@.contains(x) <==> x != button && buttons@.take(i + 1).contains(x) by {
                lemma_push_contains(buttons@.take(i as int), b, x);
                lemma_push_contains(before, b, x);
            }
        }
        i = i + 1;
    }
    proof {
        assert(buttons@.take(buttons@.len() as int) =~= buttons@);
        assert(kept@.to_set() =~= old(buttons)@.to_set().remove(button));
    }
    *buttons = kept;
}

/// Takes every occurrence of `action` out of `held`.
fn drop_action(held: &mut Vec<ActionCode>, action: ActionCode)
    ensures
        final(held)@.to_set() == old(held)@.to_set().remove(action),
{
    let mut kept: Vec<ActionCode> = Vec::new();
    let mut i: usize = 0;
    while i < held.len()
        invariant
            i <= held@.len(),
            held@ == old(held)@,
            forall|a: ActionCode|
                kept@.contains(a) <==> a != action && held@.take(i as int).contains(a),
        decreases held@.len() - i,
    {
        let a = held[i];
        let ghost before = kept@;
        if a != action {
            kept.push(a);
        }
        proof {
            assert(held@.take(i + 1) =~= held@.take(i as int).push(a));
            assert forall|x: ActionCode|
                kept@.contains(x) <==> x != action && held@.take(i + 1).contains(x) by {
                lemma_push_contains(held@.take(i as int), a, x);
                lemma_push_contains(before, a, x);
            }
        }
        i = i + 1;
    }
    proof {
        assert(held@.take(held@.len() as int) =~= held@);
        assert(kept@.to_set() =~= old(held)@.to_set().remove(action));
    }
    *held = kept;
}

/// A sequence with one more element at its end contains that element and
/// what it contained before.
proof fn lemma_push_contains<T>(s: Seq<T>, last: T, x: T)
    ensures
        s.push(last).contains(x) <==> x == last || s.contains(x),
{
    if s.contains(x) {
        let j = choose|j: int| 0 <= j < s.len() && s[j] == x;
        assert(s.push(last)[j] == x);
    }
    if x == last {
        assert(s.push(last)[s.len() as int] == x);
    }
}

/// The keys and buttons that are down, and the actions that follow from them.
#[derive(Debug)]
pub struct KeyInputState {
    pressed_buttons: Vec<Button>,
    pressed_mods: u8,
    blocked_mods: u8,
    key_combos: ComboToAction,
    held_actions: Vec<ActionCode>,
}

impl KeyInputState {
    /// The buttons that are down.
    pub closed spec fn pressed(&self) -> Set<Button> {
        self.pressed_buttons@.to_set()
    }

    /// The modifiers that are down, as bits.
    pub closed spec fn mods(&self) -> u8 {
        self.pressed_mods
    }

    /// The modifiers that a combination has taken, as bits.
    pub closed spec fn blocked(&self) -> u8 {
        self.blocked_mods
    }

    /// The bindings, in the order in which they are looked at.
    pub closed spec fn bindings(&self) -> Seq<Binding> {
        self.key_combos.0@
    }

    /// The actions that are held.
    pub closed spec fn held(&self) -> Set<ActionCode> {
        self.held_actions@.to_set()
    }

    /// A state with these bindings in which nothing is down and no action is
    /// held.
    pub fn new(key_combos: ComboToAction) -> (r: Self)
        ensures
            r.pressed() == Set::<Button>::empty(),
            r.mods() == 0,
            r.blocked() == 0,
            r.bindings() == key_combos.0@,
            r.held() == Set::<ActionCode>::empty(),
    {
        let r = KeyInputState {
            pressed_buttons: Vec::new(),
            pressed_mods: 0,
            blocked_mods: 0,
            key_combos,
            held_actions: Vec::new(),
        };
        proof {
            assert(r.pressed_buttons@.to_set() =~= Set::<Button>::empty());
            assert(r.held_actions@.to_set() =~= Set::<ActionCode>::empty());
        }
        r
    }

    /// The actions that are held, in no particular order.
    pub fn held_actions(&self) -> (r: &Vec<ActionCode>)
        ensures
            r@.to_set() == self.held(),
    {
        &self.held_actions
    }

    /// Whether `button` is down.
    pub fn is_pressed(&self, button: Button) -> (r: bool)
        ensures
            r == self.pressed().contains(button),
    {
        has_button(&self.pressed_buttons, button)
    }

    /// The modifiers that are down.
    pub fn pressed_mods(&self) -> (r: u8)
        ensures
            r == self.mods(),
    {
        self.pressed_mods
    }

    /// A key or button went down. `modifier` holds the bit of the modifier
    /// that the key is, and no bit for any other key or a button.
    pub fn press(&mut self, button: Button, modifier: u8)
        ensures
            final(self).pressed() == old(self).pressed().insert(button),
            final(self).mods() == old(self).mods() | modifier,
            final(self).blocked() == old(self).blocked(),
            final(self).bindings() == old(self).bindings(),
            final(self).held() == old(self).held(),
    {
        self.pressed_mods = self.pressed_mods | modifier;
        if !has_button(&self.pressed_buttons, button) {
            proof {
                assert forall|x: Button| self.pressed_buttons@.push(button).contains(x) <==> x
                    == button || self.pressed_buttons@.contains(x) by {
                    lemma_push_contains(self.pressed_buttons@, button, x);
                }
            }
            self.pressed_buttons.push(button);
        }
        proof {
            assert(self.pressed_buttons@.to_set() =~= old(self).pressed_buttons@.to_set().insert(
                button,
            ));
        }
    }

    /// A key or button went up. A modifier that goes up is no longer
    /// blocked.
    pub fn release(&mut self, button: Button, modifier: u8)
        ensures
            final(self).pressed() == old(self).pressed().remove(button),
            final(self).mods() == old(self).mods() & !modifier,
            final(self).blocked() == old(self).blocked() & !modifier,
            final(self).bindings() == old(self).bindings(),
            final(self).held() == old(self).held(),
    {
        self.pressed_mods = self.pressed_mods & !modifier;
        self.blocked_mods = self.blocked_mods & !modifier;
        drop_button(&mut self.pressed_buttons, button);
    }

    /// One fixed tick: works out from what is down which actions are held.
    ///
    /// The bindings are looked at in order. The actions of a combination
    /// that has been let go are no longer held; the actions of one that is
    /// down are held, and its modifiers are blocked from then on.
    pub fn fixed_update(&mut self)
        ensures
            final(self).pressed() == old(self).pressed(),
            final(self).mods() == old(self).mods(),
            final(self).bindings() == old(self).bindings(),
            (Resolution { held: final(self).held(), blocked: final(self).blocked() })
                == resolve_all(
                old(self).pressed(),
                old(self).mods(),
                Resolution { held: old(self).held(), blocked: old(self).blocked() },
                old(self).bindings(),
            ),
    {
        let ghost start = Resolution { held: self.held(), blocked: self.blocked() };
        let n = self.key_combos.0.len();
        let mut i: usize = 0;
        while i < n
            invariant
                i <= n,
                n == self.key_combos.0@.len(),
                self.pressed_buttons@ == old(self).pressed_buttons@,
                self.pressed_mods == old(self).pressed_mods,
                self.key_combos.0@ == old(self).key_combos.0@,
                (Resolution { held: self.held_actions@.to_set(), blocked: self.blocked_mods })
                    == resolve_all(
                    self.pressed_buttons@.to_set(),
                    self.pressed_mods,
                    start,
                    self.key_combos.0@.take(i as int),
                ),
            decreases n - i,
        {
            let ghost before = Resolution {
                held: self.held_actions@.to_set(),
                blocked: self.blocked_mods,
            };
            let combo = self.key_combos.0[i].combo;
            let button_down = has_button(&self.pressed_buttons, combo.1);
            let released = !button_down && !(self.blocked_mods & combo.0 == combo.0);
            let down = button_down && self.pressed_mods & combo.0 == combo.0;
            let count = self.key_combos.0[i].actions.len();
            let ghost actions = self.key_combos.0@[i as int].actions@;
            if released {
                let mut j: usize = 0;
                while j < count
                    invariant
                        j <= count,
                        i < n,
                        n == self.key_combos.0@.len(),
                        count == actions.len(),
                        actions == self.key_combos.0@[i as int].actions@,
                        self.pressed_buttons@ == old(self).pressed_buttons@,
                        self.pressed_mods == old(self).pressed_mods,
                        self.blocked_mods == before.blocked,
                        self.key_combos.0@ == old(self).key_combos.0@,
                        self.held_actions@.to_set() == before.held.difference(
                            actions.take(j as int).to_set(),
                        ),
                    decreases count - j,
                {
                    let action = self.key_combos.0[i].actions[j];
                    drop_action(&mut self.held_actions, action);
                    proof {
                        assert(actions.take(j + 1) =~= actions.take(j as int).push(action));
                        assert forall|x: ActionCode| actions.take(j + 1).contains(x) <==> x
                            == action || actions.take(j as int).contains(x) by {
                            lemma_push_contains(actions.take(j as int), action, x);
                        }
                        assert(self.held_actions@.to_set() =~= before.held.difference(
                            actions.take(j + 1).to_set(),
                        ));
                    }
                    j = j + 1;
                }
                proof {
                    assert(actions.take(count as int) =~= actions);
                }
            } else if down {
                let mut j: usize = 0;
                while j < count
                    invariant
                        j <= count,
                        i < n,
                        n == self.key_combos.0@.len(),
                        count == actions.len(),
                        actions == self.key_combos.0@[i as int].actions@,
                        self.pressed_buttons@ == old(self).pressed_buttons@,
                        self.pressed_mods == old(self).pressed_mods,
                        self.blocked_mods == before.blocked,
                        self.key_combos.0@ == old(self).key_combos.0@,
                        self.held_actions@.to_set() == before.held.union(
                            actions.take(j as int).to_set(),
                        ),
                    decreases count - j,
                {
                    let action = self.key_combos.0[i].actions[j];
                    let ghost held_before = self.held_actions@;
                    if !is_held(&self.held_actions, action) {
                        self.held_actions.push(action);
                    }
                    proof {
                        assert(actions.take(j + 1) =~= actions.take(j as int).push(action));
                        assert forall|x: ActionCode|
                            self.held_actions@.contains(x) <==> before.held.contains(x)
                                || actions.take(j + 1).contains(x) by {
                            lemma_push_contains(actions.take(j as int), action, x);
                            lemma_push_contains(held_before, action, x);
                            assert(held_before.to_set().contains(x) <==> held_before.contains(x));
                        }
                        assert(self.held_actions@.to_set() =~= before.held.union(
                            actions.take(j + 1).to_set(),
                        ));
                    }
                    j = j + 1;
                }
                proof {
                    assert(actions.take(count as int) =~= actions);
                }
                self.blocked_mods = self.blocked_mods | combo.0;
            }
            proof {
                let upto = self.key_combos.0@.take(i + 1);
                assert(upto.drop_last() =~= self.key_combos.0@.take(i as int));
                assert(upto.last() == self.key_combos.0@[i as int]);
            }
            i = i + 1;
        }
        proof {
            assert(self.key_combos.0@.take(n as int) =~= self.key_combos.0@);
        }
    }
}

} // verus!
