//! Keyboard state of the movement controller: which movement actions are
//! active, kept as a set of bit flags, and how key events change it.

use vstd::prelude::*;

verus! {

/// A movement the user can ask for with the keyboard.
#[derive(Debug, Copy, Clone, PartialEq, Eq, Structural)]
pub enum KeyAction {
    MoveForward,
    MoveBackward,
    StrafeLeft,
    StrafeRight,
    LookLeft,
    LookRight,
    LookUp,
    LookDown,
    FastMovement,
    MouseLook,
    ResetMovement,
}

impl KeyAction {
    /// The position of the action's flag among the bits.
    pub open spec fn spec_index(self) -> u64 {
        match self {
            KeyAction::MoveForward => 0,
            KeyAction::MoveBackward => 1,
            KeyAction::StrafeLeft => 2,
            KeyAction::StrafeRight => 3,
            KeyAction::LookLeft => 4,
            KeyAction::LookRight => 5,
            KeyAction::LookUp => 6,
            KeyAction::LookDown => 7,
            KeyAction::FastMovement => 8,
            KeyAction::MouseLook => 9,
            KeyAction::ResetMovement => 10,
        }
    }

    /// The flag of the action: one bit, at its index.
    pub open spec fn spec_bit(self) -> u64 {
        1u64 << self.spec_index()
    }

    /// The flag of the action.
    pub fn bit(&self) -> (bit: u64)
        ensures
            bit == self.spec_bit(),
    {
        let index: u64 = match self {
            KeyAction::MoveForward => 0,
            KeyAction::MoveBackward => 1,
            KeyAction::StrafeLeft => 2,
            KeyAction::StrafeRight => 3,
            KeyAction::LookLeft => 4,
            KeyAction::LookRight => 5,
            KeyAction::LookUp => 6,
            KeyAction::LookDown => 7,
            KeyAction::FastMovement => 8,
            KeyAction::MouseLook => 9,
            KeyAction::ResetMovement => 10,
        };
        1u64 << index
    }
}

/// The set of active movement actions, one bit per action.
#[derive(Debug, Copy, Clone, PartialEq, Eq, Structural)]
pub struct KeyStateFlags {
    bits: u64,
}

impl KeyStateFlags {
    /// The bits of the set.
    pub closed spec fn spec_bits(self) -> u64 {
        self.bits
    }

    /// Whether the set holds the action.
    pub open spec fn has(self, action: KeyAction) -> bool {
        self.spec_bits() & action.spec_bit() == action.spec_bit()
    }

    pub closed spec fn spec_union(self, other: KeyStateFlags) -> KeyStateFlags {
        KeyStateFlags { bits: self.bits | other.bits }
    }

    pub closed spec fn spec_difference(self, other: KeyStateFlags) -> KeyStateFlags {
        KeyStateFlags { bits: self.bits & !other.bits }
    }

    pub closed spec fn spec_symmetric_difference(self, other: KeyStateFlags) -> KeyStateFlags {
        KeyStateFlags { bits: self.bits ^ other.bits }
    }

    /// The set after the action was made active or inactive.
    pub open spec fn with_action(self, action: KeyAction, active: bool) -> KeyStateFlags {
        if active {
            self.spec_union(KeyStateFlags::flag(action))
        } else {
            self.spec_difference(KeyStateFlags::flag(action))
        }
    }

    /// The set of the one action.
    pub closed spec fn flag(action: KeyAction) -> KeyStateFlags {
        KeyStateFlags { bits: action.spec_bit() }
    }

    /// The set holds no action.
    #[allow(non_snake_case)]
    pub fn NONE() -> (flags: KeyStateFlags)
        ensures
            flags.spec_bits() == 0,
    {
        KeyStateFlags { bits: 0 }
    }

    /// The set of the one action.
    pub fn of(action: KeyAction) -> (flags: KeyStateFlags)
        ensures
            flags == KeyStateFlags::flag(action),
            flags.spec_bits() == action.spec_bit(),
    {
        KeyStateFlags { bits: action.bit() }
    }

    #[allow(non_snake_case)]
    pub fn MOVE_FORWARD() -> (flags: KeyStateFlags)
        ensures
            flags == KeyStateFlags::flag(KeyAction::MoveForward),
            flags.spec_bits() == 1,
    {
        proof {
            lemma_flag_values();
        }
        KeyStateFlags::of(KeyAction::MoveForward)
    }

    #[allow(non_snake_case)]
    pub fn MOVE_BACKWARD() -> (flags: KeyStateFlags)
        ensures
            flags == KeyStateFlags::flag(KeyAction::MoveBackward),
            flags.spec_bits() == 2,
    {
        proof {
            lemma_flag_values();
        }
        KeyStateFlags::of(KeyAction::MoveBackward)
    }

    #[allow(non_snake_case)]
    pub fn STRAFE_LEFT() -> (flags: KeyStateFlags)
        ensures
            flags == KeyStateFlags::flag(KeyAction::StrafeLeft),
            flags.spec_bits() == 4,
    {
        proof {
            lemma_flag_values();
        }
        KeyStateFlags::of(KeyAction::StrafeLeft)
    }

    #[allow(non_snake_case)]
    pub fn STRAFE_RIGHT() -> (flags: KeyStateFlags)
        ensures
            flags == KeyStateFlags::flag(KeyAction::StrafeRight),
            flags.spec_bits() == 8,
    {
        proof {
            lemma_flag_values();
        }
        KeyStateFlags::of(KeyAction::StrafeRight)
    }

    #[allow(non_snake_case)]
    pub fn LOOK_LEFT() -> (flags: KeyStateFlags)
        ensures
            flags == KeyStateFlags::flag(KeyAction::LookLeft),
            flags.spec_bits() == 16,
    {
        proof {
            lemma_flag_values();
        }
        KeyStateFlags::of(KeyAction::LookLeft)
    }

    #[allow(non_snake_case)]
    pub fn LOOK_RIGHT() -> (flags: KeyStateFlags)
        ensures
            flags == KeyStateFlags::flag(KeyAction::LookRight),
            flags.spec_bits() == 32,
    {
        proof {
            lemma_flag_values();
        }
        KeyStateFlags::of(KeyAction::LookRight)
    }

    #[allow(non_snake_case)]
    pub fn LOOK_UP() -> (flags: KeyStateFlags)
        ensures
            flags == KeyStateFlags::flag(KeyAction::LookUp),
            flags.spec_bits() == 64,
    {
        proof {
            lemma_flag_values();
        }
        KeyStateFlags::of(KeyAction::LookUp)
    }

    #[allow(non_snake_case)]
    pub fn LOOK_DOWN() -> (flags: KeyStateFlags)
        ensures
            flags == KeyStateFlags::flag(KeyAction::LookDown),
            flags.spec_bits() == 128,
    {
        proof {
            lemma_flag_values();
        }
        KeyStateFlags::of(KeyAction::LookDown)
    }

    #[allow(non_snake_case)]
    pub fn FAST_MOVEMENT() -> (flags: KeyStateFlags)
        ensures
            flags == KeyStateFlags::flag(KeyAction::FastMovement),
            flags.spec_bits() == 256,
    {
        proof {
            lemma_flag_values();
        }
        KeyStateFlags::of(KeyAction::FastMovement)
    }

    #[allow(non_snake_case)]
    pub fn MOUSE_LOOK() -> (flags: KeyStateFlags)
        ensures
            flags == KeyStateFlags::flag(KeyAction::MouseLook),
            flags.spec_bits() == 512,
    {
        proof {
            lemma_flag_values();
        }
        KeyStateFlags::of(KeyAction::MouseLook)
    }

    #[allow(non_snake_case)]
    pub fn RESET_MOVEMENT() -> (flags: KeyStateFlags)
        ensures
            flags == KeyStateFlags::flag(KeyAction::ResetMovement),
            flags.spec_bits() == 1024,
    {
        proof {
            lemma_flag_values();
        }
        KeyStateFlags::of(KeyAction::ResetMovement)
    }

    /// The bits of the set.
    pub fn bits(&self) -> (bits: u64)
        ensures
            bits == self.spec_bits(),
    {
        self.bits
    }

    /// Whether the set holds no action.
    pub fn is_empty(&self) -> (empty: bool)
        ensures
            empty == (self.spec_bits() == 0),
    {
        self.bits == 0
    }

    /// The actions of either set.
    pub fn union(self, other: KeyStateFlags) -> (flags: KeyStateFlags)
        ensures
            flags == self.spec_union(other),
            flags.spec_bits() == self.spec_bits() | other.spec_bits(),
    {
        KeyStateFlags { bits: self.bits | other.bits }
    }

    /// The actions of this set that the other does not hold.
    pub fn difference(self, other: KeyStateFlags) -> (flags: KeyStateFlags)
        ensures
            flags == self.spec_difference(other),
            flags.spec_bits() == self.spec_bits() & !other.spec_bits(),
    {
        KeyStateFlags { bits: self.bits & !other.bits }
    }

    /// Whether every action of the other set is in this one.
    pub fn contains(&self, other: KeyStateFlags) -> (contained: bool)
        ensures
            contained == (self.spec_bits() & other.spec_bits() == other.spec_bits()),
    {
        self.bits & other.bits == other.bits
    }

    /// Adds the actions of the other set.
    pub fn insert(&mut self, other: KeyStateFlags)
        ensures
            *final(self) == old(self).spec_union(other),
    {
        self.bits = self.bits | other.bits;
    }

    /// Removes the actions of the other set.
    pub fn remove(&mut self, other: KeyStateFlags)
        ensures
            *final(self) == old(self).spec_difference(other),
    {
        self.bits = self.bits & !other.bits;
    }

    /// Flips the actions of the other set.
    pub fn toggle(&mut self, other: KeyStateFlags)
        ensures
            *final(self) == old(self).spec_symmetric_difference(other),
    {
        self.bits = self.bits ^ other.bits;
    }

    /// Makes the action active or inactive.
    pub fn set_active(&mut self, action: KeyAction, active: bool)
        ensures
            *final(self) == old(self).with_action(action, active),
    {
        if active {
            self.insert(KeyStateFlags::of(action));
        } else {
            self.remove(KeyStateFlags::of(action));
        }
    }

    /// Flips whether the action is active.
    pub fn toggle_active(&mut self, action: KeyAction)
        ensures
            *final(self) == old(self).spec_symmetric_difference(KeyStateFlags::flag(action)),
    {
        self.toggle(KeyStateFlags::of(action));
    }

    /// Whether the action is active.
    pub fn is_active(&self, action: KeyAction) -> (active: bool)
        ensures
            active == self.has(action),
    {
        self.contains(KeyStateFlags::of(action))
    }
}

impl core::ops::BitOr for KeyStateFlags {
    type Output = KeyStateFlags;

    fn bitor(self, rhs: KeyStateFlags) -> (flags: KeyStateFlags) {
        self.union(rhs)
    }
}

impl vstd::std_specs::ops::BitOrSpecImpl for KeyStateFlags {
    open spec fn obeys_bitor_spec() -> bool {
        true
    }

    open spec fn bitor_req(self, rhs: KeyStateFlags) -> bool {
        true
    }

    open spec fn bitor_spec(self, rhs: KeyStateFlags) -> KeyStateFlags {
        self.spec_union(rhs)
    }
}

impl core::ops::Sub for KeyStateFlags {
    type Output = KeyStateFlags;

    fn sub(self, rhs: KeyStateFlags) -> (flags: KeyStateFlags) {
        self.difference(rhs)
    }
}

impl vstd::std_specs::ops::SubSpecImpl for KeyStateFlags {
    open spec fn obeys_sub_spec() -> bool {
        true
    }

    open spec fn sub_req(self, rhs: KeyStateFlags) -> bool {
        true
    }

    open spec fn sub_spec(self, rhs: KeyStateFlags) -> KeyStateFlags {
        self.spec_difference(rhs)
    }
}

/// What the movement controller does on a step: nothing while no action
/// is active, put the thing back while reset is active, else move it.
#[derive(Debug, Copy, Clone, PartialEq, Eq, Structural)]
pub enum Movement {
    Still,
    Reset,
    Move,
}

impl KeyStateFlags {
    /// What a step of the movement controller does with these actions.
    pub open spec fn spec_movement(self) -> Movement {
        if self.spec_bits() == 0 {
            Movement::Still
        } else if self.has(KeyAction::ResetMovement) {
            Movement::Reset
        } else {
            Movement::Move
        }
    }

    /// What a step of the movement controller does with these actions.
    pub fn movement(&self) -> (movement: Movement)
        ensures
            movement == self.spec_movement(),
    {
        if self.is_empty() {
            Movement::Still
        } else if self.is_active(KeyAction::ResetMovement) {
            Movement::Reset
        } else {
            Movement::Move
        }
    }
}

/// A key that the movement controller listens to; every other key is
/// `Other`.
#[derive(Debug, Copy, Clone, PartialEq, Eq, Structural)]
pub enum Key {
    R,
    W,
    A,
    S,
    D,
    Up,
    Down,
    Left,
    Right,
    Space,
    Other,
}

impl KeyStateFlags {
    /// The set after a key was pressed (`pressed`) or released: a movement
    /// key makes its action active while it is held, `R` resets, and each
    /// press of space flips mouse look.
    pub open spec fn spec_handle_key(self, key: Key, pressed: bool) -> KeyStateFlags {
        match key {
            Key::R => self.with_action(KeyAction::ResetMovement, pressed),
            Key::W => self.with_action(KeyAction::MoveForward, pressed),
            Key::A => self.with_action(KeyAction::StrafeLeft, pressed),
            Key::S => self.with_action(KeyAction::MoveBackward, pressed),
            Key::D => self.with_action(KeyAction::StrafeRight, pressed),
            Key::Up => self.with_action(KeyAction::LookUp, pressed),
            Key::Down => self.with_action(KeyAction::LookDown, pressed),
            Key::Left => self.with_action(KeyAction::LookLeft, pressed),
            Key::Right => self.with_action(KeyAction::LookRight, pressed),
            Key::Space => if pressed {
                self.spec_symmetric_difference(KeyStateFlags::flag(KeyAction::MouseLook))
            } else {
                self
            },
            Key::Other => self,
        }
    }

    /// Takes a key press or release into account.
    pub fn handle_key(&mut self, key: Key, pressed: bool)
        ensures
            *final(self) == old(self).spec_handle_key(key, pressed),
    {
        match key {
            Key::R => self.set_active(KeyAction::ResetMovement, pressed),
            Key::W => self.set_active(KeyAction::MoveForward, pressed),
            Key::A => self.set_active(KeyAction::StrafeLeft, pressed),
            Key::S => self.set_active(KeyAction::MoveBackward, pressed),
            Key::D => self.set_active(KeyAction::StrafeRight, pressed),
            Key::Up => self.set_active(KeyAction::LookUp, pressed),
            Key::Down => self.set_active(KeyAction::LookDown, pressed),
            Key::Left => self.set_active(KeyAction::LookLeft, pressed),
            Key::Right => self.set_active(KeyAction::LookRight, pressed),
            Key::Space => {
                if pressed {
                    self.toggle_active(KeyAction::MouseLook);
                }
            },
            Key::Other => {},
        }
    }

    /// Takes a change of the modifier keys into account: shift makes the
    /// movement fast.
    pub fn handle_modifiers(&mut self, shift: bool)
        ensures
            *final(self) == old(self).with_action(KeyAction::FastMovement, shift),
    {
        self.set_active(KeyAction::FastMovement, shift);
    }
}

/// The flags of two different actions share no bit, and no flag is zero.
proof fn lemma_flags_distinct(a: KeyAction, b: KeyAction)
    ensures
        a != b ==> a.spec_bit() & b.spec_bit() == 0,
        a.spec_bit() != 0,
{
    let i = a.spec_index();
    let j = b.spec_index();
    assert(i < 64 && j < 64 && i != j ==> (1u64 << i) & (1u64 << j) == 0) by (bit_vector);
    assert(i < 64 ==> (1u64 << i) != 0) by (bit_vector);
}

/// Making an action active or inactive is what a later query of that
/// action answers, and no other action changes.
pub proof fn lemma_set_active_is_active(flags: KeyStateFlags, a: KeyAction, b: KeyAction, active: bool)
    ensures
        flags.with_action(a, active).has(b) == (if a == b { active } else { flags.has(b) }),
{
    lemma_flags_distinct(a, b);
    let x = flags.spec_bits();
    let p = a.spec_bit();
    let q = b.spec_bit();
    assert(p & q == 0 ==> (((x | p) & q == q) == (x & q == q))) by (bit_vector);
    assert(p & q == 0 ==> (((x & !p) & q == q) == (x & q == q))) by (bit_vector);
    assert((x | p) & p == p) by (bit_vector);
    assert(p != 0 ==> (x & !p) & p != p) by (bit_vector);
}

/// Flipping an action changes whether that action is active and nothing
/// else.
pub proof fn lemma_toggle_active_flips(flags: KeyStateFlags, a: KeyAction, b: KeyAction)
    ensures
        flags.spec_symmetric_difference(KeyStateFlags::flag(a)).has(b) == (if a == b {
            !flags.has(b)
        } else {
            flags.has(b)
        }),
{
    lemma_flags_distinct(a, b);
    let x = flags.spec_bits();
    let i = a.spec_index();
    let p = a.spec_bit();
    let q = b.spec_bit();
    assert(p & q == 0 ==> (((x ^ p) & q == q) == (x & q == q))) by (bit_vector);
    assert(i < 64 ==> (((x ^ (1u64 << i)) & (1u64 << i) == (1u64 << i)) == !(x & (1u64 << i)
        == (1u64 << i)))) by (bit_vector);
}

/// Each movement key stands for its own action: pressing it makes that
/// action active and releasing it makes it inactive, whatever the set held
/// before, and no other action changes. `R` stands for reset; `W`, `S`, `A`
/// and `D` for moving forward, backward, left and right; the arrows for
/// looking up, down, left and right. Pressing space flips mouse look alone,
/// releasing it changes nothing, and any other key changes nothing.
pub proof fn lemma_keys_drive_their_actions(flags: KeyStateFlags, pressed: bool, b: KeyAction)
    ensures
        flags.spec_handle_key(Key::R, pressed).has(b) == (if b == KeyAction::ResetMovement {
            pressed
        } else {
            flags.has(b)
        }),
        flags.spec_handle_key(Key::W, pressed).has(b) == (if b == KeyAction::MoveForward {
            pressed
        } else {
            flags.has(b)
        }),
        flags.spec_handle_key(Key::S, pressed).has(b) == (if b == KeyAction::MoveBackward {
            pressed
        } else {
            flags.has(b)
        }),
        flags.spec_handle_key(Key::A, pressed).has(b) == (if b == KeyAction::StrafeLeft {
            pressed
        } else {
            flags.has(b)
        }),
        flags.spec_handle_key(Key::D, pressed).has(b) == (if b == KeyAction::StrafeRight {
            pressed
        } else {
            flags.has(b)
        }),
        flags.spec_handle_key(Key::Up, pressed).has(b) == (if b == KeyAction::LookUp {
            pressed
        } else {
            flags.has(b)
        }),
        flags.spec_handle_key(Key::Down, pressed).has(b) == (if b == KeyAction::LookDown {
            pressed
        } else {
            flags.has(b)
        }),
        flags.spec_handle_key(Key::Left, pressed).has(b) == (if b == KeyAction::LookLeft {
            pressed
        } else {
            flags.has(b)
        }),
        flags.spec_handle_key(Key::Right, pressed).has(b) == (if b == KeyAction::LookRight {
            pressed
        } else {
            flags.has(b)
        }),
        flags.spec_handle_key(Key::Space, pressed).has(b) == (if b == KeyAction::MouseLook && pressed {
            !flags.has(b)
        } else {
            flags.has(b)
        }),
        flags.spec_handle_key(Key::Other, pressed) == flags,
{
    lemma_set_active_is_active(flags, KeyAction::ResetMovement, b, pressed);
    lemma_set_active_is_active(flags, KeyAction::MoveForward, b, pressed);
    lemma_set_active_is_active(flags, KeyAction::MoveBackward, b, pressed);
    lemma_set_active_is_active(flags, KeyAction::StrafeLeft, b, pressed);
    lemma_set_active_is_active(flags, KeyAction::StrafeRight, b, pressed);
    lemma_set_active_is_active(flags, KeyAction::LookUp, b, pressed);
    lemma_set_active_is_active(flags, KeyAction::LookDown, b, pressed);
    lemma_set_active_is_active(flags, KeyAction::LookLeft, b, pressed);
    lemma_set_active_is_active(flags, KeyAction::LookRight, b, pressed);
    lemma_toggle_active_flips(flags, KeyAction::MouseLook, b);
}

/// Flipping an action twice gives the set back.
pub proof fn lemma_toggle_active_twice(flags: KeyStateFlags, a: KeyAction)
    ensures
        flags.spec_symmetric_difference(KeyStateFlags::flag(a)).spec_symmetric_difference(
            KeyStateFlags::flag(a),
        ) == flags,
{
    let x = flags.spec_bits();
    let p = a.spec_bit();
    assert((x ^ p) ^ p == x) by (bit_vector);
}

/// Removing a set from its union with a set that shares no action with it
/// gives that other set back; removing the union itself leaves nothing.
pub proof fn lemma_union_difference(x: KeyStateFlags, y: KeyStateFlags)
    ensures
        x.spec_bits() & y.spec_bits() == 0 ==> x.spec_union(y).spec_difference(y) == x,
        x.spec_union(y).spec_difference(x.spec_union(y)).spec_bits() == 0,
{
    let a = x.spec_bits();
    let b = y.spec_bits();
    assert(a & b == 0 ==> (a | b) & !b == a) by (bit_vector);
    assert((a | b) & !(a | b) == 0) by (bit_vector);
}

/// The set holds no bits but the flags of the actions.
pub open spec fn holds_only_actions(flags: KeyStateFlags) -> bool {
    flags.spec_bits() & !0x7ffu64 == 0
}

/// Every set made from the flags of the actions holds no other bits: the
/// flag of each action does not, and union, difference and flipping keep
/// it so.
pub proof fn lemma_only_actions_are_held(x: KeyStateFlags, y: KeyStateFlags, a: KeyAction)
    ensures
        holds_only_actions(KeyStateFlags::flag(a)),
        holds_only_actions(x) && holds_only_actions(y) ==> holds_only_actions(x.spec_union(y)),
        holds_only_actions(x) ==> holds_only_actions(x.spec_difference(y)),
        holds_only_actions(x) && holds_only_actions(y) ==> holds_only_actions(x.spec_symmetric_difference(y)),
{
    let p = x.spec_bits();
    let q = y.spec_bits();
    let i = a.spec_index();
    assert({
        &&& i <= 10 ==> (1u64 << i) & !0x7ffu64 == 0
        &&& p & !0x7ffu64 == 0 && q & !0x7ffu64 == 0 ==> (p | q) & !0x7ffu64 == 0
        &&& p & !0x7ffu64 == 0 ==> (p & !q) & !0x7ffu64 == 0
        &&& p & !0x7ffu64 == 0 && q & !0x7ffu64 == 0 ==> (p ^ q) & !0x7ffu64 == 0
    }) by (bit_vector);
}

/// The values of the flags.
proof fn lemma_flag_values()
    by (bit_vector)
    ensures
        1u64 << 0u64 == 1,
        1u64 << 1u64 == 2,
        1u64 << 2u64 == 4,
        1u64 << 3u64 == 8,
        1u64 << 4u64 == 16,
        1u64 << 5u64 == 32,
        1u64 << 6u64 == 64,
        1u64 << 7u64 == 128,
        1u64 << 8u64 == 256,
        1u64 << 9u64 == 512,
        1u64 << 10u64 == 1024,
{
}

} // verus!
