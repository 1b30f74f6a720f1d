use vstd::prelude::*;

verus! {

/// The abstract action identifiers bound to the seven movement keys.
#[derive(Clone, Copy, Debug, PartialEq, Eq)]
pub struct KeyBindings {
    pub forward: u32,
    pub back: u32,
    pub left: u32,
    pub right: u32,
    pub up: u32,
    pub down: u32,
    pub run: u32,
}

/// Directional input for one frame: each component is -1, 0 or 1.
/// `x` is right/left, `y` is up/down, `z` is forward/back.
#[derive(Clone, Copy, Debug, PartialEq, Eq)]
pub struct Axis {
    pub x: i8,
    pub y: i8,
    pub z: i8,
}

/// +1 when `plus` is held, -1 when `minus` is held, 0 when both or neither are.
pub open spec fn key_sign(held: Seq<u32>, plus: u32, minus: u32) -> int {
    (if held.contains(plus) { 1int } else { 0int }) - (if held.contains(minus) { 1int } else { 0int })
}

/// The axis input that a set of held keys gives under the bindings `b`.
pub open spec fn spec_axis(b: KeyBindings, held: Seq<u32>) -> (int, int, int) {
    (key_sign(held, b.right, b.left), key_sign(held, b.up, b.down), key_sign(held, b.forward, b.back))
}

impl Axis {
    pub open spec fn view(self) -> (int, int, int) {
        (self.x as int, self.y as int, self.z as int)
    }

    pub open spec fn spec_is_zero(self) -> bool {
        self.x == 0 && self.y == 0 && self.z == 0
    }

    /// True when no direction is requested.
    pub fn is_zero(&self) -> (r: bool)
        ensures
            r == self.spec_is_zero(),
    {
        self.x == 0 && self.y == 0 && self.z == 0
    }

    /// The squared length of the axis vector, the square of the divisor that
    /// normalises it.
    pub fn length_squared(&self) -> (r: u8)
        requires
            -1 <= self.x <= 1,
            -1 <= self.y <= 1,
            -1 <= self.z <= 1,
        ensures
            r as int == self.x * self.x + self.y * self.y + self.z * self.z,
            r <= 3,
            r == 0 <==> self.spec_is_zero(),
    {
        let sx: u8 = if self.x != 0 { 1 } else { 0 };
        let sy: u8 = if self.y != 0 { 1 } else { 0 };
        let sz: u8 = if self.z != 0 { 1 } else { 0 };
        proof {
            lemma_unit_square(self.x as int);
            lemma_unit_square(self.y as int);
            lemma_unit_square(self.z as int);
        }
        sx + sy + sz
    }
}

proof fn lemma_unit_square(v: int)
    requires
        -1 <= v <= 1,
    ensures
        v * v == (if v != 0 { 1int } else { 0int }),
{
    assert(v == -1 || v == 0 || v == 1);
}

/// Whether the key identifier `key` is among the held keys.
pub fn is_held(held: &Vec<u32>, key: u32) -> (r: bool)
    ensures
        r == held@.contains(key),
{
    let mut i: usize = 0;
    while i < held.len()
        invariant
            0 <= i <= held@.len(),
            forall|j: int| 0 <= j < i ==> held@[j] != key,
        decreases held@.len() - i,
    {
        if held[i] == key {
            return true;
        }
        i = i + 1;
    }
    false
}

fn sign_of(held: &Vec<u32>, plus: u32, minus: u32) -> (r: i8)
    ensures
        r as int == key_sign(held@, plus, minus),
{
    let p: i8 = if is_held(held, plus) { 1 } else { 0 };
    let m: i8 = if is_held(held, minus) { 1 } else { 0 };
    p - m
}

/// Builds the axis input from the held keys: each bound key that is held adds
/// one on its axis in its direction, so opposing keys cancel.
pub fn axis_input(bindings: &KeyBindings, held: &Vec<u32>) -> (r: Axis)
    ensures
        r@ == spec_axis(*bindings, held@),
        -1 <= r.x <= 1,
        -1 <= r.y <= 1,
        -1 <= r.z <= 1,
{
    Axis {
        x: sign_of(held, bindings.right, bindings.left),
        y: sign_of(held, bindings.up, bindings.down),
        z: sign_of(held, bindings.forward, bindings.back),
    }
}

/// When both the forward and the back key are held, the forward/back
/// component of the axis input is zero.
pub proof fn lemma_opposing_keys_cancel(b: KeyBindings, held: Seq<u32>)
    requires
        held.contains(b.forward),
        held.contains(b.back),
    ensures
        spec_axis(b, held).2 == 0,
{
}

/// The axis input depends only on which keys are held, not on the order in
/// which they were pressed or how often they appear.
pub proof fn lemma_axis_ignores_press_order(b: KeyBindings, h1: Seq<u32>, h2: Seq<u32>)
    requires
        h1.to_set() == h2.to_set(),
    ensures
        spec_axis(b, h1) == spec_axis(b, h2),
{
    assert forall|k: u32| h1.contains(k) == h2.contains(k) by {
        assert(h1.to_set().contains(k) == h1.contains(k));
        assert(h2.to_set().contains(k) == h2.contains(k));
    }
}

} // verus!
