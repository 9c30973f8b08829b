use vstd::prelude::*;

verus! {

/// Pixels that one held direction key moves the sprite per tick.
pub const SPEED: i32 = 4;

/// Width of the window, in pixels.
pub const SCREEN_WIDTH: u32 = 800;

/// Height of the window, in pixels.
pub const SCREEN_HEIGHT: u32 = 600;

/// Width of the sprite, in pixels.
pub const PLAYER_WIDTH: u32 = 32;

/// Height of the sprite, in pixels.
pub const PLAYER_HEIGHT: u32 = 32;

/// Position along one axis after wrap-around: a rectangle of extent `size`
/// that has left the viewport entirely on the low side reappears past the
/// high edge; one that has left it past the high edge reappears just before
/// the low edge; any other position stays.
pub open spec fn wrap(p: int, size: int, bound: int) -> int {
    if p < -size {
        p + size + bound
    } else if p > bound {
        -size
    } else {
        p
    }
}

/// The positions along one axis at which a rectangle of extent `size`
/// overlaps or touches the viewport `[0, bound]`.
pub open spec fn in_band(p: int, size: int, bound: int) -> bool {
    -size <= p <= bound
}

/// `v` is representable as an `i32`.
pub open spec fn fits_i32(v: int) -> bool {
    i32::MIN <= v <= i32::MAX
}

/// A direction key that moves the sprite.
#[derive(Clone, Copy, Debug, PartialEq, Eq, Structural)]
pub enum Key {
    Up,
    Down,
    Left,
    Right,
}

/// Which direction keys are held during one tick.
#[derive(Clone, Copy, Debug, PartialEq, Eq, Structural)]
pub struct HeldKeys {
    pub up: bool,
    pub down: bool,
    pub left: bool,
    pub right: bool,
}

impl HeldKeys {
    /// Horizontal displacement for one tick: right adds, left takes away.
    pub open spec fn dx(self) -> int {
        (if self.right { SPEED as int } else { 0 }) - (if self.left { SPEED as int } else { 0 })
    }

    /// Vertical displacement for one tick: down adds, up takes away.
    pub open spec fn dy(self) -> int {
        (if self.down { SPEED as int } else { 0 }) - (if self.up { SPEED as int } else { 0 })
    }

    /// No key held.
    pub fn none() -> (r: HeldKeys)
        ensures
            !r.up && !r.down && !r.left && !r.right,
    {
        HeldKeys { up: false, down: false, left: false, right: false }
    }

    /// The set of held keys given the keys reported as pressed, in any order
    /// and possibly repeated.
    pub fn from_keys(pressed: &Vec<Key>) -> (r: HeldKeys)
        ensures
            r.up == pressed@.contains(Key::Up),
            r.down == pressed@.contains(Key::Down),
            r.left == pressed@.contains(Key::Left),
            r.right == pressed@.contains(Key::Right),
    {
        let mut held = HeldKeys::none();
        let mut i: usize = 0;
        while i < pressed.len()
            invariant
                0 <= i <= pressed@.len(),
                held.up == pressed@.subrange(0, i as int).contains(Key::Up),
                held.down == pressed@.subrange(0, i as int).contains(Key::Down),
                held.left == pressed@.subrange(0, i as int).contains(Key::Left),
                held.right == pressed@.subrange(0, i as int).contains(Key::Right),
            decreases pressed@.len() - i,
        {
            proof {
                lemma_contains_extend(pressed@, i as int, Key::Up);
                lemma_contains_extend(pressed@, i as int, Key::Down);
                lemma_contains_extend(pressed@, i as int, Key::Left);
                lemma_contains_extend(pressed@, i as int, Key::Right);
            }
            match pressed[i] {
                Key::Up => held.up = true,
                Key::Down => held.down = true,
                Key::Left => held.left = true,
                Key::Right => held.right = true,
            }
            i = i + 1;
        }
        assert(pressed@.subrange(0, pressed@.len() as int) =~= pressed@);
        held
    }

    /// The per-tick displacement `(dx, dy)` of the held keys; opposite keys
    /// held together cancel on their axis.
    pub fn velocity(&self) -> (r: (i32, i32))
        ensures
            r.0 == self.dx(),
            r.1 == self.dy(),
    {
        let mut dx: i32 = 0;
        let mut dy: i32 = 0;
        if self.up {
            dy = dy - SPEED;
        }
        if self.down {
            dy = dy + SPEED;
        }
        if self.left {
            dx = dx - SPEED;
        }
        if self.right {
            dx = dx + SPEED;
        }
        (dx, dy)
    }
}

proof fn lemma_contains_extend(s: Seq<Key>, i: int, k: Key)
    requires
        0 <= i < s.len(),
    ensures
        s.subrange(0, i + 1).contains(k) == (s.subrange(0, i).contains(k) || s[i] == k),
{
    let a = s.subrange(0, i);
    let b = s.subrange(0, i + 1);
    assert(b =~= a.push(s[i]));
    if b.contains(k) {
        let j = choose|j: int| 0 <= j < b.len() && b[j] == k;
        if j < i {
            assert(a[j] == k);
        }
    }
    if a.contains(k) {
        let j = choose|j: int| 0 <= j < a.len() && a[j] == k;
        assert(b[j] == k);
    }
    if s[i] == k {
        assert(b[i] == k);
    }
}

/// The fixed bounds of the window.
#[derive(Clone, Copy, Debug, PartialEq, Eq, Structural)]
pub struct Viewport {
    pub width: u32,
    pub height: u32,
}

impl Viewport {
    /// Both dimensions are representable as screen coordinates.
    pub open spec fn wf(self) -> bool {
        self.width <= i32::MAX && self.height <= i32::MAX
    }
}

/// The rectangle that the keys move: its top-left corner and its size.
#[derive(Clone, Copy, Debug, PartialEq, Eq, Structural)]
pub struct Movable {
    pub x: i32,
    pub y: i32,
    pub w: u32,
    pub h: u32,
}

impl Movable {
    /// Both extents are representable as screen coordinates.
    pub open spec fn wf(self) -> bool {
        self.w <= i32::MAX && self.h <= i32::MAX
    }

    /// Both coordinates lie in the band where the rectangle overlaps or
    /// touches the viewport.
    pub open spec fn in_view(self, view: Viewport) -> bool {
        in_band(self.x as int, self.w as int, view.width as int) && in_band(
            self.y as int,
            self.h as int,
            view.height as int,
        )
    }

    /// Displacing by the held keys does not leave the range of coordinates.
    pub open spec fn can_step_spec(self, keys: HeldKeys) -> bool {
        fits_i32(self.x + keys.dx()) && fits_i32(self.y + keys.dy())
    }

    /// The rectangle after wrap-around on both axes.
    pub open spec fn wrapped(self, view: Viewport) -> Movable {
        Movable {
            x: wrap(self.x as int, self.w as int, view.width as int) as i32,
            y: wrap(self.y as int, self.h as int, view.height as int) as i32,
            ..self
        }
    }

    /// The rectangle after one tick: displaced by the held keys, then
    /// wrapped around on each axis.
    pub open spec fn stepped(self, keys: HeldKeys, view: Viewport) -> Movable {
        Movable {
            x: wrap(self.x + keys.dx(), self.w as int, view.width as int) as i32,
            y: wrap(self.y + keys.dy(), self.h as int, view.height as int) as i32,
            ..self
        }
    }

    /// A rectangle of size `w` by `h` centred in the viewport (halves
    /// rounded down).
    pub fn centered(view: &Viewport, w: u32, h: u32) -> (r: Movable)
        requires
            view.wf(),
            w <= i32::MAX,
            h <= i32::MAX,
        ensures
            r.wf(),
            r.x == view.width / 2 - w / 2,
            r.y == view.height / 2 - h / 2,
            r.w == w,
            r.h == h,
    {
        Movable {
            x: (view.width / 2) as i32 - (w / 2) as i32,
            y: (view.height / 2) as i32 - (h / 2) as i32,
            w,
            h,
        }
    }

    /// Whether `step` may be called with these keys: the displaced
    /// coordinates stay in the range of `i32`.
    pub fn can_step(&self, keys: &HeldKeys) -> (r: bool)
        ensures
            r == self.can_step_spec(*keys),
    {
        let (dx, dy) = keys.velocity();
        let x = self.x as i64 + dx as i64;
        let y = self.y as i64 + dy as i64;
        i32::MIN as i64 <= x && x <= i32::MAX as i64 && i32::MIN as i64 <= y && y
            <= i32::MAX as i64
    }

    /// Applies wrap-around on both axes; the size is kept.
    pub fn wrap(&mut self, view: &Viewport)
        requires
            old(self).wf(),
            view.wf(),
        ensures
            *final(self) == old(self).wrapped(*view),
    {
        self.x = wrap_axis(self.x, self.w, view.width);
        self.y = wrap_axis(self.y, self.h, view.height);
    }

    /// One tick: moves by the held keys, then wraps around on each axis.
    pub fn step(&mut self, keys: &HeldKeys, view: &Viewport)
        requires
            old(self).wf(),
            view.wf(),
            old(self).can_step_spec(*keys),
        ensures
            *final(self) == old(self).stepped(*keys, *view),
    {
        let (dx, dy) = keys.velocity();
        self.x = self.x + dx;
        self.y = self.y + dy;
        self.wrap(view);
    }
}

/// With no displacement, a rectangle that overlaps or touches the viewport on
/// both axes stays where it is after a tick.
pub proof fn lemma_zero_velocity_keeps_position(m: Movable, keys: HeldKeys, view: Viewport)
    requires
        m.wf(),
        view.wf(),
        keys.dx() == 0,
        keys.dy() == 0,
        m.in_view(view),
    ensures
        m.stepped(keys, view) == m,
{
}

/// Opposite keys held together leave their axis unchanged after a tick,
/// wherever the rectangle overlaps or touches the viewport on that axis.
pub proof fn lemma_opposing_keys_cancel(m: Movable, keys: HeldKeys, view: Viewport)
    requires
        m.wf(),
        view.wf(),
    ensures
        keys.up && keys.down && in_band(m.y as int, m.h as int, view.height as int) ==> m.stepped(
            keys,
            view,
        ).y == m.y,
        keys.left && keys.right && in_band(m.x as int, m.w as int, view.width as int)
            ==> m.stepped(keys, view).x == m.x,
{
}

/// A tick whose displaced position still overlaps or touches the viewport
/// moves the rectangle by exactly the held keys' displacement.
pub proof fn lemma_step_moves_by_velocity(m: Movable, keys: HeldKeys, view: Viewport)
    requires
        m.wf(),
        view.wf(),
        in_band(m.x + keys.dx(), m.w as int, view.width as int),
        in_band(m.y + keys.dy(), m.h as int, view.height as int),
    ensures
        m.stepped(keys, view).x == m.x + keys.dx(),
        m.stepped(keys, view).y == m.y + keys.dy(),
        m.stepped(keys, view).w == m.w,
        m.stepped(keys, view).h == m.h,
{
}

/// A rectangle that overlaps or touches the viewport can always take a tick,
/// and still does afterwards, provided each extent plus the matching
/// viewport dimension is at least one tick's displacement and no extent or
/// dimension comes within one tick of the largest coordinate.
pub proof fn lemma_step_stays_in_view(m: Movable, keys: HeldKeys, view: Viewport)
    requires
        m.wf(),
        view.wf(),
        m.in_view(view),
        m.w + view.width >= SPEED,
        m.h + view.height >= SPEED,
        m.w + SPEED <= i32::MAX,
        m.h + SPEED <= i32::MAX,
        view.width + SPEED <= i32::MAX,
        view.height + SPEED <= i32::MAX,
    ensures
        m.can_step_spec(keys),
        m.stepped(keys, view).wf(),
        m.stepped(keys, view).in_view(view),
{
}

/// Applies wrap-around to one coordinate.
pub fn wrap_axis(p: i32, size: u32, bound: u32) -> (r: i32)
    requires
        size <= i32::MAX,
        bound <= i32::MAX,
    ensures
        r == wrap(p as int, size as int, bound as int),
{
    let s = size as i32;
    let b = bound as i32;
    if p < -s {
        p + s + b
    } else if p > b {
        -s
    } else {
        p
    }
}

} // verus!
