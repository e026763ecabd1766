//! The player character's discrete state: which way she is heading, the frame
//! of her idle animation, which weapon is selected, and the sprite sheet she
//! is drawn from; plus the shift of her afterimage trajectory.

use vstd::prelude::*;
use crate::table::NameTable;

verus! {

/// The number of weapons the player carries.
pub const WEAPON_COUNT: usize = 2;

/// The number of frames of the idle animation.
pub const IDLE_FRAMES: usize = 4;

/// Which way the player is moving sideways.
#[derive(Clone, Copy, PartialEq, Eq, Structural, Debug)]
pub enum Heading {
    Mid,
    Left,
    Right,
}

/// A frame of the player sprite.
#[derive(Clone, Copy, PartialEq, Eq, Structural, Debug)]
pub enum Frame {
    Mid1,
    Mid2,
    Mid3,
    Mid4,
    Left,
    Right,
}

/// The name under which a frame is found in the sprite sheet.
pub open spec fn frame_name(f: Frame) -> Seq<char> {
    match f {
        Frame::Mid1 => "mid_1"@,
        Frame::Mid2 => "mid_2"@,
        Frame::Mid3 => "mid_3"@,
        Frame::Mid4 => "mid_4"@,
        Frame::Left => "left"@,
        Frame::Right => "right"@,
    }
}

/// The idle frame shown at animation index `idx`.
pub open spec fn idle_frame(idx: int) -> Frame {
    if idx == 0 {
        Frame::Mid1
    } else if idx == 1 {
        Frame::Mid2
    } else if idx == 2 {
        Frame::Mid3
    } else {
        Frame::Mid4
    }
}

impl Frame {
    /// The name under which this frame is found in the sprite sheet.
    pub fn name(&self) -> (s: &'static str)
        ensures
            s@ == frame_name(*self),
    {
        match self {
            Frame::Mid1 => "mid_1",
            Frame::Mid2 => "mid_2",
            Frame::Mid3 => "mid_3",
            Frame::Mid4 => "mid_4",
            Frame::Left => "left",
            Frame::Right => "right",
        }
    }
}

/// A rectangle of the sprite sheet, in pixels.
#[derive(Clone, Copy, PartialEq, Eq, Structural, Debug)]
pub struct SpriteRect {
    pub x: u32,
    pub y: u32,
    pub w: u32,
    pub h: u32,
}

pub open spec fn rect(x: u32, y: u32, w: u32, h: u32) -> SpriteRect {
    SpriteRect { x, y, w, h }
}

/// Where each frame lies in the sprite sheet: the four idle frames one above
/// the other, then the right and left frames beside the first.
pub open spec fn sprite_sheet() -> Map<Seq<char>, SpriteRect> {
    Map::empty()
        .insert("mid_1"@, rect(0, 0, 16, 16))
        .insert("mid_2"@, rect(0, 16, 16, 16))
        .insert("mid_3"@, rect(0, 32, 16, 16))
        .insert("mid_4"@, rect(0, 48, 16, 16))
        .insert("right"@, rect(16, 0, 16, 16))
        .insert("left"@, rect(32, 0, 16, 16))
}

/// The names of the eight compass directions, clockwise from north.
pub open spec fn direction_names() -> Seq<Seq<char>> {
    seq!["N"@, "NE"@, "E"@, "SE"@, "S"@, "SW"@, "W"@, "NW"@]
}

/// Builds the sprite sheet table.
pub fn init_sprite_rect() -> (m: NameTable<SpriteRect>)
    ensures
        m@ == sprite_sheet(),
{
    let mut m = NameTable::new();
    m.insert("mid_1", SpriteRect { x: 0, y: 0, w: 16, h: 16 });
    m.insert("mid_2", SpriteRect { x: 0, y: 16, w: 16, h: 16 });
    m.insert("mid_3", SpriteRect { x: 0, y: 32, w: 16, h: 16 });
    m.insert("mid_4", SpriteRect { x: 0, y: 48, w: 16, h: 16 });
    m.insert("right", SpriteRect { x: 16, y: 0, w: 16, h: 16 });
    m.insert("left", SpriteRect { x: 32, y: 0, w: 16, h: 16 });
    m
}

/// The keys held down (or, for the weapon keys, pressed) this frame.
#[derive(Clone, Copy, PartialEq, Eq, Structural, Debug)]
pub struct Controls {
    pub up: bool,
    pub down: bool,
    pub left: bool,
    pub right: bool,
    pub slow: bool,
    pub select_first: bool,
    pub select_second: bool,
    pub fire: bool,
}

/// The direction of movement asked for this frame: each of `vx` and `vy` is
/// -1, 0 or 1, and `slow` asks for the reduced speed.
#[derive(Clone, Copy, PartialEq, Eq, Structural, Debug)]
pub struct Steering {
    pub vx: i8,
    pub vy: i8,
    pub slow: bool,
}

pub open spec fn key_axis(negative: bool, positive: bool) -> int {
    (if positive { 1int } else { 0int }) - (if negative { 1int } else { 0int })
}

/// The discrete state of the player, as seen in contracts.
pub struct RumiaView {
    pub heading: Heading,
    pub animation_idx: usize,
    pub animation_frame: Frame,
    pub weapon_idx: usize,
    pub sprite_idx: u32,
}

/// The discrete state of the player.
pub struct RumiaState {
    heading: Heading,
    animation_idx: usize,
    animation_frame: Frame,
    weapon_idx: usize,
    sprite_idx: u32,
    sprite_list: Vec<&'static str>,
    sprite_rect: NameTable<SpriteRect>,
}

impl View for RumiaState {
    type V = RumiaView;

    closed spec fn view(&self) -> RumiaView {
        RumiaView {
            heading: self.heading,
            animation_idx: self.animation_idx,
            animation_frame: self.animation_frame,
            weapon_idx: self.weapon_idx,
            sprite_idx: self.sprite_idx,
        }
    }
}

impl RumiaState {
    #[verifier::type_invariant]
    spec fn well_formed(self) -> bool {
        &&& self.animation_idx < IDLE_FRAMES
        &&& self.weapon_idx < WEAPON_COUNT
        &&& self.sprite_rect@ == sprite_sheet()
        &&& self.sprite_list@.map_values(|s: &'static str| s@) == direction_names()
    }

    /// The sprite table the player is drawn from.
    pub closed spec fn sheet(self) -> Map<Seq<char>, SpriteRect> {
        self.sprite_rect@
    }

    /// The names of the direction sprites.
    pub closed spec fn sprite_names(self) -> Seq<Seq<char>> {
        self.sprite_list@.map_values(|s: &'static str| s@)
    }

    /// The state at the start of the game: heading nowhere, idle animation at
    /// index 1 showing the first idle frame, first weapon selected.
    pub fn new() -> (s: Self)
        ensures
            s@ == (RumiaView {
                heading: Heading::Mid,
                animation_idx: 1,
                animation_frame: Frame::Mid1,
                weapon_idx: 0,
                sprite_idx: 0,
            }),
            s.sheet() == sprite_sheet(),
            s.sprite_names() == direction_names(),
    {
        let sprite_list: Vec<&'static str> = vec!["N", "NE", "E", "SE", "S", "SW", "W", "NW"];
        assert(sprite_list@.map_values(|s: &'static str| s@) =~= direction_names());
        RumiaState {
            heading: Heading::Mid,
            animation_idx: 1,
            animation_frame: Frame::Mid1,
            weapon_idx: 0,
            sprite_idx: 0,
            sprite_list,
            sprite_rect: init_sprite_rect(),
        }
    }

    pub fn heading(&self) -> (h: Heading)
        ensures
            h == self@.heading,
    {
        self.heading
    }

    pub fn animation_idx(&self) -> (i: usize)
        ensures
            i == self@.animation_idx,
    {
        self.animation_idx
    }

    pub fn animation_frame(&self) -> (f: Frame)
        ensures
            f == self@.animation_frame,
    {
        self.animation_frame
    }

    pub fn weapon_idx(&self) -> (i: usize)
        ensures
            i == self@.weapon_idx,
    {
        self.weapon_idx
    }

    /// Reads this frame's keys: up and down give the vertical direction, left
    /// and right the horizontal one; left, then right, turn the player and
    /// show the matching frame, and with neither she heads nowhere and keeps
    /// her frame; the first and then the second weapon key select a weapon.
    pub fn steer(&mut self, controls: &Controls) -> (s: Steering)
        ensures
            s.vx == key_axis(controls.left, controls.right),
            s.vy == key_axis(controls.up, controls.down),
            controls.right && !controls.left ==> s.vx == 1,
            controls.left && !controls.right ==> s.vx == -1,
            controls.left == controls.right ==> s.vx == 0,
            controls.down && !controls.up ==> s.vy == 1,
            controls.up && !controls.down ==> s.vy == -1,
            controls.up == controls.down ==> s.vy == 0,
            s.slow == controls.slow,
            final(self)@.heading == (if controls.right {
                Heading::Right
            } else if controls.left {
                Heading::Left
            } else {
                Heading::Mid
            }),
            final(self)@.animation_frame == (if controls.right {
                Frame::Right
            } else if controls.left {
                Frame::Left
            } else {
                old(self)@.animation_frame
            }),
            final(self)@.weapon_idx == (if controls.select_second {
                1
            } else if controls.select_first {
                0
            } else {
                old(self)@.weapon_idx
            }),
            final(self)@.animation_idx == old(self)@.animation_idx,
            final(self)@.sprite_idx == old(self)@.sprite_idx,
            final(self).sheet() == old(self).sheet(),
            final(self).sprite_names() == old(self).sprite_names(),
    {
        proof {
            use_type_invariant(&*self);
        }
        let mut vx: i8 = 0;
        let mut vy: i8 = 0;
        self.heading = Heading::Mid;
        if controls.up {
            vy = vy - 1;
        }
        if controls.down {
            vy = vy + 1;
        }
        if controls.left {
            vx = vx - 1;
            self.heading = Heading::Left;
            self.animation_frame = Frame::Left;
        }
        if controls.right {
            vx = vx + 1;
            self.heading = Heading::Right;
            self.animation_frame = Frame::Right;
        }
        if controls.select_first {
            self.weapon_idx = 0;
        }
        if controls.select_second {
            self.weapon_idx = 1;
        }
        Steering { vx, vy, slow: controls.slow }
    }

    /// Moves the idle animation on by one frame, wrapping after the fourth.
    pub fn advance_animation(&mut self)
        ensures
            final(self)@.animation_idx == (old(self)@.animation_idx + 1) % (IDLE_FRAMES as int),
            final(self)@.animation_frame == idle_frame(final(self)@.animation_idx as int),
            final(self)@.heading == old(self)@.heading,
            final(self)@.weapon_idx == old(self)@.weapon_idx,
            final(self)@.sprite_idx == old(self)@.sprite_idx,
            final(self).sheet() == old(self).sheet(),
            final(self).sprite_names() == old(self).sprite_names(),
    {
        proof {
            use_type_invariant(&*self);
        }
        let mut idx = self.animation_idx + 1;
        if idx >= IDLE_FRAMES {
            idx = 0;
        }
        self.animation_idx = idx;
        if idx == 0 {
            self.animation_frame = Frame::Mid1;
        } else if idx == 1 {
            self.animation_frame = Frame::Mid2;
        } else if idx == 2 {
            self.animation_frame = Frame::Mid3;
        } else {
            self.animation_frame = Frame::Mid4;
        }
    }

    /// The weapon whose cooldown runs this frame: the selected one, or none
    /// when there are no weapons.
    pub fn weapon_to_update(&self, weapon_count: usize) -> (w: Option<usize>)
        requires
            weapon_count == 0 || self@.weapon_idx < weapon_count,
        ensures
            w == (if weapon_count == 0 {
                None
            } else {
                Some(self@.weapon_idx)
            }),
    {
        if weapon_count == 0 {
            None
        } else {
            Some(self.weapon_idx)
        }
    }

    /// The weapon that is asked to fire this frame: the selected one when the
    /// fire key is down, none otherwise or when there are no weapons.
    pub fn weapon_to_fire(&self, weapon_count: usize, fire: bool) -> (w: Option<usize>)
        requires
            weapon_count == 0 || !fire || self@.weapon_idx < weapon_count,
        ensures
            w == (if weapon_count != 0 && fire {
                Some(self@.weapon_idx)
            } else {
                None
            }),
    {
        if weapon_count == 0 {
            return None;
        }
        if fire {
            return Some(self.weapon_idx);
        }
        None
    }

    /// The rectangle of the selected direction sprite, if the sheet has one.
    pub fn direction_sprite(&self) -> (r: Option<SpriteRect>)
        ensures
            r == (if (self@.sprite_idx as int) < self.sprite_names().len()
                && self.sheet().contains_key(self.sprite_names()[self@.sprite_idx as int]) {
                Some(self.sheet()[self.sprite_names()[self@.sprite_idx as int]])
            } else {
                None
            }),
            r is None,
    {
        proof {
            use_type_invariant(self);
            lemma_direction_names_not_in_sheet();
        }
        let idx = self.sprite_idx as usize;
        if idx < self.sprite_list.len() {
            let name = self.sprite_list[idx];
            match self.sprite_rect.get(name) {
                Some(r) => Some(*r),
                None => None,
            }
        } else {
            None
        }
    }

    /// The rectangle of the frame the animation shows, if the sheet has one.
    pub fn animation_sprite(&self) -> (r: Option<SpriteRect>)
        ensures
            r == (if self.sheet().contains_key(frame_name(self@.animation_frame)) {
                Some(self.sheet()[frame_name(self@.animation_frame)])
            } else {
                None
            }),
            r == Some(sprite_sheet()[frame_name(self@.animation_frame)]),
            self@.animation_frame == Frame::Right ==> r == Some(SpriteRect { x: 16, y: 0, w: 16, h: 16 }),
            self@.animation_frame == Frame::Left ==> r == Some(SpriteRect { x: 32, y: 0, w: 16, h: 16 }),
            forall|i: int|
                0 <= i < IDLE_FRAMES && self@.animation_frame == #[trigger] idle_frame(i) ==> r == Some(
                    SpriteRect { x: 0, y: (16 * i) as u32, w: 16, h: 16 },
                ),
    {
        proof {
            use_type_invariant(self);
            lemma_every_frame_in_sheet(self.animation_frame);
            lemma_sprite_sheet_layout();
        }
        match self.sprite_rect.get(self.animation_frame.name()) {
            Some(r) => Some(*r),
            None => None,
        }
    }
}

/// Idle frame `i` (0 to 3) is the one named `mid_` followed by the digit
/// `i + 1`, so the four idle frames are distinct.
pub proof fn lemma_idle_frame_names()
    ensures
        forall|i: int|
            0 <= i < IDLE_FRAMES ==> frame_name(#[trigger] idle_frame(i)) =~= seq!['m', 'i', 'd', '_'].push(
                (('1' as int) + i) as char,
            ),
        forall|i: int, j: int|
            0 <= i < j < IDLE_FRAMES ==> #[trigger] idle_frame(i) != #[trigger] idle_frame(j),
{
    lemma_frame_names();
    assert forall|i: int|
        0 <= i < IDLE_FRAMES implies frame_name(#[trigger] idle_frame(i)) =~= seq!['m', 'i', 'd', '_'].push(
            (('1' as int) + i) as char,
        ) by {
        if i == 0 {
            assert((('1' as int) + 0) as char == '1');
        } else if i == 1 {
            assert((('1' as int) + 1) as char == '2');
        } else if i == 2 {
            assert((('1' as int) + 2) as char == '3');
        } else {
            assert((('1' as int) + 3) as char == '4');
        }
    }
}

/// Horizontal and vertical input: the axis is +1 with only its positive key
/// (right, down), -1 with only its negative key (left, up), and 0 with both or
/// neither.
pub proof fn lemma_key_axis()
    ensures
        key_axis(false, true) == 1,
        key_axis(true, false) == -1,
        forall|b: bool| #[trigger] key_axis(b, b) == 0,
{
}

/// Each frame is found under its own name: the names are the literal sprite
/// names, and no two frames share one.
pub proof fn lemma_frame_names()
    ensures
        frame_name(Frame::Mid1) =~= seq!['m', 'i', 'd', '_', '1'],
        frame_name(Frame::Mid2) =~= seq!['m', 'i', 'd', '_', '2'],
        frame_name(Frame::Mid3) =~= seq!['m', 'i', 'd', '_', '3'],
        frame_name(Frame::Mid4) =~= seq!['m', 'i', 'd', '_', '4'],
        frame_name(Frame::Left) =~= seq!['l', 'e', 'f', 't'],
        frame_name(Frame::Right) =~= seq!['r', 'i', 'g', 'h', 't'],
        forall|f: Frame, g: Frame| #[trigger] frame_name(f) == #[trigger] frame_name(g) ==> f == g,
{
    reveal_strlit("mid_1");
    reveal_strlit("mid_2");
    reveal_strlit("mid_3");
    reveal_strlit("mid_4");
    reveal_strlit("left");
    reveal_strlit("right");
    assert("mid_1"@ =~= seq!['m', 'i', 'd', '_', '1']);
    assert("mid_2"@ =~= seq!['m', 'i', 'd', '_', '2']);
    assert("mid_3"@ =~= seq!['m', 'i', 'd', '_', '3']);
    assert("mid_4"@ =~= seq!['m', 'i', 'd', '_', '4']);
    assert("left"@ =~= seq!['l', 'e', 'f', 't']);
    assert("right"@ =~= seq!['r', 'i', 'g', 'h', 't']);
}

/// The layout of the sprite sheet: idle frame `i` (0 to 3) is the 16x16 cell
/// at (0, 16 i), the right frame the cell at (16, 0) and the left frame the
/// cell at (32, 0); so the four idle frames show four different cells.
pub proof fn lemma_sprite_sheet_layout()
    ensures
        forall|i: int|
            0 <= i < IDLE_FRAMES ==> sprite_sheet()[frame_name(#[trigger] idle_frame(i))] == (SpriteRect {
                x: 0,
                y: (16 * i) as u32,
                w: 16,
                h: 16,
            }),
        sprite_sheet()[frame_name(Frame::Right)] == (SpriteRect { x: 16, y: 0, w: 16, h: 16 }),
        sprite_sheet()[frame_name(Frame::Left)] == (SpriteRect { x: 32, y: 0, w: 16, h: 16 }),
        forall|i: int, j: int|
            0 <= i < j < IDLE_FRAMES ==> sprite_sheet()[frame_name(#[trigger] idle_frame(i))]
                != sprite_sheet()[frame_name(#[trigger] idle_frame(j))],
{
    lemma_frame_names();
    assert(frame_name(idle_frame(0)) == frame_name(Frame::Mid1));
    assert(frame_name(idle_frame(1)) == frame_name(Frame::Mid2));
    assert(frame_name(idle_frame(2)) == frame_name(Frame::Mid3));
    assert(frame_name(idle_frame(3)) == frame_name(Frame::Mid4));
    assert(frame_name(Frame::Mid1) != frame_name(Frame::Mid2));
    assert(frame_name(Frame::Mid1) != frame_name(Frame::Mid3));
    assert(frame_name(Frame::Mid1) != frame_name(Frame::Mid4));
    assert(frame_name(Frame::Mid1) != frame_name(Frame::Right));
    assert(frame_name(Frame::Mid1) != frame_name(Frame::Left));
    assert(frame_name(Frame::Mid2) != frame_name(Frame::Mid3));
    assert(frame_name(Frame::Mid2) != frame_name(Frame::Mid4));
    assert(frame_name(Frame::Mid2) != frame_name(Frame::Right));
    assert(frame_name(Frame::Mid2) != frame_name(Frame::Left));
    assert(frame_name(Frame::Mid3) != frame_name(Frame::Mid4));
    assert(frame_name(Frame::Mid3) != frame_name(Frame::Right));
    assert(frame_name(Frame::Mid3) != frame_name(Frame::Left));
    assert(frame_name(Frame::Mid4) != frame_name(Frame::Right));
    assert(frame_name(Frame::Mid4) != frame_name(Frame::Left));
    assert(frame_name(Frame::Right) != frame_name(Frame::Left));
}

/// Every frame the player can show has a rectangle in the sprite sheet, so
/// the animation always finds its sprite.
pub proof fn lemma_every_frame_in_sheet(f: Frame)
    ensures
        sprite_sheet().contains_key(frame_name(f)),
{
}

/// None of the direction sprite names is a name of the sprite sheet, so the
/// direction sprite is never found.
pub proof fn lemma_direction_names_not_in_sheet()
    ensures
        forall|i: int| 0 <= i < direction_names().len() ==> !sprite_sheet().contains_key(#[trigger] direction_names()[i]),
{
    reveal_strlit("mid_1");
    reveal_strlit("mid_2");
    reveal_strlit("mid_3");
    reveal_strlit("mid_4");
    reveal_strlit("right");
    reveal_strlit("left");
    reveal_strlit("N");
    reveal_strlit("NE");
    reveal_strlit("E");
    reveal_strlit("SE");
    reveal_strlit("S");
    reveal_strlit("SW");
    reveal_strlit("W");
    reveal_strlit("NW");
    assert("mid_1"@.len() == 5);
    assert("mid_2"@.len() == 5);
    assert("mid_3"@.len() == 5);
    assert("mid_4"@.len() == 5);
    assert("right"@.len() == 5);
    assert("left"@.len() == 4);
    assert("N"@.len() == 1);
    assert("NE"@.len() == 2);
    assert("E"@.len() == 1);
    assert("SE"@.len() == 2);
    assert("S"@.len() == 1);
    assert("SW"@.len() == 2);
    assert("W"@.len() == 1);
    assert("NW"@.len() == 2);
}

/// The animation index after one more idle frame.
pub open spec fn next_idle(idx: int) -> int {
    (idx + 1) % (IDLE_FRAMES as int)
}

/// The idle animation is a cycle of four frames: from any index below four,
/// each step stays below four and shows the frame of its index, and four steps
/// come back to the index they started from.
pub proof fn lemma_idle_cycle(idx: int)
    requires
        0 <= idx < IDLE_FRAMES,
    ensures
        0 <= next_idle(idx) < IDLE_FRAMES,
        next_idle(next_idle(next_idle(next_idle(idx)))) == idx,
        idle_frame(next_idle(idx)) != idle_frame(idx),
{
}

/// After `k` idle steps from index `idx`, the animation is at `(idx + k) % 4`.
pub open spec fn idle_after(idx: int, k: nat) -> int
    decreases k,
{
    if k == 0 {
        idx
    } else {
        next_idle(idle_after(idx, (k - 1) as nat))
    }
}

/// `k` idle steps from an index below four land on index `(idx + k) % 4`.
pub proof fn lemma_idle_after(idx: int, k: nat)
    requires
        0 <= idx < IDLE_FRAMES,
    ensures
        idle_after(idx, k) == (idx + k) % (IDLE_FRAMES as int),
    decreases k,
{
    if k > 0 {
        lemma_idle_after(idx, (k - 1) as nat);
        assert(((idx + k - 1) % 4 + 1) % 4 == (idx + k) % 4) by (nonlinear_arith)
            requires idx + k >= 1;
    }
}

/// Whatever keys are pressed, the selected weapon stays one the player
/// carries, so the weapon asked to cool down or to fire always exists.
pub proof fn lemma_weapon_selection_in_range(weapon_idx: usize, controls: Controls)
    requires
        weapon_idx < WEAPON_COUNT,
    ensures
        (if controls.select_second {
            1
        } else if controls.select_first {
            0
        } else {
            weapon_idx
        }) < WEAPON_COUNT,
{
}

/// Pushes `head` onto the front of a fixed-length trajectory: every point
/// moves one place back and the last one drops out.
pub fn shift_trajectory<T: Copy, const N: usize>(traje: &mut [T; N], head: T)
    ensures
        final(traje)@.len() == N,
        N > 0 ==> final(traje)@ == seq![head] + old(traje)@.take(N - 1),
        N == 0 ==> final(traje)@ == old(traje)@,
{
    let mut i: usize = N;
    while i > 1
        invariant
            1 <= i <= N || (i == 0 && N == 0),
            traje@.len() == N,
            forall|j: int| 0 <= j < i ==> #[trigger] traje@[j] == old(traje)@[j],
            forall|j: int| i <= j < N ==> #[trigger] traje@[j] == old(traje)@[j - 1],
        decreases i,
    {
        i = i - 1;
        let prev = traje[i - 1];
        traje[i] = prev;
    }
    if N > 0 {
        traje[0] = head;
        assert(traje@ =~= seq![head] + old(traje)@.take(N - 1));
    }
}

} // verus!
