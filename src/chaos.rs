use vstd::prelude::*;
use vstd::math::abs;

verus! {

/// Smallest radius a new circle can have, in pixels.
pub const RADIUS_MIN: i64 = 20;

/// Radii of new circles stay below this, in pixels.
pub const RADIUS_MAX: i64 = 80;

/// Largest speed of a new circle along each axis, in pixels per tick.
pub const SPEED_MAX: i64 = 2;

/// Smallest opacity of a new circle, out of 255.
pub const ALPHA_MIN: u8 = 77;

/// Largest opacity of a new circle, out of 255.
pub const ALPHA_MAX: u8 = 229;

/// Positions, speeds and radii stay within this many pixels of zero, so that
/// the arithmetic of a tick cannot overflow.
pub const COORD_LIMIT: i64 = 0x100_0000_0000;

/// Window size, in pixels, that gives a scale of one along each axis.
pub const REFERENCE_WIDTH: u64 = 1024;

pub const REFERENCE_HEIGHT: u64 = 768;

/// The scale never drops below this, in thousandths.
pub const MIN_SCALE_PERMILLE: u64 = 500;

/// A colour with 8-bit red, green, blue and opacity channels.
#[derive(Clone, Copy, Debug, PartialEq, Eq, Structural)]
pub struct Rgba {
    pub r: u8,
    pub g: u8,
    pub b: u8,
    pub a: u8,
}

/// A circle that moves in a straight line and bounces off the window edges.
#[derive(Clone, Copy, Debug, PartialEq, Eq, Structural)]
pub struct ChaosCircle {
    pub x: i64,
    pub y: i64,
    pub vx: i64,
    pub vy: i64,
    pub radius: i64,
    pub color: Rgba,
}

/// `v` brought into `[lo, hi]`; when the interval is empty, `lo` wins below it
/// and `hi` everywhere else.
pub open spec fn clamp(v: int, lo: int, hi: int) -> int {
    if v < lo {
        lo
    } else if v > hi {
        hi
    } else {
        v
    }
}

/// Whether a circle of radius `r` centred at `p` sticks out of `[0, bound]`.
pub open spec fn crosses(p: int, r: int, bound: int) -> bool {
    p - r < 0 || p + r > bound
}

/// Position and speed along one axis after a tick: move by the speed; if the
/// circle then sticks out, reverse the speed and pull the circle back inside.
pub open spec fn axis_step(p: int, v: int, r: int, bound: int) -> (int, int) {
    let q = p + v;
    if crosses(q, r, bound) {
        (clamp(q, r, bound - r), -v)
    } else {
        (q, v)
    }
}

impl ChaosCircle {
    /// Coordinates small enough that a tick cannot overflow.
    pub open spec fn within_limits(self) -> bool {
        &&& -COORD_LIMIT <= self.x <= COORD_LIMIT
        &&& -COORD_LIMIT <= self.y <= COORD_LIMIT
        &&& -COORD_LIMIT <= self.vx <= COORD_LIMIT
        &&& -COORD_LIMIT <= self.vy <= COORD_LIMIT
        &&& 0 <= self.radius <= COORD_LIMIT
    }

    /// The whole circle lies inside a `width` by `height` window.
    pub open spec fn contained(self, width: int, height: int) -> bool {
        &&& self.radius <= self.x <= width - self.radius
        &&& self.radius <= self.y <= height - self.radius
    }

    /// The circle after one tick in a `width` by `height` window.
    pub open spec fn stepped(self, width: int, height: int) -> ChaosCircle {
        let (x, vx) = axis_step(self.x as int, self.vx as int, self.radius as int, width);
        let (y, vy) = axis_step(self.y as int, self.vy as int, self.radius as int, height);
        ChaosCircle { x: x as i64, y: y as i64, vx: vx as i64, vy: vy as i64, ..self }
    }
}

/// Window sizes in which a new circle of any allowed radius fits.
pub open spec fn spawn_fits(width: u32, height: u32) -> bool {
    width >= 2 * RADIUS_MAX && height >= 2 * RADIUS_MAX
}

/// Relies on rand::random_range: a number drawn from the thread-local
/// generator, within the inclusive range it is given.
#[verifier::external_body]
fn random_between(lo: i64, hi: i64) -> (r: i64)
    requires
        lo <= hi,
    ensures
        lo <= r <= hi,
{
    rand::random_range(lo..=hi)
}

fn clamp_exec(v: i64, lo: i64, hi: i64) -> (r: i64)
    ensures
        r == clamp(v as int, lo as int, hi as int),
{
    if v < lo {
        lo
    } else if v > hi {
        hi
    } else {
        v
    }
}

/// One axis of a tick, on machine integers.
fn axis_step_exec(p: i64, v: i64, r: i64, bound: u32) -> (res: (i64, i64))
    requires
        -COORD_LIMIT <= p <= COORD_LIMIT,
        -COORD_LIMIT <= v <= COORD_LIMIT,
        0 <= r <= COORD_LIMIT,
    ensures
        res.0 == axis_step(p as int, v as int, r as int, bound as int).0,
        res.1 == axis_step(p as int, v as int, r as int, bound as int).1,
        -COORD_LIMIT <= res.0 <= COORD_LIMIT,
        -COORD_LIMIT <= res.1 <= COORD_LIMIT,
{
    let q = p + v;
    let b = bound as i64;
    if q - r < 0 || q + r > b {
        (clamp_exec(q, r, b - r), -v)
    } else {
        (q, v)
    }
}

/// A tick keeps a circle within the limits, and inside a window it fits in.
proof fn lemma_stepped(c: ChaosCircle, width: u32, height: u32)
    requires
        c.within_limits(),
    ensures
        c.stepped(width as int, height as int).within_limits(),
        2 * c.radius <= width && 2 * c.radius <= height ==> c.stepped(
            width as int,
            height as int,
        ).contained(width as int, height as int),
{
}

impl ChaosCircle {
    /// A circle with a random radius in `[RADIUS_MIN, RADIUS_MAX)`, placed
    /// wholly inside the window, with a random speed in
    /// `[-SPEED_MAX, SPEED_MAX]` along each axis and a random colour whose
    /// opacity lies in `[ALPHA_MIN, ALPHA_MAX]`.
    pub fn random(bounds_width: u32, bounds_height: u32) -> (c: ChaosCircle)
        requires
            spawn_fits(bounds_width, bounds_height),
        ensures
            RADIUS_MIN <= c.radius < RADIUS_MAX,
            c.contained(bounds_width as int, bounds_height as int),
            -SPEED_MAX <= c.vx <= SPEED_MAX,
            -SPEED_MAX <= c.vy <= SPEED_MAX,
            ALPHA_MIN <= c.color.a <= ALPHA_MAX,
            c.within_limits(),
    {
        let radius = random_between(RADIUS_MIN, RADIUS_MAX - 1);
        let x = random_between(radius, bounds_width as i64 - radius);
        let y = random_between(radius, bounds_height as i64 - radius);
        let vx = random_between(-SPEED_MAX, SPEED_MAX);
        let vy = random_between(-SPEED_MAX, SPEED_MAX);
        let r = random_between(0, 255) as u8;
        let g = random_between(0, 255) as u8;
        let b = random_between(0, 255) as u8;
        let a = random_between(ALPHA_MIN as i64, ALPHA_MAX as i64) as u8;
        ChaosCircle { x, y, vx, vy, radius, color: Rgba { r, g, b, a } }
    }

    /// Moves the circle by its speed, and bounces it off any edge of the
    /// `bounds_width` by `bounds_height` window that it crosses: the speed
    /// along that axis changes sign and the circle is pulled back inside.
    pub fn update_physics(&mut self, bounds_width: u32, bounds_height: u32)
        requires
            old(self).within_limits(),
        ensures
            *final(self) == old(self).stepped(bounds_width as int, bounds_height as int),
            final(self).within_limits(),
            final(self).radius == old(self).radius,
            final(self).color == old(self).color,
            // a bounce keeps the speed along each axis and only turns it round
            final(self).vx == old(self).vx || final(self).vx == -old(self).vx,
            final(self).vy == old(self).vy || final(self).vy == -old(self).vy,
            crosses(old(self).x + old(self).vx, old(self).radius as int, bounds_width as int)
                ==> final(self).vx == -old(self).vx,
            crosses(old(self).y + old(self).vy, old(self).radius as int, bounds_height as int)
                ==> final(self).vy == -old(self).vy,
            2 * old(self).radius <= bounds_width && 2 * old(self).radius <= bounds_height
                ==> final(self).contained(bounds_width as int, bounds_height as int),
    {
        let (x, vx) = axis_step_exec(self.x, self.vx, self.radius, bounds_width);
        let (y, vy) = axis_step_exec(self.y, self.vy, self.radius, bounds_height);
        self.x = x;
        self.vx = vx;
        self.y = y;
        self.vy = vy;
    }
}

/// The bouncing circles and the controls around them.
pub struct Chaos {
    circles: Vec<ChaosCircle>,
    paused: bool,
    canvas_size: (u32, u32),
}

/// What can happen to the simulation.
#[derive(Clone, Copy, Debug, PartialEq, Eq, Structural)]
pub enum Message {
    SpawnChaos,
    PanicChaos,
    Tick,
    WindowResized(u32, u32),
}

/// What the host should do after an update.
#[derive(Clone, Copy, Debug, PartialEq, Eq, Structural)]
pub enum Action {
    Nothing,
}

/// The abstract state of a `Chaos`.
pub struct ChaosView {
    pub circles: Seq<ChaosCircle>,
    pub paused: bool,
    pub width: u32,
    pub height: u32,
}

impl View for Chaos {
    type V = ChaosView;

    closed spec fn view(&self) -> ChaosView {
        ChaosView {
            circles: self.circles@,
            paused: self.paused,
            width: self.canvas_size.0,
            height: self.canvas_size.1,
        }
    }
}

impl ChaosView {
    /// Every circle is small enough for the arithmetic of a tick.
    pub open spec fn wf(self) -> bool {
        forall|i: int| 0 <= i < self.circles.len() ==> #[trigger] self.circles[i].within_limits()
    }

    /// After a spawn of `c`: appended unless paused.
    pub open spec fn spawned(self, c: ChaosCircle) -> ChaosView {
        if self.paused {
            self
        } else {
            ChaosView { circles: self.circles.push(c), ..self }
        }
    }

    /// After a tick: every circle stepped once.
    pub open spec fn ticked(self) -> ChaosView {
        ChaosView {
            circles: self.circles.map_values(
                |c: ChaosCircle| c.stepped(self.width as int, self.height as int),
            ),
            ..self
        }
    }

    /// After a clear that also pauses.
    pub open spec fn cleared_and_paused(self) -> ChaosView {
        ChaosView { circles: Seq::empty(), paused: true, ..self }
    }

    /// After a clear that also resumes.
    pub open spec fn cleared_and_unpaused(self) -> ChaosView {
        ChaosView { circles: Seq::empty(), paused: false, ..self }
    }

    /// After the window was resized.
    pub open spec fn resized(self, width: u32, height: u32) -> ChaosView {
        ChaosView { width, height, ..self }
    }

    /// The scale factor in thousandths: the smaller of the two ratios to the
    /// reference size, rounded down, and never below `MIN_SCALE_PERMILLE`.
    pub open spec fn scale_permille(self) -> int {
        let sw = self.width * 1000 / (REFERENCE_WIDTH as int);
        let sh = self.height * 1000 / (REFERENCE_HEIGHT as int);
        let s = if sw <= sh {
            sw
        } else {
            sh
        };
        if s >= MIN_SCALE_PERMILLE {
            s
        } else {
            MIN_SCALE_PERMILLE as int
        }
    }
}

impl Chaos {
    /// No circles, running, in an 800 by 600 window.
    pub fn new() -> (r: Chaos)
        ensures
            r@.wf(),
            r@.circles.len() == 0,
            !r@.paused,
            r@.width == 800,
            r@.height == 600,
    {
        Chaos { circles: Vec::new(), paused: false, canvas_size: (800, 600) }
    }

    /// Adds `circle` unless the simulation is paused.
    pub fn spawn(&mut self, circle: ChaosCircle)
        requires
            old(self)@.wf(),
            circle.within_limits(),
        ensures
            final(self)@ == old(self)@.spawned(circle),
            final(self)@.wf(),
            old(self)@.paused ==> final(self)@.circles.len() == old(self)@.circles.len(),
            !old(self)@.paused ==> final(self)@.circles.len() == old(self)@.circles.len() + 1,
    {
        if !self.paused {
            self.circles.push(circle);
            proof {
                assert(self@.circles =~= old(self)@.circles.push(circle));
            }
        }
    }

    /// Moves every circle one tick within the current window.
    pub fn tick(&mut self)
        requires
            old(self)@.wf(),
        ensures
            final(self)@ == old(self)@.ticked(),
            final(self)@.wf(),
            forall|i: int|
                0 <= i < final(self)@.circles.len() && 2 * old(self)@.circles[i].radius
                    <= old(self)@.width && 2 * old(self)@.circles[i].radius <= old(self)@.height
                    ==> #[trigger] final(self)@.circles[i].contained(
                    old(self)@.width as int,
                    old(self)@.height as int,
                ),
    {
        let (w, h) = self.canvas_size;
        let n = self.circles.len();
        let mut i: usize = 0;
        while i < n
            invariant
                0 <= i <= n,
                n == old(self)@.circles.len(),
                self@.circles.len() == n,
                self@.paused == old(self)@.paused,
                self@.width == w,
                self@.height == h,
                w == old(self)@.width,
                h == old(self)@.height,
                forall|j: int| 0 <= j < i ==> #[trigger] self@.circles[j] == old(self)@.circles[j].stepped(w as int, h as int),
                forall|j: int| i <= j < n ==> #[trigger] self@.circles[j] == old(self)@.circles[j],
                old(self)@.wf(),
            decreases n - i,
        {
            let mut c = self.circles[i];
            proof {
                assert(old(self)@.circles[i as int].within_limits());
            }
            c.update_physics(w, h);
            self.circles.set(i, c);
            i = i + 1;
        }
        proof {
            assert(self@.circles =~= old(self)@.ticked().circles);
            assert forall|j: int| 0 <= j < n implies #[trigger] self@.circles[j].within_limits() by {
                assert(old(self)@.circles[j].within_limits());
                lemma_stepped(old(self)@.circles[j], w, h);
            }
            assert forall|j: int|
                0 <= j < n && 2 * old(self)@.circles[j].radius <= w && 2 * old(
                    self,
                )@.circles[j].radius <= h implies #[trigger] self@.circles[j].contained(
                w as int,
                h as int,
            ) by {
                assert(old(self)@.circles[j].within_limits());
                lemma_stepped(old(self)@.circles[j], w, h);
            }
        }
    }

    /// Empties the simulation and stops new circles from appearing.
    pub fn clear_and_pause(&mut self)
        ensures
            final(self)@ == old(self)@.cleared_and_paused(),
            final(self)@.wf(),
            final(self)@.circles.len() == 0,
            final(self)@.paused,
    {
        self.circles.clear();
        self.paused = true;
        proof {
            assert(self@.circles =~= Seq::<ChaosCircle>::empty());
        }
    }

    /// Empties the simulation and lets new circles appear again.
    pub fn clear_and_unpause(&mut self)
        ensures
            final(self)@ == old(self)@.cleared_and_unpaused(),
            final(self)@.wf(),
            final(self)@.circles.len() == 0,
            !final(self)@.paused,
    {
        self.circles.clear();
        self.paused = false;
        proof {
            assert(self@.circles =~= Seq::<ChaosCircle>::empty());
        }
    }

    /// Records a new window size; circles move back inside at their next bounce.
    pub fn resize(&mut self, width: u32, height: u32)
        requires
            old(self)@.wf(),
        ensures
            final(self)@ == old(self)@.resized(width, height),
            final(self)@.wf(),
    {
        self.canvas_size = (width, height);
        proof {
            assert(self@.circles == old(self)@.circles);
        }
    }

    /// Applies one message. Spawning draws a random circle (see
    /// `ChaosCircle::random`) and needs a window in which any circle fits.
    pub fn update(&mut self, message: Message) -> (r: Action)
        requires
            old(self)@.wf(),
            message == Message::SpawnChaos && !old(self)@.paused ==> spawn_fits(
                old(self)@.width,
                old(self)@.height,
            ),
        ensures
            r == Action::Nothing,
            final(self)@.wf(),
            message == Message::SpawnChaos ==> {
                if old(self)@.paused {
                    final(self)@ == old(self)@
                } else {
                    exists|c: ChaosCircle|
                        {
                            &&& final(self)@ == old(self)@.spawned(c)
                            &&& RADIUS_MIN <= c.radius < RADIUS_MAX
                            &&& c.contained(old(self)@.width as int, old(self)@.height as int)
                            &&& -SPEED_MAX <= c.vx <= SPEED_MAX
                            &&& -SPEED_MAX <= c.vy <= SPEED_MAX
                            &&& ALPHA_MIN <= c.color.a <= ALPHA_MAX
                        }
                }
            },
            message == Message::PanicChaos ==> final(self)@ == old(self)@.cleared_and_paused(),
            message == Message::Tick ==> final(self)@ == old(self)@.ticked(),
            message matches Message::WindowResized(w, h) ==> final(self)@ == old(self)@.resized(w, h),
    {
        match message {
            Message::SpawnChaos => {
                if !self.paused {
                    let (w, h) = self.canvas_size;
                    let c = ChaosCircle::random(w, h);
                    self.spawn(c);
                }
            },
            Message::PanicChaos => self.clear_and_pause(),
            Message::Tick => self.tick(),
            Message::WindowResized(width, height) => self.resize(width, height),
        }
        Action::Nothing
    }

    /// The circles, in the order in which they appeared.
    pub fn circles(&self) -> (r: &[ChaosCircle])
        ensures
            r@ == self@.circles,
    {
        self.circles.as_slice()
    }

    /// Whether new circles are held back.
    pub fn is_paused(&self) -> (r: bool)
        ensures
            r == self@.paused,
    {
        self.paused
    }

    /// The window size the circles bounce in.
    pub fn canvas_size(&self) -> (r: (u32, u32))
        ensures
            r == (self@.width, self@.height),
    {
        self.canvas_size
    }

    /// Whether any new circle fits in the current window, as a spawn needs.
    pub fn fits_new_circle(&self) -> (r: bool)
        ensures
            r == spawn_fits(self@.width, self@.height),
    {
        self.canvas_size.0 as i64 >= 2 * RADIUS_MAX && self.canvas_size.1 as i64 >= 2 * RADIUS_MAX
    }

    /// Scale factor for sizing the interface, in thousandths.
    pub fn scale(&self) -> (r: u64)
        ensures
            r == self@.scale_permille(),
    {
        let (w, h) = self.canvas_size;
        let sw = (w as u64) * 1000 / REFERENCE_WIDTH;
        let sh = (h as u64) * 1000 / REFERENCE_HEIGHT;
        let s = if sw <= sh {
            sw
        } else {
            sh
        };
        if s >= MIN_SCALE_PERMILLE {
            s
        } else {
            MIN_SCALE_PERMILLE
        }
    }
}

/// Once cleared and paused, spawning changes nothing until the simulation
/// is resumed.
pub proof fn lemma_spawn_after_pause_is_noop(s: ChaosView, c: ChaosCircle)
    ensures
        s.cleared_and_paused().spawned(c) == s.cleared_and_paused(),
        s.cleared_and_paused().circles.len() == 0,
        s.cleared_and_paused().paused,
{
}

/// Spawning while paused never adds a circle; spawning while running adds
/// exactly the given one at the end.
pub proof fn lemma_spawn_count(s: ChaosView, c: ChaosCircle)
    ensures
        s.paused ==> s.spawned(c).circles.len() == s.circles.len(),
        !s.paused ==> s.spawned(c).circles.len() == s.circles.len() + 1,
        !s.paused ==> s.spawned(c).circles.last() == c,
{
}

/// After a tick, every circle that fits in the window lies wholly inside it.
pub proof fn lemma_tick_contains(s: ChaosView, i: int)
    requires
        s.wf(),
        0 <= i < s.circles.len(),
        2 * s.circles[i].radius <= s.width,
        2 * s.circles[i].radius <= s.height,
    ensures
        s.ticked().circles[i].contained(s.width as int, s.height as int),
{
    let c = s.circles[i];
    assert(c.within_limits());
}

/// A bounce reverses the speed along the axis it happens on and keeps its size.
pub proof fn lemma_bounce_keeps_speed(c: ChaosCircle, width: int, height: int)
    requires
        c.within_limits(),
    ensures
        abs(c.stepped(width, height).vx as int) == abs(c.vx as int),
        abs(c.stepped(width, height).vy as int) == abs(c.vy as int),
        crosses(c.x + c.vx, c.radius as int, width) ==> c.stepped(width, height).vx == -c.vx,
        crosses(c.y + c.vy, c.radius as int, height) ==> c.stepped(width, height).vy == -c.vy,
{
}

} // verus!
