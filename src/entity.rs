use vstd::prelude::*;

verus! {

/// A coordinate moved one step, with a flag telling whether the step left
/// the unsigned range (the coordinate is then clamped to zero).
pub type Step = (usize, bool);

/// One step along an axis: `p + 1` when `increasing`, else `p - 1`; a result
/// outside the range of `usize` becomes `(0, true)`.
pub open spec fn axis_step(p: usize, increasing: bool) -> Step {
    let t: int = if increasing {
        p + 1
    } else {
        p - 1
    };
    if 0 <= t <= usize::MAX {
        (t as usize, false)
    } else {
        (0, true)
    }
}

/// The heading of an axis after a tentative step to `t` on an axis of length
/// `bound`: an underflow turns it to increasing, reaching the far wall turns it
/// to decreasing, and otherwise it is kept.
pub open spec fn axis_heading(t: Step, heading: bool, bound: usize) -> bool {
    if t.1 {
        true
    } else if t.0 >= bound {
        false
    } else {
        heading
    }
}

/// A moving square on the board: its position and its heading on each axis
/// (`true` means towards larger coordinates).
#[derive(Clone, Copy, Debug, PartialEq, Eq)]
pub struct Entity {
    pub position: (usize, usize),
    pub going_right: bool,
    pub going_down: bool,
}

impl Entity {
    /// The tentative position one step along the current headings.
    pub open spec fn tentative(self) -> (Step, Step) {
        (axis_step(self.position.0, self.going_right), axis_step(self.position.1, self.going_down))
    }

    /// The headings after a tentative move to `t` on a board of size `area`.
    pub open spec fn headings_after(self, t: (Step, Step), area: (usize, usize)) -> (bool, bool) {
        (axis_heading(t.0, self.going_right, area.0), axis_heading(t.1, self.going_down, area.1))
    }

    /// The entity after one tick on a board of size `area`: the headings are
    /// corrected against the walls first, then the entity steps along them.
    pub open spec fn advanced(self, area: (usize, usize)) -> Entity {
        let (r, d) = self.headings_after(self.tentative(), area);
        Entity {
            position: (axis_step(self.position.0, r).0, axis_step(self.position.1, d).0),
            going_right: r,
            going_down: d,
        }
    }

    /// The position lies on a board of size `area`.
    pub open spec fn inside(self, area: (usize, usize)) -> bool {
        self.position.0 < area.0 && self.position.1 < area.1
    }

    /// Advances the entity by one tick on a board of size `play_area`.
    pub fn update_entity(&mut self, play_area: (usize, usize))
        ensures
            *final(self) == old(self).advanced(play_area),
            old(self).inside(play_area) && play_area.0 >= 2 && play_area.1 >= 2
                ==> final(self).inside(play_area),
    {
        let tentative = self.calc_new_position();
        let headings = self.calc_new_headings(tentative, play_area);
        self.going_right = headings.0;
        self.going_down = headings.1;
        let corrected = self.calc_new_position();
        self.position = (corrected.0.0, corrected.1.0);
    }

    /// The position one step along the current headings, each coordinate with
    /// its overflow flag; an overflowed coordinate is clamped to zero.
    pub fn calc_new_position(&self) -> (r: (Step, Step))
        ensures
            r == self.tentative(),
    {
        (step_axis(self.position.0, self.going_right), step_axis(self.position.1, self.going_down))
    }

    /// The headings `(going_right, going_down)` that follow a tentative move to
    /// `new_position` on a board of size `play_area`.
    pub fn calc_new_headings(&self, new_position: (Step, Step), play_area: (usize, usize)) -> (r:
        (bool, bool))
        ensures
            r == self.headings_after(new_position, play_area),
    {
        (
            heading_for(new_position.0, self.going_right, play_area.0),
            heading_for(new_position.1, self.going_down, play_area.1),
        )
    }
}

impl Default for Entity {
    /// An entity at the origin, heading left and up.
    fn default() -> (r: Entity)
        ensures
            r == (Entity { position: (0, 0), going_right: false, going_down: false }),
    {
        Entity { position: (0, 0), going_right: false, going_down: false }
    }
}

fn step_axis(p: usize, increasing: bool) -> (r: Step)
    ensures
        r == axis_step(p, increasing),
{
    if increasing {
        if p == usize::MAX {
            (0, true)
        } else {
            (p + 1, false)
        }
    } else {
        if p == 0 {
            (0, true)
        } else {
            (p - 1, false)
        }
    }
}

fn heading_for(t: Step, heading: bool, bound: usize) -> (r: bool)
    ensures
        r == axis_heading(t, heading, bound),
{
    if t.1 {
        true
    } else if t.0 >= bound {
        false
    } else {
        heading
    }
}

/// An entity that starts on a board whose sides are at least two cells long
/// stays on it after a tick.
pub proof fn lemma_advance_stays_inside(e: Entity, area: (usize, usize))
    requires
        e.inside(area),
        area.0 >= 2,
        area.1 >= 2,
    ensures
        e.advanced(area).inside(area),
{
}

/// An entity in the last column that heads right turns around and ends one
/// column further left.
pub proof fn lemma_bounce_off_right_wall(e: Entity, area: (usize, usize))
    requires
        area.0 >= 2,
        e.position.0 == area.0 - 1,
        e.going_right,
    ensures
        e.advanced(area).position.0 == area.0 - 2,
        !e.advanced(area).going_right,
{
}

} // verus!
