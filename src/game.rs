use vstd::prelude::*;

use crate::entity::{Entity, Step};
use crate::geometry::{abs_diff, dist};
use crate::random::random_below;

verus! {

/// Half-width of the player's block: it lights the cells less than this far
/// away horizontally.
pub const PLAYER_HALF_WIDTH: usize = 3;

/// Half-height of the player's block.
pub const PLAYER_HALF_HEIGHT: usize = 2;

/// Half-size of the coin's square block, on both axes.
pub const COIN_HALF_SIZE: usize = 2;

/// Half-width of an enemy's block.
pub const ENEMY_HALF_WIDTH: usize = 3;

/// Half-height of an enemy's block.
pub const ENEMY_HALF_HEIGHT: usize = 2;

/// How much further than its own block the player reaches for the coin.
pub const CAPTURE_MARGIN: usize = 2;

/// The block of half-size `(w, h)` centred on `p` covers the board cell `(x, y)`.
pub open spec fn covers(p: (usize, usize), x: usize, y: usize, w: usize, h: usize) -> bool {
    dist(p.0, x) < w && dist(p.1, y) < h
}

/// A player at `player` is close enough to the coin at `coin` to take it.
pub open spec fn captures(player: (usize, usize), coin: (usize, usize)) -> bool {
    dist(player.0, coin.0) <= PLAYER_HALF_WIDTH + CAPTURE_MARGIN && dist(player.1, coin.1)
        <= PLAYER_HALF_HEIGHT + CAPTURE_MARGIN
}

/// The rows of a pixel grid, each as a sequence.
pub open spec fn grid_view(g: &Vec<Vec<bool>>) -> Seq<Seq<bool>> {
    g@.map_values(|row: Vec<bool>| row@)
}

/// The board: its size `(width, height)`, the enemies, the player, the coin
/// and the score.
pub struct Game {
    pub enemies: Vec<Entity>,
    pub player: Entity,
    pub play_area: (usize, usize),
    pub coin_pos: (usize, usize),
    pub score: u32,
}

impl Game {
    /// Both sides are positive, the pixel grid's sides fit in `usize`, and
    /// every entity and the coin lie on the board.
    pub open spec fn wf(&self) -> bool {
        &&& 0 < self.play_area.0
        &&& 0 < self.play_area.1
        &&& self.play_area.0 + 2 <= usize::MAX
        &&& self.play_area.1 + 2 <= usize::MAX
        &&& self.player.inside(self.play_area)
        &&& self.coin_pos.0 < self.play_area.0
        &&& self.coin_pos.1 < self.play_area.1
        &&& forall|i: int|
            0 <= i < self.enemies@.len() ==> (#[trigger] self.enemies@[i]).inside(self.play_area)
    }

    /// The grid cell `(gx, gy)` belongs to the dashed frame.
    pub open spec fn border_lit(&self, gx: int, gy: int) -> bool {
        ((gx == 0 || gx == self.play_area.0 + 1) && gy % 2 == 0) || ((gy == 0 || gy
            == self.play_area.1 + 1) && gx % 2 == 0)
    }

    /// The enemy at index `i` covers the board cell `(x, y)`.
    pub open spec fn enemy_covers(&self, i: int, x: usize, y: usize) -> bool {
        covers(self.enemies@[i].position, x, y, ENEMY_HALF_WIDTH, ENEMY_HALF_HEIGHT)
    }

    /// Some block (player, coin or enemy) covers the board cell `(x, y)`.
    pub open spec fn covered(&self, x: usize, y: usize) -> bool {
        ||| covers(self.player.position, x, y, PLAYER_HALF_WIDTH, PLAYER_HALF_HEIGHT)
        ||| covers(self.coin_pos, x, y, COIN_HALF_SIZE, COIN_HALF_SIZE)
        ||| exists|i: int| 0 <= i < self.enemies@.len() && #[trigger] self.enemy_covers(i, x, y)
    }

    /// Whether the grid cell `(gx, gy)` is lit: the frame's dashes; a cell off
    /// the first row and column whose board cell `(gx - 1, gy - 1)` some block
    /// covers; and the cell that the player's position indexes in the grid.
    pub open spec fn pixel(&self, gx: int, gy: int) -> bool {
        ||| self.border_lit(gx, gy)
        ||| (gx != 0 && gy != 0 && self.covered((gx - 1) as usize, (gy - 1) as usize))
        ||| (gx == self.player.position.0 && gy == self.player.position.1)
    }

    /// The pixel grid of the board: `height + 2` rows of `width + 2` cells.
    pub open spec fn pixels(&self) -> Seq<Seq<bool>> {
        Seq::new(
            (self.play_area.1 + 2) as nat,
            |gy: int| Seq::new((self.play_area.0 + 2) as nat, |gx: int| self.pixel(gx, gy)),
        )
    }

    /// The game after the input counter went from `latest` to `current`: the
    /// player's horizontal heading turns once if the counter changed at all.
    pub open spec fn after_input(&self, latest: usize, current: usize) -> Game {
        if latest != current {
            Game {
                player: Entity { going_right: !self.player.going_right, ..self.player },
                enemies: self.enemies,
                ..*self
            }
        } else {
            Game { enemies: self.enemies, ..*self }
        }
    }

    /// A position drawn at random on the board.
    pub fn get_random_position_on_board(&self) -> (r: (usize, usize))
        requires
            0 < self.play_area.0,
            0 < self.play_area.1,
        ensures
            r.0 < self.play_area.0,
            r.1 < self.play_area.1,
    {
        (random_below(self.play_area.0), random_below(self.play_area.1))
    }

    /// Whether a tentative position, with its overflow flags, lies on the board.
    pub fn is_inside_board(&self, position: (Step, Step)) -> (r: bool)
        ensures
            r == (!position.0.1 && !position.1.1 && position.0.0 < self.play_area.0
                && position.1.0 < self.play_area.1),
    {
        !position.0.1 && !position.1.1 && position.0.0 < self.play_area.0 && position.1.0
            < self.play_area.1
    }

    /// Whether the grid cell `(gx, gy)` is lit.
    fn pixel_at(&self, gx: usize, gy: usize) -> (r: bool)
        requires
            self.wf(),
            gx < self.play_area.0 + 2,
            gy < self.play_area.1 + 2,
        ensures
            r == self.pixel(gx as int, gy as int),
    {
        let width = self.play_area.0;
        let height = self.play_area.1;
        let marker = gx == self.player.position.0 && gy == self.player.position.1;
        if ((gx == 0 || gx == width + 1) && gy % 2 == 0) || ((gy == 0 || gy == height + 1) && gx
            % 2 == 0) {
            return true;
        }
        if gx == 0 || gy == 0 {
            return marker;
        }
        let x = gx - 1;
        let y = gy - 1;
        if abs_diff(self.player.position.0, x) < PLAYER_HALF_WIDTH && abs_diff(
            self.player.position.1,
            y,
        ) < PLAYER_HALF_HEIGHT {
            return true;
        }
        if abs_diff(self.coin_pos.0, x) < COIN_HALF_SIZE && abs_diff(self.coin_pos.1, y)
            < COIN_HALF_SIZE {
            return true;
        }
        let mut hit = false;
        let mut i: usize = 0;
        while i < self.enemies.len()
            invariant
                i <= self.enemies@.len(),
                hit == exists|j: int| 0 <= j < i && #[trigger] self.enemy_covers(j, x, y),
            decreases self.enemies@.len() - i,
        {
            let enemy = self.enemies[i];
            if abs_diff(enemy.position.0, x) < ENEMY_HALF_WIDTH && abs_diff(enemy.position.1, y)
                < ENEMY_HALF_HEIGHT {
                assert(self.enemy_covers(i as int, x, y));
                hit = true;
            }
            i = i + 1;
        }
        hit || marker
    }

    /// Rasterizes the board into `height + 2` rows of `width + 2` pixels.
    pub fn render_board(&self) -> (r: Vec<Vec<bool>>)
        requires
            self.wf(),
        ensures
            grid_view(&r) == self.pixels(),
    {
        let width = self.play_area.0;
        let height = self.play_area.1;
        let mut pixels: Vec<Vec<bool>> = Vec::new();
        let mut gy: usize = 0;
        while gy < height + 2
            invariant
                self.wf(),
                width == self.play_area.0,
                height == self.play_area.1,
                gy <= height + 2,
                pixels@.len() == gy,
                forall|j: int| 0 <= j < gy ==> (#[trigger] pixels@[j])@ == self.pixels()[j],
            decreases height + 2 - gy,
        {
            let mut row: Vec<bool> = Vec::new();
            let mut gx: usize = 0;
            while gx < width + 2
                invariant
                    self.wf(),
                    width == self.play_area.0,
                    height == self.play_area.1,
                    gy < height + 2,
                    gx <= width + 2,
                    row@.len() == gx,
                    forall|k: int| 0 <= k < gx ==> row@[k] == self.pixel(k, gy as int),
                decreases width + 2 - gx,
            {
                let lit = self.pixel_at(gx, gy);
                row.push(lit);
                gx = gx + 1;
            }
            assert(row@ =~= self.pixels()[gy as int]);
            pixels.push(row);
            gy = gy + 1;
        }
        assert(grid_view(&pixels) =~= self.pixels());
        pixels
    }

    /// Advances every enemy and then the player by one tick.
    pub fn step_entities(&mut self)
        ensures
            final(self).play_area == old(self).play_area,
            final(self).coin_pos == old(self).coin_pos,
            final(self).score == old(self).score,
            final(self).player == old(self).player.advanced(old(self).play_area),
            final(self).enemies@ == old(self).enemies@.map_values(
                |e: Entity| e.advanced(old(self).play_area),
            ),
    {
        let area = self.play_area;
        let mut i: usize = 0;
        while i < self.enemies.len()
            invariant
                area == self.play_area,
                area == old(self).play_area,
                self.player == old(self).player,
                self.coin_pos == old(self).coin_pos,
                self.score == old(self).score,
                i <= self.enemies@.len(),
                self.enemies@.len() == old(self).enemies@.len(),
                forall|j: int|
                    0 <= j < i ==> self.enemies@[j] == (#[trigger] old(self).enemies@[j]).advanced(
                        area,
                    ),
                forall|j: int| i <= j < self.enemies@.len() ==> self.enemies@[j] == old(self).enemies@[j],
            decreases self.enemies@.len() - i,
        {
            let mut enemy = self.enemies[i];
            enemy.update_entity(area);
            self.enemies.set(i, enemy);
            i = i + 1;
        }
        self.player.update_entity(area);
        assert(self.enemies@ =~= old(self).enemies@.map_values(|e: Entity| e.advanced(area)));
    }

    /// Whether the player is close enough to the coin to take it.
    pub fn coin_captured(&self) -> (r: bool)
        ensures
            r == captures(self.player.position, self.coin_pos),
    {
        abs_diff(self.player.position.0, self.coin_pos.0) <= PLAYER_HALF_WIDTH + CAPTURE_MARGIN
            && abs_diff(self.player.position.1, self.coin_pos.1) <= PLAYER_HALF_HEIGHT
            + CAPTURE_MARGIN
    }

    /// Takes the coin: the score grows by one and the coin moves to `respawn`.
    pub fn collect_coin(&mut self, respawn: (usize, usize))
        requires
            old(self).score < u32::MAX,
        ensures
            final(self).score == old(self).score + 1,
            final(self).coin_pos == respawn,
            final(self).enemies == old(self).enemies,
            final(self).player == old(self).player,
            final(self).play_area == old(self).play_area,
    {
        self.score = self.score + 1;
        self.coin_pos = respawn;
    }

    /// One tick: every entity moves; if the player then reaches the coin, the
    /// score grows by one and the coin reappears at a random cell of the board.
    pub fn update_board(&mut self)
        requires
            old(self).wf(),
            old(self).score < u32::MAX,
        ensures
            final(self).play_area == old(self).play_area,
            final(self).player == old(self).player.advanced(old(self).play_area),
            final(self).enemies@ == old(self).enemies@.map_values(
                |e: Entity| e.advanced(old(self).play_area),
            ),
            captures(final(self).player.position, old(self).coin_pos) ==> final(self).score
                == old(self).score + 1 && final(self).coin_pos.0 < final(self).play_area.0
                && final(self).coin_pos.1 < final(self).play_area.1,
            !captures(final(self).player.position, old(self).coin_pos) ==> final(self).score
                == old(self).score && final(self).coin_pos == old(self).coin_pos,
            old(self).play_area.0 >= 2 && old(self).play_area.1 >= 2 ==> final(self).wf(),
    {
        self.step_entities();
        if self.coin_captured() {
            let respawn = self.get_random_position_on_board();
            self.collect_coin(respawn);
        }
        proof {
            let area = self.play_area;
            if area.0 >= 2 && area.1 >= 2 {
                assert forall|i: int| 0 <= i < self.enemies@.len() implies (
                #[trigger] self.enemies@[i]).inside(area) by {
                    crate::entity::lemma_advance_stays_inside(old(self).enemies@[i], area);
                }
                crate::entity::lemma_advance_stays_inside(old(self).player, area);
            }
        }
    }

    /// Reacts to the input counter having gone from `latest` to `current`: if
    /// it changed, the player's horizontal heading turns once, however many
    /// events arrived. Returns how many lines the display must move its cursor
    /// up to undo the echoed input lines.
    pub fn apply_input(&mut self, latest: usize, current: usize) -> (lines_up: usize)
        requires
            latest <= current,
        ensures
            *final(self) == old(self).after_input(latest, current),
            lines_up == current - latest,
    {
        if latest != current {
            self.player.going_right = !self.player.going_right;
        }
        current - latest
    }
}

/// Rendering reads the state alone: two renderings of one game state give the
/// same grid.
pub proof fn lemma_render_repeatable(g: Game, first: Vec<Vec<bool>>, second: Vec<Vec<bool>>)
    requires
        grid_view(&first) == g.pixels(),
        grid_view(&second) == g.pixels(),
    ensures
        grid_view(&first) == grid_view(&second),
{
}

/// Two or more input events between two polls turn the player's heading just
/// as one event does.
pub proof fn lemma_events_toggle_once(g: Game, latest: usize, current: usize)
    requires
        latest < current,
        latest + 1 <= usize::MAX,
    ensures
        g.after_input(latest, current) == g.after_input(latest, (latest + 1) as usize),
        g.after_input(latest, current).player.going_right == !g.player.going_right,
{
}

} // verus!
