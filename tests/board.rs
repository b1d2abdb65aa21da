use bounce_game::entity::Entity;
use bounce_game::game::Game;

fn entity(x: usize, y: usize, right: bool, down: bool) -> Entity {
    Entity { position: (x, y), going_right: right, going_down: down }
}

fn game(area: (usize, usize), player: (usize, usize), coin: (usize, usize)) -> Game {
    Game {
        enemies: Vec::new(),
        player: entity(player.0, player.1, false, false),
        play_area: area,
        coin_pos: coin,
        score: 0,
    }
}

fn diff(a: usize, b: usize) -> usize {
    if a > b { a - b } else { b - a }
}

#[test]
fn grid_has_a_frame_cell_around_the_board() {
    let g = game((10, 8), (5, 4), (1, 1));
    let pixels = g.render_board();
    assert_eq!(pixels.len(), 10);
    assert!(pixels.iter().all(|row| row.len() == 12));
}

#[test]
fn player_at_origin_lights_its_block_the_frame_and_the_coin() {
    let (w, h) = (10usize, 8usize);
    let g = game((w, h), (0, 0), (8, 6));
    let pixels = g.render_board();
    for gy in 0..h + 2 {
        for gx in 0..w + 2 {
            let frame = ((gx == 0 || gx == w + 1) && gy % 2 == 0)
                || ((gy == 0 || gy == h + 1) && gx % 2 == 0);
            let inner = gx != 0 && gy != 0 && {
                let (x, y) = (gx - 1, gy - 1);
                (x < 3 && y < 2) || (diff(8, x) < 2 && diff(6, y) < 2)
            };
            let marker = gx == 0 && gy == 0;
            assert_eq!(pixels[gy][gx], frame || inner || marker, "cell ({}, {})", gx, gy);
        }
    }
    // The player's 5x3 block, cut by the board's corner.
    assert!(pixels[1][1] && pixels[1][3] && pixels[2][3]);
    assert!(!pixels[1][4] && !pixels[3][1]);
    // Frame dashes: odd cells of the first column and row stay dark.
    assert!(pixels[0][2] && !pixels[0][1] && pixels[2][0] && !pixels[3][0]);
}

#[test]
fn marker_lights_the_cell_indexed_by_the_player_position() {
    // Player at (3, 0): its grid cell (3, 0) is on the first row, off the dashes.
    let g = game((10, 8), (3, 0), (8, 6));
    let pixels = g.render_board();
    assert!(pixels[0][3]);
    assert!(!pixels[0][5]);
}

#[test]
fn enemy_lights_a_five_by_three_block() {
    let mut g = game((20, 20), (2, 2), (17, 17));
    g.enemies.push(entity(10, 10, true, true));
    let pixels = g.render_board();
    for y in 0..20usize {
        for x in 0..20usize {
            let enemy = diff(10, x) < 3 && diff(10, y) < 2;
            let player = diff(2, x) < 3 && diff(2, y) < 2;
            let coin = diff(17, x) < 2 && diff(17, y) < 2;
            let marker = x + 1 == 2 && y + 1 == 2;
            assert_eq!(pixels[y + 1][x + 1], enemy || player || coin || marker);
        }
    }
}

#[test]
fn coin_lights_a_three_by_three_block() {
    let g = game((20, 20), (2, 2), (10, 10));
    let pixels = g.render_board();
    assert!(pixels[10][10] && pixels[12][12] && pixels[10][12]);
    assert!(!pixels[13][11] && !pixels[11][13]);
}

#[test]
fn rendering_twice_gives_identical_grids() {
    let mut g = game((15, 9), (7, 4), (2, 2));
    g.enemies.push(entity(12, 6, false, true));
    assert_eq!(g.render_board(), g.render_board());
}

#[test]
fn capture_scores_and_moves_coin_onto_the_board() {
    // After the tick the player is at (11, 11); the coin at (16, 15) is 5 and 4 away.
    let mut g = game((60, 80), (10, 10), (16, 15));
    g.player.going_right = true;
    g.player.going_down = true;
    g.update_board();
    assert_eq!(g.player.position, (11, 11));
    assert_eq!(g.score, 1);
    assert!(g.coin_pos.0 < 60 && g.coin_pos.1 < 80);
}

#[test]
fn coin_out_of_reach_stays_put() {
    // After the tick the player is at (11, 11); the coin at (17, 15) is 6 away.
    let mut g = game((60, 80), (10, 10), (17, 15));
    g.player.going_right = true;
    g.player.going_down = true;
    g.update_board();
    assert_eq!(g.score, 0);
    assert_eq!(g.coin_pos, (17, 15));
    let mut g = game((60, 80), (10, 10), (16, 16));
    g.player.going_right = true;
    g.player.going_down = true;
    g.update_board();
    assert_eq!(g.score, 0);
    assert_eq!(g.coin_pos, (16, 16));
}

#[test]
fn capture_uses_the_moved_player() {
    // Before the tick the player at (10, 10) is 6 away; after it, 5.
    let mut g = game((60, 80), (10, 10), (16, 10));
    g.player.going_right = true;
    g.update_board();
    assert_eq!(g.player.position, (11, 9));
    assert_eq!(g.score, 1);
}

#[test]
fn tick_moves_enemies_then_player() {
    let mut g = game((60, 80), (30, 30), (0, 0));
    g.enemies.push(entity(0, 0, false, false));
    g.enemies.push(entity(59, 79, true, true));
    g.update_board();
    assert_eq!(g.enemies[0].position, (1, 1));
    assert_eq!(g.enemies[1].position, (58, 78));
    assert_eq!(g.player.position, (29, 29));
}

#[test]
fn random_position_lies_on_board() {
    let g = game((3, 2), (0, 0), (0, 0));
    for _ in 0..200 {
        let (x, y) = g.get_random_position_on_board();
        assert!(x < 3 && y < 2);
    }
    let g = game((1, 1), (0, 0), (0, 0));
    assert_eq!(g.get_random_position_on_board(), (0, 0));
}

#[test]
fn two_events_between_polls_toggle_like_one() {
    let mut once = game((60, 80), (5, 5), (40, 40));
    let mut twice = game((60, 80), (5, 5), (40, 40));
    assert_eq!(once.apply_input(3, 4), 1);
    assert_eq!(twice.apply_input(3, 5), 2);
    assert!(once.player.going_right);
    assert_eq!(once.player.going_right, twice.player.going_right);
}

#[test]
fn unchanged_counter_keeps_heading() {
    let mut g = game((60, 80), (5, 5), (40, 40));
    assert_eq!(g.apply_input(7, 7), 0);
    assert!(!g.player.going_right);
}

#[test]
fn coin_captured_reports_reach() {
    assert!(game((60, 80), (10, 10), (15, 14)).coin_captured());
    assert!(game((60, 80), (10, 10), (5, 6)).coin_captured());
    assert!(!game((60, 80), (10, 10), (4, 10)).coin_captured());
}

#[test]
fn collect_coin_scores_and_respawns() {
    let mut g = game((60, 80), (10, 10), (12, 12));
    g.collect_coin((40, 50));
    assert_eq!(g.score, 1);
    assert_eq!(g.coin_pos, (40, 50));
}

#[test]
fn inside_board_needs_no_overflow() {
    let g = game((60, 80), (0, 0), (0, 0));
    assert!(g.is_inside_board(((59, false), (79, false))));
    assert!(!g.is_inside_board(((60, false), (0, false))));
    assert!(!g.is_inside_board(((0, true), (0, false))));
    assert!(!g.is_inside_board(((0, false), (80, false))));
}
