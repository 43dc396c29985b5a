use unipac::board::Board;
use unipac::dice::Dice;
use unipac::event::{Command, Event, InputEvent};
use unipac::game::{wander, Game};
use unipac::geometry::{Direction, Position};
use unipac::ghost::{Adversary, GhostState};
use unipac::period::Period;
use unipac::player::Player;
use unipac::square::Square;

fn at(col: usize, row: usize) -> Position {
    Position::from_xy(col, row)
}

fn ghost(
    pos: Position,
    state: GhostState,
    edible_duration: u128,
    direction: Direction,
) -> Adversary {
    Adversary { pos, state, edible_duration, direction }
}

fn put_player(game: &mut Game, pos: Position, direction: Direction) {
    let p = Player {
        pos,
        dead: false,
        last_input_direction: direction,
        moving: direction,
        anim_frame: 0,
        timecum: 0,
    };
    assert!(game.set_player(p));
}

fn dots_on(game: &Game) -> Vec<Position> {
    let board = game.board();
    (0..board.len()).map(Position).filter(|p| board.at(*p) == Square::Dot).collect()
}

fn check_invariants(game: &Game) {
    let board = game.board();
    assert_eq!(game.dots_left(), board.dots() + game.fruit_tokens());
    assert!(game.fruit_tokens() <= 2);
    assert!(board.is_inner(game.player().pos));
    for g in game.ghosts() {
        assert!(board.is_inner(g.pos));
        if g.state == GhostState::Gateway {
            assert_eq!(board.at(g.pos), Square::Gate);
        }
    }
    assert!(game.player().anim_frame < 6);
    assert!(game.lives() <= 6);
}

const ARENA: [&str; 5] = [
    "############################",
    "#p........................$#",
    "#.###########--###########.#",
    "#.###########HH###########.#",
    "############################",
];

#[test]
fn new_game_starts_the_first_level() {
    let game = Game::new();
    assert_eq!(game.level(), 0);
    assert_eq!(game.lives(), 3);
    assert_eq!(game.score(), 0);
    assert_eq!(game.high_score(), 9710);
    assert_eq!(game.timecum(), 0);
    assert_eq!(game.pill_duration(), 6000);
    assert_eq!(game.fruit_duration(), 0);
    assert_eq!(game.next_ghost_score(), 0);
    assert_eq!(game.dots_left(), 211);
    assert_eq!(game.fruit_tokens(), 2);
    assert_eq!(game.period(), Period::Scatter);
    assert_eq!(game.board().height(), 24);
    let p = game.player();
    assert_eq!(p.pos, at(13, 18));
    assert!(!p.dead);
    assert_eq!(p.moving, Direction::Left);
    assert_eq!(p.last_input_direction, Direction::Left);
    assert_eq!((p.anim_frame, p.timecum), (0, 0));
    let corners = [at(12, 10), at(15, 10), at(12, 12), at(15, 12)];
    for (g, corner) in game.ghosts().iter().zip(corners) {
        assert_eq!(*g, Adversary::new(corner));
    }
    check_invariants(&game);
}

#[test]
fn game_on_a_board_of_ones_own() {
    let board = Board::from_rows(&ARENA).unwrap();
    let game = Game::with_board(board, 5);
    assert_eq!(game.level(), 5);
    assert_eq!(game.dots_left(), 30);
    assert_eq!(game.player().pos, at(1, 1));
    assert_eq!(game.ghosts()[0].pos, at(13, 3));
    assert_eq!(game.ghosts()[3].pos, at(14, 3));
    check_invariants(&game);
}

#[test]
fn wander_directions() {
    assert_eq!(wander(0), Direction::Left);
    assert_eq!(wander(1), Direction::Right);
    assert_eq!(wander(2), Direction::Up);
    assert_eq!(wander(3), Direction::Down);
    assert_eq!(wander(4), Direction::Left);
    assert_eq!(wander(255), Direction::Down);
}

#[test]
fn eating_a_dot() {
    let mut game = Game::new();
    let (moved, events) = game.move_player(at(12, 18));
    assert!(moved);
    assert_eq!(events, vec![]);
    assert_eq!(game.score(), 10);
    assert_eq!(game.dots_left(), 210);
    assert_eq!(game.player().pos, at(12, 18));
    assert_eq!(game.board().at(at(12, 18)), Square::Empty);
    let (moved, events) = game.move_player(at(12, 18));
    assert!(moved);
    assert_eq!(events, vec![]);
    assert_eq!(game.score(), 10);
    assert_eq!(game.dots_left(), 210);
    check_invariants(&game);
}

#[test]
fn walls_gates_and_the_house_refuse_the_player() {
    let mut game = Game::new();
    for pos in [at(13, 17), at(13, 9), at(12, 10), at(0, 0), Position(672), Position(usize::MAX)] {
        let (moved, events) = game.move_player(pos);
        assert!(!moved);
        assert_eq!(events, vec![]);
        assert_eq!(game.player().pos, at(13, 18));
        assert_eq!(game.score(), 0);
        assert_eq!(game.dots_left(), 211);
    }
}

#[test]
fn empty_tunnel_and_start_squares_change_nothing_else() {
    let mut game = Game::new();
    for pos in [at(12, 14), at(0, 11), at(13, 18), at(12, 8)] {
        let (moved, events) = game.move_player(pos);
        assert!(moved);
        assert_eq!(events, vec![]);
        assert_eq!(game.player().pos, pos);
        assert_eq!(game.score(), 0);
        assert_eq!(game.dots_left(), 211);
    }
}

#[test]
fn eating_a_pill_frightens_those_outside_and_on_a_gate() {
    let mut game = Game::new();
    assert!(game.set_ghost(0, ghost(at(6, 4), GhostState::Outside, 0, Direction::Up)));
    assert!(game.set_ghost(1, ghost(at(13, 9), GhostState::Gateway, 100, Direction::Left)));
    assert!(game.set_ghost(2, ghost(at(9, 8), GhostState::Dead, 0, Direction::Up)));
    let (moved, events) = game.move_player(at(1, 18));
    assert!(moved);
    assert_eq!(events, vec![Event::PillEaten]);
    assert_eq!(game.score(), 50);
    assert_eq!(game.next_ghost_score(), 200);
    assert_eq!(game.dots_left(), 211);
    assert_eq!(game.board().at(at(1, 18)), Square::Empty);
    let g = game.ghosts();
    assert_eq!(g[0].edible_duration, 6000);
    assert_eq!(g[1].edible_duration, 6100);
    assert_eq!(g[2].edible_duration, 0);
    assert_eq!(g[3].edible_duration, 0);
    assert_eq!(g[3].state, GhostState::Home);
    game.move_player(at(26, 18));
    let g = game.ghosts();
    assert_eq!(g[0].edible_duration, 12000);
    assert_eq!(g[1].edible_duration, 12100);
    assert_eq!(game.score(), 100);
    check_invariants(&game);
}

#[test]
fn vulnerability_saturates() {
    let mut game = Game::new();
    assert!(game.set_ghost(0, ghost(at(6, 4), GhostState::Outside, u128::MAX - 5, Direction::Up)));
    game.ghosts_are_edible(10);
    assert_eq!(game.ghosts()[0].edible_duration, u128::MAX);
}

#[test]
fn fruit_counts_only_while_it_shows() {
    let mut game = Game::new();
    let (moved, events) = game.move_player(at(13, 14));
    assert!(moved);
    assert_eq!(events, vec![]);
    assert_eq!(game.score(), 0);
    game.set_fruit_duration(500);
    let (moved, events) = game.move_player(at(13, 14));
    assert!(moved);
    assert_eq!(events, vec![Event::FruitEaten(100)]);
    assert_eq!(game.score(), 100);
    assert_eq!(game.fruit_duration(), 0);
    assert_eq!(game.board().at(at(13, 14)), Square::Fruit);
    let (_, events) = game.move_player(at(13, 14));
    assert_eq!(events, vec![]);
    assert_eq!(game.score(), 100);
}

#[test]
fn fruit_is_worth_more_at_higher_levels() {
    let mut game = Game::new();
    game.next_level();
    game.next_level();
    game.set_fruit_duration(1);
    let (_, events) = game.move_player(game.board().fruit());
    assert_eq!(events, vec![Event::FruitEaten(500)]);
    assert_eq!(game.score(), 500);
}

#[test]
fn player_follows_the_input_and_falls_back() {
    let mut game = Game::new();
    assert_eq!(game.handle_input(InputEvent::Direction(Direction::Up)), Command::Proceed);
    let events = game.update_player(50);
    assert_eq!(events, vec![]);
    let p = game.player();
    assert_eq!(p.pos, at(12, 18));
    assert_eq!(p.moving, Direction::Left);
    assert_eq!(p.last_input_direction, Direction::Up);
    assert_eq!(game.score(), 10);
    game.update_player(50);
    assert_eq!(game.player().pos, at(12, 17));
    assert_eq!(game.player().moving, Direction::Up);
    game.update_player(50);
    assert_eq!(game.player().pos, at(12, 16));
    assert_eq!(game.score(), 30);
    game.update_player(50);
    assert_eq!(game.player().pos, at(12, 16));
    assert_eq!(game.player().moving, Direction::Up);
    assert_eq!(game.score(), 30);
    game.handle_input(InputEvent::Direction(Direction::Left));
    game.update_player(50);
    let p = game.player();
    assert_eq!(p.pos, at(11, 16));
    assert_eq!(p.moving, Direction::Left);
    game.handle_input(InputEvent::Direction(Direction::Down));
    game.update_player(50);
    let p = game.player();
    assert_eq!(p.pos, at(10, 16));
    assert_eq!(p.moving, Direction::Left);
    assert_eq!(p.last_input_direction, Direction::Down);
    assert_eq!(game.score(), 50);
    assert_eq!(game.dots_left(), 206);
    assert_eq!(game.high_score(), 9710);
    check_invariants(&game);
}

#[test]
fn player_animates_even_when_stuck() {
    let mut game = Game::new();
    put_player(&mut game, at(1, 1), Direction::Left);
    let events = game.update_player(250);
    assert_eq!(events, vec![]);
    let p = game.player();
    assert_eq!(p.pos, at(1, 1));
    assert_eq!((p.timecum, p.anim_frame), (50, 2));
    assert_eq!(game.score(), 0);
}

#[test]
fn player_wraps_through_the_tunnel() {
    let mut game = Game::new();
    put_player(&mut game, at(1, 11), Direction::Left);
    game.update_player(10);
    assert_eq!(game.player().pos, at(0, 11));
    game.update_player(10);
    assert_eq!(game.player().pos, at(27, 11));
    game.update_player(10);
    assert_eq!(game.player().pos, at(26, 11));
}

#[test]
fn extra_life_comes_once_at_ten_thousand() {
    let mut game = Game::new();
    game.set_score(9990);
    let events = game.update_player(10);
    assert_eq!(events, vec![Event::ExtraLifeGranted]);
    assert_eq!(game.score(), 10000);
    assert_eq!(game.lives(), 4);
    assert_eq!(game.high_score(), 10000);
    let events = game.update_player(10);
    assert_eq!(events, vec![]);
    assert_eq!(game.score(), 10010);
    assert_eq!(game.lives(), 4);
    assert_eq!(game.high_score(), 10010);
}

#[test]
fn extra_life_stops_at_six_lives() {
    let mut game = Game::new();
    game.set_score(9990);
    game.set_lives(6);
    let events = game.update_player(10);
    assert_eq!(events, vec![]);
    assert_eq!(game.lives(), 6);
    let mut game = Game::new();
    game.set_score(9990);
    game.set_lives(5);
    assert_eq!(game.update_player(10), vec![Event::ExtraLifeGranted]);
    assert_eq!(game.lives(), 6);
}

#[test]
fn pill_and_extra_life_in_one_move() {
    let mut game = Game::new();
    game.set_score(9960);
    put_player(&mut game, at(2, 18), Direction::Left);
    let events = game.update_player(10);
    assert_eq!(events, vec![Event::PillEaten, Event::ExtraLifeGranted]);
    assert_eq!(game.score(), 10010);
    assert_eq!(game.lives(), 4);
}

#[test]
fn score_saturates() {
    let mut game = Game::new();
    game.set_score(u32::MAX - 3);
    game.update_player(10);
    assert_eq!(game.score(), u32::MAX);
    assert_eq!(game.high_score(), u32::MAX);
}

#[test]
fn calm_ghost_kills_the_player() {
    let mut game = Game::new();
    assert!(game.set_ghost(2, ghost(at(13, 18), GhostState::Outside, 0, Direction::Left)));
    let events = game.check_player_vs_ghosts();
    assert_eq!(events, vec![]);
    assert!(game.player().dead);
    assert_eq!(game.ghosts()[2].state, GhostState::Outside);
    assert_eq!(game.score(), 0);
    assert_eq!(game.settle_with(0), vec![Event::PlayerDied]);
}

#[test]
fn dead_ghost_is_harmless() {
    let mut game = Game::new();
    assert!(game.set_ghost(2, ghost(at(13, 18), GhostState::Dead, 0, Direction::Left)));
    assert_eq!(game.check_player_vs_ghosts(), vec![]);
    assert!(!game.player().dead);
}

#[test]
fn combo_doubles_from_one_catch_to_the_next() {
    let mut game = Game::new();
    assert_eq!(game.level(), 0);
    game.set_pill_duration(6000);
    assert!(game.set_ghost(0, ghost(at(1, 17), GhostState::Outside, 0, Direction::Down)));
    assert!(game.set_ghost(1, ghost(at(1, 16), GhostState::Outside, 0, Direction::Down)));
    put_player(&mut game, at(2, 18), Direction::Left);
    assert_eq!(game.update_player(100), vec![Event::PillEaten]);
    assert_eq!(game.check_player_vs_ghosts(), vec![]);
    assert_eq!(game.ghosts()[0].edible_duration, 6000);
    assert_eq!(game.ghosts()[1].edible_duration, 6000);
    assert_eq!(game.next_ghost_score(), 200);
    game.handle_input(InputEvent::Direction(Direction::Up));
    assert_eq!(game.update_player(100), vec![]);
    assert_eq!(game.player().pos, at(1, 17));
    assert_eq!(game.check_player_vs_ghosts(), vec![Event::GhostEaten(200)]);
    assert_eq!(game.next_ghost_score(), 400);
    assert_eq!(game.update_player(100), vec![]);
    assert_eq!(game.player().pos, at(1, 16));
    assert_eq!(game.check_player_vs_ghosts(), vec![Event::GhostEaten(400)]);
    assert_eq!(game.next_ghost_score(), 800);
    let g = game.ghosts();
    for i in 0..2 {
        assert_eq!(g[i].state, GhostState::Dead);
        assert_eq!(g[i].edible_duration, 0);
    }
    assert_eq!(game.score(), 50 + 10 + 200 + 10 + 400);
    assert!(!game.player().dead);
    check_invariants(&game);
}

#[test]
fn two_ghosts_on_one_square_are_eaten_in_slot_order() {
    let mut game = Game::new();
    game.move_player(at(1, 18));
    assert!(game.set_ghost(3, ghost(at(1, 18), GhostState::Outside, 10, Direction::Up)));
    assert!(game.set_ghost(1, ghost(at(1, 18), GhostState::Gateway, 10, Direction::Up)) == false);
    assert!(game.set_ghost(1, ghost(at(1, 18), GhostState::Home, 10, Direction::Up)));
    let events = game.check_player_vs_ghosts();
    assert_eq!(events, vec![Event::GhostEaten(200), Event::GhostEaten(400)]);
    assert_eq!(game.ghosts()[1].state, GhostState::Dead);
    assert_eq!(game.ghosts()[3].state, GhostState::Dead);
    assert_eq!(game.score(), 650);
    assert_eq!(game.next_ghost_score(), 800);
}

#[test]
fn a_new_pill_resets_the_combo() {
    let mut game = Game::new();
    game.move_player(at(1, 18));
    assert!(game.set_ghost(0, ghost(at(1, 18), GhostState::Outside, 10, Direction::Up)));
    game.check_player_vs_ghosts();
    assert_eq!(game.next_ghost_score(), 400);
    game.move_player(at(26, 18));
    assert_eq!(game.next_ghost_score(), 200);
}

#[test]
fn cheat_without_a_pill_is_worth_nothing() {
    let mut game = Game::new();
    assert!(game.set_ghost(0, ghost(at(13, 18), GhostState::Outside, 0, Direction::Up)));
    assert_eq!(game.handle_input(InputEvent::Cheat), Command::Proceed);
    assert_eq!(game.ghosts()[0].edible_duration, 6000);
    assert_eq!(game.ghosts()[1].edible_duration, 0);
    assert_eq!(game.check_player_vs_ghosts(), vec![Event::GhostEaten(0)]);
    assert_eq!(game.score(), 0);
    assert_eq!(game.next_ghost_score(), 0);
}

#[test]
fn combo_saturates() {
    let mut game = Game::new();
    game.move_player(at(1, 18));
    for _ in 0..40 {
        assert!(game.set_ghost(0, ghost(at(1, 18), GhostState::Outside, 10, Direction::Up)));
        game.check_player_vs_ghosts();
    }
    assert_eq!(game.next_ghost_score(), u32::MAX);
    assert_eq!(game.score(), u32::MAX);
}

#[test]
fn input_commands() {
    let mut game = Game::new();
    assert_eq!(game.handle_input(InputEvent::Quit), Command::Quit);
    assert_eq!(game.handle_input(InputEvent::Pause), Command::Pause);
    assert_eq!(game.handle_input(InputEvent::Idle), Command::Proceed);
    assert_eq!(game.player().last_input_direction, Direction::Left);
    assert_eq!(game.handle_input(InputEvent::Direction(Direction::Right)), Command::Proceed);
    assert_eq!(game.player().last_input_direction, Direction::Right);
    assert_eq!(game.player().moving, Direction::Left);
    assert_eq!(game.player().pos, at(13, 18));
}

#[test]
fn frame_delay_by_level_and_fright() {
    let mut game = Game::new();
    assert_eq!(game.frame_delay(), 140);
    assert!(game.set_ghost(3, ghost(at(6, 4), GhostState::Outside, 1, Direction::Up)));
    assert_eq!(game.frame_delay(), 120);
    game.next_level();
    assert_eq!(game.frame_delay(), 130);
    game.next_level();
    game.next_level();
    assert_eq!(game.frame_delay(), 130);
    game.next_level();
    assert_eq!(game.level(), 4);
    assert_eq!(game.frame_delay(), 120);
    let pos = game.board().pacman_start();
    assert!(game.set_ghost(0, ghost(pos, GhostState::Outside, 7, Direction::Up)));
    assert_eq!(game.frame_delay(), 100);
}

#[test]
fn clocks_run_and_saturate() {
    let mut game = Game::new();
    game.set_fruit_duration(250);
    game.update_fruit(100);
    assert_eq!((game.timecum(), game.fruit_duration()), (100, 150));
    game.update_fruit(150);
    assert_eq!((game.timecum(), game.fruit_duration()), (250, 0));
    game.update_fruit(7000);
    assert_eq!((game.timecum(), game.fruit_duration()), (7250, 0));
    assert_eq!(game.period(), Period::Chase);
    game.update_fruit(u128::MAX);
    assert_eq!(game.timecum(), u128::MAX);
    assert_eq!(game.period(), Period::Chase);
    game.set_timecum(80000);
    assert_eq!(game.period(), Period::Scatter);
}

#[test]
fn first_ticks_of_a_game() {
    let mut game = Game::new();
    assert_eq!(game.update_with(100, [1, 0, 2, 3]), vec![]);
    let g = game.ghosts();
    assert_eq!(g[0], Adversary::new(at(13, 10)));
    assert_eq!(g[1], Adversary::new(at(14, 10)));
    assert_eq!(g[2], Adversary::new(at(12, 11)));
    assert_eq!(g[3], Adversary::new(at(15, 12)));
    assert_eq!(game.player().pos, at(12, 18));
    assert_eq!((game.score(), game.dots_left(), game.timecum()), (10, 210, 100));
    assert_eq!((game.player().timecum, game.player().anim_frame), (100, 0));

    assert_eq!(game.update_with(100, [2, 2, 0, 0]), vec![]);
    let g = game.ghosts();
    assert_eq!(g[0], ghost(at(13, 9), GhostState::Gateway, 0, Direction::Left));
    assert_eq!(g[1], ghost(at(14, 9), GhostState::Gateway, 0, Direction::Left));
    assert_eq!(g[2], Adversary::new(at(12, 11)));
    assert_eq!(g[3], Adversary::new(at(14, 12)));
    assert_eq!((game.player().timecum, game.player().anim_frame), (100, 1));

    assert_eq!(game.update_with(100, [0, 1, 0, 0]), vec![]);
    let g = game.ghosts();
    assert_eq!(g[0], ghost(at(13, 8), GhostState::Outside, 0, Direction::Left));
    assert_eq!(g[1], ghost(at(14, 8), GhostState::Outside, 0, Direction::Right));
    assert_eq!(g[3], Adversary::new(at(13, 12)));

    assert_eq!(game.update_with(100, [99, 24, 0, 0]), vec![]);
    let g = game.ghosts();
    assert_eq!(g[0], ghost(at(12, 8), GhostState::Outside, 0, Direction::Left));
    assert_eq!(g[1], ghost(at(14, 8), GhostState::Outside, 0, Direction::Right));
    assert_eq!(g[2], Adversary::new(at(12, 11)));
    assert_eq!(g[3], Adversary::new(at(12, 12)));
    assert_eq!(game.player().pos, at(9, 18));
    assert_eq!((game.score(), game.dots_left(), game.timecum()), (40, 207, 400));
    check_invariants(&game);
}

#[test]
fn tick_catches_a_ghost_that_walks_into_the_player() {
    let mut game = Game::new();
    put_player(&mut game, at(1, 1), Direction::Left);
    assert!(game.set_ghost(0, ghost(at(3, 1), GhostState::Outside, 0, Direction::Left)));
    game.set_timecum(7000);
    assert_eq!(game.update_with(100, [99, 0, 0, 0]), vec![]);
    assert_eq!(game.ghosts()[0].pos, at(2, 1));
    assert!(!game.player().dead);
    assert_eq!(game.update_with(100, [99, 0, 0, 0]), vec![]);
    assert_eq!(game.ghosts()[0].pos, at(1, 1));
    assert!(game.player().dead);
    assert_eq!(game.settle_with(5), vec![Event::PlayerDied]);
}

#[test]
fn tick_catches_a_player_that_walks_into_a_ghost() {
    let mut game = Game::new();
    assert!(game.set_ghost(0, ghost(at(12, 18), GhostState::Outside, 500, Direction::Left)));
    game.move_player(at(1, 18));
    put_player(&mut game, at(13, 18), Direction::Left);
    let events = game.step_with(100, [0, 0, 0, 0], 0);
    assert_eq!(events, vec![Event::GhostEaten(200)]);
    let g = game.ghosts()[0];
    assert_eq!(g.state, GhostState::Dead);
    assert_eq!(g.edible_duration, 0);
    assert_ne!(g.pos, at(12, 18));
    assert!(!game.player().dead);
}

#[test]
fn fruit_shows_at_the_two_marks() {
    let mut game = Game::new();
    let dots = dots_on(&game);
    assert_eq!(dots.len(), 209);
    let mut eaten = 0;
    for pos in dots {
        assert_eq!(game.dots_left(), 211 - eaten - (2 - game.fruit_tokens()));
        game.move_player(pos);
        eaten += 1;
        let before = game.dots_left();
        let events = game.settle_with(1);
        if before == 174 || before == 74 {
            assert_eq!(events, vec![]);
            assert_eq!(game.dots_left(), before - 1);
            assert_eq!(game.fruit_duration(), 11000);
            game.set_fruit_duration(0);
        } else if before == 0 {
            assert_eq!(events, vec![Event::LevelComplete]);
        } else {
            assert_eq!(events, vec![]);
            assert_eq!(game.dots_left(), before);
            assert_eq!(game.fruit_duration(), 0);
        }
        check_invariants(&game);
    }
    assert_eq!(game.board().dots(), 0);
    assert_eq!(game.fruit_tokens(), 0);
    assert_eq!(game.dots_left(), 0);
    assert_eq!(game.score(), 2090);
    assert_eq!(game.settle_with(0), vec![Event::LevelComplete]);
}

#[test]
fn dot_counter_is_dots_plus_tokens_all_along() {
    let mut game = Game::new();
    for pos in dots_on(&game) {
        game.move_player(pos);
        game.settle_with(2);
        assert_eq!(game.dots_left(), game.board().dots() + game.fruit_tokens());
        assert_eq!(game.dots_left() == 0, game.board().dots() == 0 && game.fruit_tokens() == 0);
    }
    assert_eq!(game.dots_left(), 0);
}

#[test]
fn dot_counter_stays_above_nothing_while_tokens_are_left() {
    let board = Board::from_rows(&ARENA).unwrap();
    let mut game = Game::with_board(board, 0);
    for pos in dots_on(&game) {
        game.move_player(pos);
        assert_eq!(game.settle_with(0), vec![]);
    }
    assert_eq!(game.board().dots(), 0);
    assert_eq!(game.fruit_tokens(), 2);
    assert_eq!(game.dots_left(), 2);
    assert_eq!(game.settle_with(0), vec![]);
}

#[test]
fn a_dead_player_puts_off_the_fruit() {
    let mut game = Game::new();
    let dots = dots_on(&game);
    for pos in dots.iter().take(37) {
        game.move_player(*pos);
    }
    assert_eq!(game.dots_left(), 174);
    let here = game.player().pos;
    assert!(game.set_ghost(0, ghost(here, GhostState::Outside, 0, Direction::Up)));
    game.check_player_vs_ghosts();
    assert_eq!(game.settle_with(2), vec![Event::PlayerDied]);
    assert_eq!(game.dots_left(), 174);
    assert_eq!(game.fruit_duration(), 0);
    assert!(game.lose_life());
    assert_eq!(game.settle_with(2), vec![]);
    assert_eq!(game.dots_left(), 173);
    assert_eq!(game.fruit_duration(), 12000);
    assert_eq!(game.fruit_tokens(), 1);
}

#[test]
fn losing_lives() {
    let mut game = Game::new();
    game.move_player(at(12, 18));
    assert!(game.set_ghost(0, ghost(at(12, 18), GhostState::Outside, 0, Direction::Up)));
    game.check_player_vs_ghosts();
    assert!(game.player().dead);
    game.set_timecum(5000);
    assert!(game.lose_life());
    assert_eq!(game.lives(), 2);
    assert!(!game.player().dead);
    assert_eq!(game.player().pos, at(13, 18));
    assert_eq!(game.ghosts()[0], Adversary::new(at(12, 10)));
    assert_eq!(game.score(), 10);
    assert_eq!(game.dots_left(), 210);
    assert_eq!(game.timecum(), 5000);
    assert_eq!(game.board().at(at(12, 18)), Square::Empty);
    assert!(game.lose_life());
    assert!(game.lose_life());
    assert_eq!(game.lives(), 0);
    put_player(&mut game, at(6, 4), Direction::Up);
    assert!(!game.lose_life());
    assert_eq!(game.lives(), 0);
    assert_eq!(game.player().pos, at(6, 4));
    check_invariants(&game);
}

#[test]
fn reset_ghosts_sends_all_home() {
    let mut game = Game::new();
    assert!(game.set_ghost(0, ghost(at(6, 4), GhostState::Outside, 77, Direction::Up)));
    assert!(game.set_ghost(3, ghost(at(9, 8), GhostState::Dead, 0, Direction::Down)));
    game.reset_ghosts();
    let corners = [at(12, 10), at(15, 10), at(12, 12), at(15, 12)];
    for (g, corner) in game.ghosts().iter().zip(corners) {
        assert_eq!(*g, Adversary::new(corner));
    }
}

#[test]
fn next_level_brings_a_new_board() {
    let mut game = Game::new();
    game.move_player(at(12, 18));
    game.set_timecum(90000);
    game.set_fruit_duration(40);
    assert!(game.set_ghost(0, ghost(at(6, 4), GhostState::Outside, 77, Direction::Up)));
    game.next_level();
    assert_eq!(game.level(), 1);
    assert_eq!(game.board().height(), 29);
    assert_eq!(game.dots_left(), 239);
    assert_eq!(game.fruit_tokens(), 2);
    assert_eq!(game.timecum(), 0);
    assert_eq!(game.score(), 10);
    assert_eq!(game.lives(), 3);
    assert_eq!(game.fruit_duration(), 40);
    assert_eq!(game.player().pos, at(13, 21));
    assert_eq!(game.ghosts()[0], Adversary::new(at(12, 12)));
    assert_eq!(game.ghosts()[3], Adversary::new(at(15, 14)));
    check_invariants(&game);
    game.next_level();
    assert_eq!((game.level(), game.board().height(), game.dots_left()), (2, 31, 225));
    game.next_level();
    assert_eq!((game.level(), game.board().height(), game.dots_left()), (3, 31, 240));
    game.next_level();
    assert_eq!((game.level(), game.board().height(), game.dots_left()), (4, 29, 239));
    check_invariants(&game);
}

#[test]
fn setters_refuse_squares_off_the_inner_grid() {
    let mut game = Game::new();
    let p = game.player();
    assert!(!game.set_player(Player { pos: at(3, 0), ..p }));
    assert!(!game.set_player(Player { pos: at(3, 23), ..p }));
    assert!(!game.set_player(Player { pos: Position(usize::MAX), ..p }));
    assert_eq!(game.player(), p);
    assert!(game.set_player(Player { pos: at(0, 1), dead: true, ..p }));
    assert!(game.player().dead);
    let g = ghost(at(3, 0), GhostState::Outside, 0, Direction::Up);
    assert!(!game.set_ghost(0, g));
    assert!(!game.set_ghost(4, Adversary::new(at(12, 10))));
    assert!(!game.set_ghost(0, ghost(at(12, 10), GhostState::Gateway, 0, Direction::Up)));
    assert!(game.set_ghost(0, ghost(at(14, 9), GhostState::Gateway, 0, Direction::Up)));
    assert_eq!(game.ghosts()[0].pos, at(14, 9));
    assert_eq!(game.ghosts()[1], Adversary::new(at(15, 10)));
}

#[test]
fn random_play_keeps_the_invariants() {
    let mut game = Game::new();
    let inputs = [
        InputEvent::Direction(Direction::Left),
        InputEvent::Direction(Direction::Up),
        InputEvent::Idle,
        InputEvent::Direction(Direction::Right),
        InputEvent::Cheat,
        InputEvent::Direction(Direction::Down),
        InputEvent::Idle,
    ];
    let mut deaths = 0;
    let mut levels = 0;
    for tick in 0..6000 {
        assert_eq!(game.handle_input(inputs[(tick / 5) % inputs.len()]), Command::Proceed);
        let score = game.score();
        let decay: Vec<u128> = game.ghosts().iter().map(|g| g.edible_duration).collect();
        let events = game.step(game.frame_delay() as u128);
        check_invariants(&game);
        assert!(game.score() >= score);
        assert!(game.high_score() >= game.score().min(9710));
        assert_eq!(events.contains(&Event::PlayerDied), game.player().dead);
        assert_eq!(
            events.contains(&Event::LevelComplete),
            !game.player().dead && game.dots_left() == 0
        );
        let pill = events.contains(&Event::PillEaten);
        for (g, old) in game.ghosts().iter().zip(decay) {
            if !pill && inputs[(tick / 5) % inputs.len()] != InputEvent::Cheat {
                assert!(g.edible_duration <= old);
            }
            if g.state == GhostState::Dead {
                assert_eq!(g.edible_duration, 0);
            }
        }
        if events.contains(&Event::PlayerDied) {
            deaths += 1;
            if !game.lose_life() {
                game.set_lives(3);
                assert!(game.lose_life());
            }
        } else if events.contains(&Event::LevelComplete) {
            levels += 1;
            game.next_level();
        }
    }
    assert!(deaths + levels > 0 || game.score() > 0);
}

#[test]
fn drawn_ticks_are_ticks_by_some_rolls() {
    for _ in 0..50 {
        let mut game = Game::new();
        let events = game.update(100);
        assert_eq!(events, vec![]);
        assert_eq!(game.player().pos, at(12, 18));
        assert_eq!(game.timecum(), 100);
        let starts = [at(12, 10), at(15, 10), at(12, 12), at(15, 12)];
        for (g, start) in game.ghosts().iter().zip(starts) {
            assert_eq!(g.state, GhostState::Home);
            let near = [start, start.go(Direction::Left), start.go(Direction::Right),
                start.go(Direction::Up), start.go(Direction::Down)];
            assert!(near.contains(&g.pos));
            assert_eq!(game.board().at(g.pos), Square::House);
        }
    }
}

#[test]
fn drawn_ghost_steps_and_settling() {
    let mut game = Game::new();
    for _ in 0..300 {
        game.update_ghosts(100);
        check_invariants(&game);
    }
    assert_eq!(game.timecum(), 0);
    assert_eq!(game.settle(), vec![]);
    let dots = dots_on(&game);
    for pos in dots.iter().take(37) {
        game.move_player(*pos);
    }
    assert_eq!(game.dots_left(), 174);
    assert_eq!(game.settle(), vec![]);
    assert_eq!(game.dots_left(), 173);
    assert!([10000, 11000, 12000].contains(&game.fruit_duration()));
}

fn snapshot(game: &Game) -> (Player, [Adversary; 4], Vec<u128>, Vec<usize>) {
    (
        game.player(),
        game.ghosts(),
        vec![game.timecum(), game.fruit_duration(), game.pill_duration()],
        vec![
            game.dots_left(),
            game.fruit_tokens(),
            game.score() as usize,
            game.high_score() as usize,
            game.lives() as usize,
            game.level() as usize,
            game.next_ghost_score() as usize,
            game.board().dots(),
        ],
    )
}

fn play(
    seed: u64,
    ticks: usize,
) -> Vec<(Vec<Event>, (Player, [Adversary; 4], Vec<u128>, Vec<usize>))> {
    let inputs = [Direction::Left, Direction::Down, Direction::Right, Direction::Up];
    let mut dice = Dice::seeded(seed);
    let mut game = Game::new();
    let mut trace = Vec::new();
    for tick in 0..ticks {
        game.handle_input(InputEvent::Direction(inputs[(tick / 9) % 4]));
        let events = game.step_by(140, &mut dice);
        check_invariants(&game);
        if events.contains(&Event::PlayerDied) {
            if !game.lose_life() {
                game.set_lives(3);
            }
        } else if events.contains(&Event::LevelComplete) {
            game.next_level();
        }
        trace.push((events, snapshot(&game)));
    }
    trace
}

#[test]
fn seeded_games_repeat() {
    let first = play(99, 1500);
    let second = play(99, 1500);
    assert_eq!(first.len(), 1500);
    assert!(first == second);
}

#[test]
fn seeded_games_differ_by_seed() {
    let first = play(1, 400);
    let second = play(2, 400);
    assert!(first != second);
}

#[test]
fn seeded_ticks_are_ticks_by_some_rolls() {
    let mut dice = Dice::seeded(5);
    for _ in 0..50 {
        let mut game = Game::new();
        assert_eq!(game.update_by(100, &mut dice), vec![]);
        assert_eq!(game.player().pos, at(12, 18));
        assert_eq!(game.timecum(), 100);
        for g in game.ghosts() {
            assert_eq!(g.state, GhostState::Home);
            assert_eq!(game.board().at(g.pos), Square::House);
        }
        assert_eq!(game.fruit_due(), false);
    }
}

#[test]
fn fruit_is_due_at_the_marks_while_alive() {
    let mut game = Game::new();
    let dots = dots_on(&game);
    for pos in dots.iter().take(37) {
        assert!(!game.fruit_due());
        game.move_player(*pos);
    }
    assert_eq!(game.dots_left(), 174);
    assert!(game.fruit_due());
    let p = game.player();
    assert!(game.set_player(Player { dead: true, ..p }));
    assert!(!game.fruit_due());
}

#[test]
fn a_tick_takes_one_roll_for_each_adversary_that_is_not_eaten() {
    let mut dice = Dice::seeded(11);
    let mut game = Game::new();
    game.update_by(100, &mut dice);
    assert_eq!((dice.seed(), dice.drawn()), (11, 4));
    assert!(game.set_ghost(1, ghost(at(9, 8), GhostState::Dead, 0, Direction::Up)));
    assert!(game.set_ghost(3, ghost(at(18, 8), GhostState::Dead, 0, Direction::Up)));
    game.update_by(100, &mut dice);
    assert_eq!((dice.seed(), dice.drawn()), (11, 6));
    for slot in 0..4 {
        assert!(game.set_ghost(slot, ghost(at(9, 8), GhostState::Dead, 0, Direction::Up)));
    }
    game.update_by(100, &mut dice);
    assert_eq!(dice.drawn(), 6);
    assert!(game.set_ghost(0, ghost(at(13, 9), GhostState::Gateway, 0, Direction::Left)));
    assert!(game.set_ghost(2, ghost(at(6, 4), GhostState::Outside, 0, Direction::Left)));
    game.update_by(100, &mut dice);
    assert_eq!(dice.drawn(), 8);
}

#[test]
fn a_tick_takes_one_roll_more_where_the_fruit_is_due() {
    let mut dice = Dice::seeded(12);
    let mut game = Game::new();
    for slot in 0..4 {
        assert!(game.set_ghost(slot, ghost(at(9, 8), GhostState::Dead, 0, Direction::Up)));
    }
    put_player(&mut game, at(1, 1), Direction::Left);
    let dots = dots_on(&game);
    for pos in dots.iter().take(36) {
        game.move_player(*pos);
    }
    assert_eq!(game.dots_left(), 175);
    put_player(&mut game, at(1, 1), Direction::Left);
    game.step_by(100, &mut dice);
    assert_eq!(dice.drawn(), 0);
    game.move_player(dots[36]);
    put_player(&mut game, at(1, 1), Direction::Left);
    assert_eq!(game.dots_left(), 174);
    game.step_by(100, &mut dice);
    assert_eq!(dice.drawn(), 1);
    assert_eq!(game.dots_left(), 173);
    assert!([10000, 11000, 12000].contains(&game.fruit_duration()));
    game.step_by(100, &mut dice);
    assert_eq!(dice.drawn(), 1);
}

#[test]
fn drawn_rolls_suit_the_states() {
    let mut dice = Dice::seeded(13);
    for _ in 0..200 {
        let mut game = Game::new();
        assert!(game.set_ghost(3, ghost(at(9, 8), GhostState::Dead, 0, Direction::Up)));
        game.update_by(100, &mut dice);
        let g = game.ghosts();
        assert_eq!(g[3], ghost(at(10, 8), GhostState::Dead, 0, Direction::Right));
        for slot in 0..3 {
            assert_eq!(g[slot].state, GhostState::Home);
            assert_eq!(game.board().at(g[slot].pos), Square::House);
        }
    }
}
