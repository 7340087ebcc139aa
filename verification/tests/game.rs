use zombie_trooper::bullet::Bullet;
use zombie_trooper::game::{
    check_start, game_over, listen_for_restart, main_menu, setup_game, tick, GameState, World,
};
use zombie_trooper::movement::{Direction, Movement};
use zombie_trooper::player::{Distance, Keyboard, Player};
use zombie_trooper::text::Caption;
use zombie_trooper::transform::{Position, Rotation};
use zombie_trooper::zombies::Zombie;

fn enter() -> Keyboard {
    Keyboard { enter: true, ..Keyboard::idle() }
}

fn start_menu() -> Vec<Caption> {
    vec![Caption::Title, Caption::Controls, Caption::PressEnterToStart]
}

fn game_over_screen() -> Vec<Caption> {
    vec![Caption::GameOver, Caption::PressEnterToRestart, Caption::PressEscToQuit]
}

fn playing() -> World {
    let mut world = World::new();
    tick(&mut world, &enter());
    world
}

#[test]
fn default_state_is_start() {
    assert_eq!(GameState::default(), GameState::Start);
}

#[test]
fn setup_makes_the_opening_world() {
    let world = setup_game();
    assert_eq!(world.state, GameState::Start);
    assert_eq!(world.player, Some(Player::spawn()));
    assert_eq!(world.zombies, vec![Zombie::seed()]);
    assert!(world.bullets.is_empty());
    assert_eq!(world.camera.position, Position { x: 0, y: 0 });
    assert_eq!(world.wave, 1);
    assert_eq!(world.score, 0);
    assert_eq!(world.score_text, "");
    assert!(world.main_menu.is_empty());
    assert!(world.game_over_message.is_empty());
}

#[test]
fn new_world_shows_the_start_menu() {
    let world = World::new();
    assert_eq!(world.state, GameState::Start);
    assert_eq!(world.main_menu, start_menu());
    assert_eq!(world.player, Some(Player::spawn()));
    assert_eq!(world.zombies, vec![Zombie::seed()]);
    assert_eq!(world.wave, 1);
}

#[test]
fn main_menu_adds_three_lines() {
    let mut menu: Vec<Caption> = Vec::new();
    main_menu(&mut menu);
    assert_eq!(menu, start_menu());
}

#[test]
fn check_start_waits_for_enter() {
    let mut menu = start_menu();
    let mut state = GameState::Start;
    check_start(&Keyboard::idle(), &mut menu, &mut state);
    assert_eq!(menu, start_menu());
    assert_eq!(state, GameState::Start);
    let other = Keyboard { a: true, d: true, s: true, w: true, space_released: true, enter: false };
    check_start(&other, &mut menu, &mut state);
    assert_eq!(menu, start_menu());
    assert_eq!(state, GameState::Start);
    check_start(&enter(), &mut menu, &mut state);
    assert!(menu.is_empty());
    assert_eq!(state, GameState::Playing);
}

#[test]
fn game_over_screen_is_put_up_once() {
    let mut message: Vec<Caption> = Vec::new();
    game_over(&mut message);
    assert_eq!(message, game_over_screen());
    game_over(&mut message);
    assert_eq!(message, game_over_screen());
    game_over(&mut message);
    assert_eq!(message.len(), 3);
}

#[test]
fn restart_resets_the_arena() {
    let mut message = game_over_screen();
    let mut zombies = vec![
        Zombie { position: Position { x: 5, y: 5 }, rotation: Rotation::Half },
        Zombie { position: Position { x: -5, y: 5 }, rotation: Rotation::Zero },
        Zombie { position: Position { x: 0, y: 77 }, rotation: Rotation::Quarter },
    ];
    let mut player: Option<Player> = None;
    let mut wave = 7;
    let mut state = GameState::GameOver;
    listen_for_restart(&enter(), &mut message, &mut zombies, &mut player, &mut wave, &mut state);
    assert!(message.is_empty());
    assert_eq!(zombies, vec![Zombie::seed()]);
    assert_eq!(player, Some(Player::spawn()));
    assert_eq!(wave, 1);
    assert_eq!(state, GameState::Playing);
}

#[test]
fn restart_waits_for_enter() {
    let mut message = game_over_screen();
    let mut zombies = vec![Zombie { position: Position { x: 5, y: 5 }, rotation: Rotation::Half }];
    let mut player: Option<Player> = None;
    let mut wave = 7;
    let mut state = GameState::GameOver;
    let other = Keyboard { a: true, d: true, s: true, w: true, space_released: true, enter: false };
    listen_for_restart(&other, &mut message, &mut zombies, &mut player, &mut wave, &mut state);
    assert_eq!(message, game_over_screen());
    assert_eq!(zombies.len(), 1);
    assert_eq!(player, None);
    assert_eq!(wave, 7);
    assert_eq!(state, GameState::GameOver);
}

#[test]
fn tick_on_the_start_menu_only_heeds_enter() {
    let mut world = World::new();
    let busy = Keyboard { a: true, d: false, s: false, w: true, space_released: true, enter: false };
    tick(&mut world, &busy);
    assert_eq!(world.state, GameState::Start);
    assert_eq!(world.player, Some(Player::spawn()));
    assert_eq!(world.zombies, vec![Zombie::seed()]);
    assert!(world.bullets.is_empty());
    assert_eq!(world.main_menu, start_menu());

    tick(&mut world, &enter());
    assert_eq!(world.state, GameState::Playing);
    assert!(world.main_menu.is_empty());
    assert_eq!(world.player, Some(Player::spawn()));
    assert_eq!(world.zombies, vec![Zombie::seed()]);
}

#[test]
fn tick_of_play_runs_every_system() {
    let mut world = playing();
    let keys = Keyboard { d: true, w: true, space_released: true, ..Keyboard::idle() };
    tick(&mut world, &keys);
    let player = world.player.unwrap();
    assert_eq!(player.position, Position { x: 2, y: 2 });
    assert_eq!(player.rotation, Rotation::ThreeQuarters);
    assert_eq!(player.movement.last_movement, Direction::UP);
    // fired after the walk, then flown one tick
    assert_eq!(
        world.bullets,
        vec![Bullet {
            position: Position { x: 2, y: 4 },
            movement: Movement { last_movement: Direction::UP },
            distance: Distance { distance_travel: 1, distance_despawn: 100 },
        }]
    );
    // the enemy chases the player's new place
    assert_eq!(
        world.zombies,
        vec![Zombie { position: Position { x: 299, y: 1 }, rotation: Rotation::Half }]
    );
    assert_eq!(world.camera.position, Position { x: 2, y: 2 });
    assert_eq!(world.state, GameState::Playing);
    assert_eq!(world.wave, 1);
    assert_eq!(world.score, 0);
}

#[test]
fn standing_still_the_player_is_caught() {
    let mut world = playing();
    let mut ticks = 0;
    while world.state == GameState::Playing {
        tick(&mut world, &Keyboard::idle());
        ticks += 1;
        assert!(ticks <= 300);
    }
    // the enemy starts 300 half units away and reaches within 60 of the player
    assert_eq!(ticks, 241);
    assert_eq!(world.state, GameState::GameOver);
    assert_eq!(world.player, None);
    assert_eq!(world.zombies.len(), 1);
    assert!(world.game_over_message.is_empty());
    assert_eq!(world.wave, 1);
}

#[test]
fn game_over_tick_shows_the_screen_once_and_freezes() {
    let mut world = playing();
    while world.state == GameState::Playing {
        tick(&mut world, &Keyboard::idle());
    }
    let zombies = world.zombies.clone();
    let busy = Keyboard { a: true, d: false, s: true, w: false, space_released: true, enter: false };
    tick(&mut world, &busy);
    assert_eq!(world.game_over_message, game_over_screen());
    tick(&mut world, &busy);
    assert_eq!(world.game_over_message, game_over_screen());
    assert_eq!(world.state, GameState::GameOver);
    assert_eq!(world.player, None);
    assert_eq!(world.zombies, zombies);
    assert!(world.bullets.is_empty());
}

#[test]
fn restart_matches_the_first_start() {
    let first = playing();
    let mut world = playing();
    while world.state == GameState::Playing {
        tick(&mut world, &Keyboard::idle());
    }
    tick(&mut world, &Keyboard::idle());
    world.wave = 4;
    tick(&mut world, &enter());
    assert_eq!(world.state, GameState::Playing);
    assert_eq!(world.state, first.state);
    assert_eq!(world.wave, 1);
    assert_eq!(world.player, first.player);
    assert_eq!(world.zombies, first.zombies);
    assert_eq!(world.zombies.len(), 1);
    assert_eq!(world.bullets, first.bullets);
    assert_eq!(world.score, first.score);
    assert_eq!(world.score_text, first.score_text);
    assert_eq!(world.camera, first.camera);
    assert!(world.game_over_message.is_empty());
    assert!(world.main_menu.is_empty());
}

#[test]
fn enter_in_the_first_game_over_tick_restarts_at_once() {
    let mut world = playing();
    while world.state == GameState::Playing {
        tick(&mut world, &Keyboard::idle());
    }
    tick(&mut world, &enter());
    assert_eq!(world.state, GameState::Playing);
    assert!(world.game_over_message.is_empty());
    assert_eq!(world.player, Some(Player::spawn()));
}

#[test]
fn shooting_the_last_enemy_brings_the_second_wave() {
    let mut world = playing();
    // face right, towards the enemy, and fire
    let mut shots = 0;
    let mut ticks = 0;
    tick(&mut world, &Keyboard { d: true, ..Keyboard::idle() });
    tick(&mut world, &Keyboard { space_released: true, ..Keyboard::idle() });
    shots += 1;
    while world.score == 0 {
        tick(&mut world, &Keyboard::idle());
        ticks += 1;
        assert!(ticks < 200);
    }
    assert_eq!(shots, 1);
    assert_eq!(world.score, 1);
    assert_eq!(world.score_text, "Zombies: 1");
    assert!(world.bullets.is_empty());
    // the wave comes in the tick in which the last enemy goes
    assert_eq!(world.wave, 2);
    assert_eq!(world.zombies.len(), 2);
    let player = world.player.unwrap().position;
    for z in &world.zombies {
        assert!((z.position.x - player.x).abs() <= 550);
        assert!((z.position.y - player.y).abs() <= 550);
    }
    assert_eq!(world.state, GameState::Playing);
}

#[test]
fn spent_bullets_leave_during_play() {
    let mut world = playing();
    // fire upwards, away from the enemy, and walk away from it
    tick(&mut world, &Keyboard { space_released: true, ..Keyboard::idle() });
    assert_eq!(world.bullets.len(), 1);
    assert_eq!(world.bullets[0].distance.distance_travel, 1);
    for n in 2..=100u32 {
        tick(&mut world, &Keyboard { a: true, ..Keyboard::idle() });
        assert_eq!(world.bullets.len(), 1);
        assert_eq!(world.bullets[0].distance.distance_travel, n);
    }
    tick(&mut world, &Keyboard { a: true, ..Keyboard::idle() });
    assert!(world.bullets.is_empty());
    assert_eq!(world.state, GameState::Playing);
}
