//! The world and the flow of a game: start menu, play, game over, and back.

use vstd::prelude::*;
use crate::bullet::{despawn_bullet, flown_all, move_bullet, unspent, Bullet};
use crate::camera::{update_camera, CameraMaker};
use crate::count::counted;
use crate::player::{move_player, player_shoot, Keyboard, Player};
use crate::sequences::lemma_filter_keeps;
use crate::text::{game_over_screen, spec_score_line, start_menu, Caption};
use crate::transform::Position;
use crate::zombies::{
    caught, chasing_all, destroyed, hits_any, missing, move_zombies, next_zombie_wave, unhit,
    zombie_bullet_collision, zombie_player_collision, Zombie,
};

verus! {

/// Where the game stands.
#[derive(Clone, Copy, Debug, PartialEq, Eq, Hash, Structural)]
pub enum GameState {
    /// The start menu is up; nothing moves.
    Start,
    /// The simulation runs.
    Playing,
    /// The player is dead; nothing moves.
    GameOver,
}

impl Default for GameState {
    fn default() -> (state: GameState)
        ensures
            state == GameState::Start,
    {
        GameState::Start
    }
}

/// Everything the simulation keeps between ticks.
#[derive(Debug)]
pub struct World {
    pub state: GameState,
    /// The player, while it lives.
    pub player: Option<Player>,
    /// The enemies, oldest first.
    pub zombies: Vec<Zombie>,
    /// The projectiles in flight, oldest first.
    pub bullets: Vec<Bullet>,
    pub camera: CameraMaker,
    /// The number of the current wave, from 1.
    pub wave: u32,
    /// Enemies shot so far.
    pub score: u32,
    /// The last line sent to the score display; empty until one is.
    pub score_text: String,
    /// The lines of the start menu that are up.
    pub main_menu: Vec<Caption>,
    /// The lines of the game-over screen that are up.
    pub game_over_message: Vec<Caption>,
}

/// A world as plain mathematical values.
pub struct WorldView {
    pub state: GameState,
    pub player: Option<Player>,
    pub zombies: Seq<Zombie>,
    pub bullets: Seq<Bullet>,
    pub camera: CameraMaker,
    pub wave: u32,
    pub score: u32,
    pub score_text: Seq<char>,
    pub main_menu: Seq<Caption>,
    pub game_over_message: Seq<Caption>,
}

impl View for World {
    type V = WorldView;

    open spec fn view(&self) -> WorldView {
        WorldView {
            state: self.state,
            player: self.player,
            zombies: self.zombies@,
            bullets: self.bullets@,
            camera: self.camera,
            wave: self.wave,
            score: self.score,
            score_text: self.score_text@,
            main_menu: self.main_menu@,
            game_over_message: self.game_over_message@,
        }
    }
}

impl WorldView {
    /// What holds of a world between ticks. The player lives exactly while
    /// the game is not over; waves count from 1; no projectile in flight is
    /// spent; and each screen is up in full or not at all, and only in its
    /// own state.
    pub open spec fn wf(self) -> bool {
        &&& self.player is None <==> self.state == GameState::GameOver
        &&& self.wave >= 1
        &&& forall|i: int|
            0 <= i < self.bullets.len() ==> {
                &&& (#[trigger] self.bullets[i]).distance.wf()
                &&& !self.bullets[i].distance.spec_spent()
            }
        &&& self.main_menu.len() == 0 || (self.main_menu == start_menu() && self.state
            == GameState::Start)
        &&& self.game_over_message.len() == 0 || (self.game_over_message == game_over_screen()
            && self.state == GameState::GameOver)
    }

    /// The world that `setup_game` makes: the player at the origin, one
    /// enemy, the camera on the origin, the first wave, no score, and no
    /// screen up yet.
    pub open spec fn set_up() -> WorldView {
        WorldView {
            state: GameState::Start,
            player: Some(Player::spec_spawn()),
            zombies: seq![Zombie::spec_seed()],
            bullets: Seq::empty(),
            camera: CameraMaker { position: Position { x: 0, y: 0 } },
            wave: 1,
            score: 0,
            score_text: Seq::empty(),
            main_menu: Seq::empty(),
            game_over_message: Seq::empty(),
        }
    }

    /// The world a program starts in: set up, with the start menu shown.
    pub open spec fn opening() -> WorldView {
        WorldView { main_menu: start_menu(), ..WorldView::set_up() }
    }

    /// This world after Enter on the start menu: the menu is gone and play
    /// begins.
    pub open spec fn started(self) -> WorldView {
        WorldView { main_menu: Seq::empty(), state: GameState::Playing, ..self }
    }

    /// This world after the player's part of a tick of play: the player
    /// walks, and then fires where Space was released.
    pub open spec fn steered(self, keys: Keyboard) -> WorldView {
        match self.player {
            Some(p) => {
                let walked = p.walked(keys);
                WorldView {
                    player: Some(walked),
                    bullets: if keys.space_released {
                        self.bullets.push(walked.fired())
                    } else {
                        self.bullets
                    },
                    ..self
                }
            },
            None => self,
        }
    }

    /// This world after the projectiles' part of a tick of play: each flies
    /// one tick, and those that are spent by it go.
    pub open spec fn with_bullets_flown(self) -> WorldView {
        WorldView { bullets: unspent(flown_all(self.bullets)), ..self }
    }

    /// This world after the enemies have chased the player for one tick.
    pub open spec fn with_zombies_moved(self) -> WorldView {
        match self.player {
            Some(p) => WorldView { zombies: chasing_all(self.zombies, p.position), ..self },
            None => self,
        }
    }

    /// This world after an enemy that reaches the player has killed it.
    pub open spec fn with_player_caught(self) -> WorldView {
        match self.player {
            Some(p) if caught(p, self.zombies) => WorldView {
                player: None,
                state: GameState::GameOver,
                ..self
            },
            _ => self,
        }
    }

    /// This world after projectiles and the enemies they hit have destroyed
    /// each other and each enemy destroyed is on the score.
    pub open spec fn with_hits_scored(self) -> WorldView {
        let shot = destroyed(self.zombies, self.bullets);
        let score = counted(self.score, shot);
        WorldView {
            bullets: missing(self.bullets, self.zombies),
            zombies: unhit(self.zombies, self.bullets),
            score,
            score_text: if shot > 0 {
                spec_score_line(score)
            } else {
                self.score_text
            },
            ..self
        }
    }

    /// This world after all of a tick of play that chance has no part in:
    /// the player's part, the projectiles' part, the chase, and the two
    /// kinds of collision, in that order.
    pub open spec fn fought(self, keys: Keyboard) -> WorldView {
        self.steered(keys).with_bullets_flown().with_zombies_moved().with_player_caught()
            .with_hits_scored()
    }

    /// Whether `after` can be this world once a wave has had its chance to
    /// come and the camera has followed: with a player and no enemy left the
    /// wave count is one higher and that many enemies stand around the
    /// player; otherwise enemies and count are the same. The camera is on
    /// the player if there is one. Nothing else differs.
    pub open spec fn closes_as(self, after: WorldView) -> bool {
        &&& after.state == self.state
        &&& after.player == self.player
        &&& after.bullets == self.bullets
        &&& after.score == self.score
        &&& after.score_text == self.score_text
        &&& after.main_menu == self.main_menu
        &&& after.game_over_message == self.game_over_message
        &&& match self.player {
            Some(p) => {
                &&& after.camera.position == p.position
                &&& if self.zombies.len() == 0 {
                    &&& after.wave == counted(self.wave, 1)
                    &&& after.zombies.len() == after.wave
                    &&& forall|i: int|
                        0 <= i < after.zombies.len() ==> (#[trigger] after.zombies[i]).spawned_near(
                            p.position,
                        )
                } else {
                    &&& after.wave == self.wave
                    &&& after.zombies == self.zombies
                }
            },
            None => {
                &&& after.camera == self.camera
                &&& after.wave == self.wave
                &&& after.zombies == self.zombies
            },
        }
    }

    /// Whether `after` can be this world one tick later under `keys`. On
    /// the start menu only Enter does anything. In play the whole
    /// simulation runs once. When the game is over its screen is put up,
    /// and Enter starts a new game.
    pub open spec fn ticks_to(self, keys: Keyboard, after: WorldView) -> bool {
        match self.state {
            GameState::Start => after == if keys.enter {
                self.started()
            } else {
                self
            },
            GameState::Playing => self.fought(keys).closes_as(after),
            GameState::GameOver => after == if keys.enter {
                self.with_game_over_shown().restarted()
            } else {
                self.with_game_over_shown()
            },
        }
    }

    /// This world with the game-over screen up: shown where it was not, and
    /// left alone where it was.
    pub open spec fn with_game_over_shown(self) -> WorldView {
        WorldView { game_over_message: shown_once(self.game_over_message), ..self }
    }

    /// This world after Enter on the game-over screen: the screen and every
    /// enemy are gone, a new player and the opening enemy stand where a game
    /// begins, the wave count is 1 again, and play resumes. Projectiles, the
    /// score and the camera stay.
    pub open spec fn restarted(self) -> WorldView {
        WorldView {
            state: GameState::Playing,
            player: Some(Player::spec_spawn()),
            zombies: seq![Zombie::spec_seed()],
            wave: 1,
            game_over_message: Seq::empty(),
            ..self
        }
    }
}

/// The game-over screen after a request to show it: the three lines where
/// none was up, and otherwise what was up.
pub open spec fn shown_once(message: Seq<Caption>) -> Seq<Caption> {
    if message.len() == 0 {
        game_over_screen()
    } else {
        message
    }
}

/// Asking for the game-over screen twice puts it up once: a second request
/// changes nothing, and where the screen was down or up in full before, it is
/// then up exactly once.
pub proof fn lemma_game_over_shown_once(message: Seq<Caption>)
    ensures
        shown_once(shown_once(message)) == shown_once(message),
        message.len() == 0 || message == game_over_screen() ==> shown_once(message)
            == game_over_screen(),
{
}

/// Enter on the game-over screen leads back to where a game begins: the
/// player, the enemies, the wave count and the state are those of a world
/// just started, and no screen is up. Where in addition no projectile is in
/// flight, nothing is on the score and the camera is on the origin, the
/// world as a whole is the one a first game begins in.
pub proof fn lemma_restart_matches_start(world: WorldView, keys: Keyboard, after: WorldView)
    requires
        world.wf(),
        world.state == GameState::GameOver,
        keys.enter,
        world.ticks_to(keys, after),
    ensures
        after.wf(),
        after.state == GameState::Playing,
        after.wave == 1,
        after.player == Some(Player::spec_spawn()),
        after.zombies == seq![Zombie::spec_seed()],
        after.game_over_message.len() == 0,
        after.player == WorldView::opening().started().player,
        after.zombies == WorldView::opening().started().zombies,
        after.wave == WorldView::opening().started().wave,
        after.state == WorldView::opening().started().state,
        world.bullets.len() == 0 && world.score == 0 && world.score_text.len() == 0
            && world.camera == WorldView::opening().camera ==> after
            == WorldView::opening().started(),
{
    if world.bullets.len() == 0 && world.score == 0 && world.score_text.len() == 0 && world.camera
        == WorldView::opening().camera {
        let begun = WorldView::opening().started();
        assert(after.bullets =~= begun.bullets);
        assert(after.score_text =~= begun.score_text);
        assert(after.main_menu =~= begun.main_menu);
        assert(after.game_over_message =~= begun.game_over_message);
    }
}

/// Sets the world up: the player at the origin, the opening enemy, the
/// camera, the counters. No screen is up yet.
pub fn setup_game() -> (world: World)
    ensures
        world@ == WorldView::set_up(),
        world@.wf(),
{
    let mut zombies: Vec<Zombie> = Vec::new();
    zombies.push(Zombie::seed());
    let world = World {
        state: GameState::Start,
        player: Some(Player::spawn()),
        zombies,
        bullets: Vec::new(),
        camera: CameraMaker { position: Position { x: 0, y: 0 } },
        wave: 1,
        score: 0,
        score_text: String::new(),
        main_menu: Vec::new(),
        game_over_message: Vec::new(),
    };
    assert(world@.zombies =~= seq![Zombie::spec_seed()]);
    world
}

/// Puts up the three lines of the start menu, below whatever is up.
pub fn main_menu(menu: &mut Vec<Caption>)
    ensures
        final(menu)@ == old(menu)@ + start_menu(),
{
    menu.push(Caption::Title);
    menu.push(Caption::Controls);
    menu.push(Caption::PressEnterToStart);
    assert(menu@ =~= old(menu)@ + start_menu());
}

/// On Enter, takes the start menu down and begins play. Otherwise nothing
/// happens.
pub fn check_start(keys: &Keyboard, menu: &mut Vec<Caption>, state: &mut GameState)
    ensures
        final(menu)@ == if keys.enter {
            Seq::<Caption>::empty()
        } else {
            old(menu)@
        },
        *final(state) == if keys.enter {
            GameState::Playing
        } else {
            *old(state)
        },
{
    if keys.enter {
        menu.clear();
        *state = GameState::Playing;
    }
}

/// Puts up the game-over screen unless it is up already.
pub fn game_over(message: &mut Vec<Caption>)
    ensures
        final(message)@ == shown_once(old(message)@),
{
    if message.len() == 0 {
        message.push(Caption::GameOver);
        message.push(Caption::PressEnterToRestart);
        message.push(Caption::PressEscToQuit);
        assert(message@ =~= game_over_screen());
    }
}

/// On Enter, starts a new game: the game-over screen and every enemy go, a
/// new player and the opening enemy come, the wave count returns to 1 and
/// play resumes. Otherwise nothing happens.
pub fn listen_for_restart(
    keys: &Keyboard,
    message: &mut Vec<Caption>,
    zombies: &mut Vec<Zombie>,
    player: &mut Option<Player>,
    wave: &mut u32,
    state: &mut GameState,
)
    ensures
        keys.enter ==> {
            &&& final(message)@ == Seq::<Caption>::empty()
            &&& final(zombies)@ == seq![Zombie::spec_seed()]
            &&& *final(player) == Some(Player::spec_spawn())
            &&& *final(wave) == 1
            &&& *final(state) == GameState::Playing
        },
        !keys.enter ==> {
            &&& final(message)@ == old(message)@
            &&& final(zombies)@ == old(zombies)@
            &&& *final(player) == *old(player)
            &&& *final(wave) == *old(wave)
            &&& *final(state) == *old(state)
        },
{
    if keys.enter {
        message.clear();
        zombies.clear();
        *player = Some(Player::spawn());
        zombies.push(Zombie::seed());
        *wave = 1;
        *state = GameState::Playing;
        assert(zombies@ =~= seq![Zombie::spec_seed()]);
    }
}

impl World {
    /// The world a program starts in: set up, with the start menu shown.
    pub fn new() -> (world: World)
        ensures
            world@ == WorldView::opening(),
            world@.wf(),
    {
        let mut world = setup_game();
        main_menu(&mut world.main_menu);
        assert(world@.main_menu =~= start_menu());
        world
    }
}

/// A tick of play leaves a world as it should be between ticks.
proof fn lemma_play_keeps_wf(before: WorldView, keys: Keyboard, after: WorldView)
    requires
        before.wf(),
        before.state == GameState::Playing,
        before.fought(keys).closes_as(after),
    ensures
        after.wf(),
{
    let sound = |b: Bullet| b.distance.wf();
    let steered = before.steered(keys);
    assert forall|i: int| 0 <= i < steered.bullets.len() implies sound(
        #[trigger] steered.bullets[i],
    ) by {
        if i < before.bullets.len() {
            assert(before.bullets[i].distance.wf());
        }
    }
    let flown = flown_all(steered.bullets);
    assert forall|i: int| 0 <= i < flown.len() implies sound(#[trigger] flown[i]) by {
        assert(sound(steered.bullets[i]));
    }
    let live = |b: Bullet| !b.spent();
    lemma_filter_keeps(flown, live, sound);
    let in_flight = unspent(flown);
    assert forall|i: int| 0 <= i < in_flight.len() implies live(#[trigger] in_flight[i]) by {
        flown.lemma_filter_pred(live, i);
    }
    let chased = steered.with_bullets_flown().with_zombies_moved().with_player_caught();
    assert(chased.bullets == in_flight);
    let miss = |b: Bullet| !hits_any(b, chased.zombies);
    lemma_filter_keeps(in_flight, miss, sound);
    lemma_filter_keeps(in_flight, miss, live);
    let left = missing(in_flight, chased.zombies);
    assert(after.bullets == left);
    assert forall|i: int| 0 <= i < after.bullets.len() implies {
        &&& (#[trigger] after.bullets[i]).distance.wf()
        &&& !after.bullets[i].distance.spec_spent()
    } by {
        assert(sound(left[i]));
        assert(live(left[i]));
    }
}

/// Runs one tick. On the start menu it waits for Enter. In play the player
/// walks and fires, the projectiles fly and the spent ones go, the enemies
/// chase, collisions are settled, a wave comes if no enemy is left, and the
/// camera follows. When the game is over its screen goes up and Enter starts
/// a new game.
pub fn tick(world: &mut World, keys: &Keyboard)
    ensures
        old(world)@.ticks_to(*keys, final(world)@),
        old(world)@.wf() ==> final(world)@.wf(),
{
    match world.state {
        GameState::Start => {
            check_start(keys, &mut world.main_menu, &mut world.state);
        },
        GameState::Playing => {
            move_player(keys, &mut world.player);
            player_shoot(keys, &world.player, &mut world.bullets);
            assert(world@ == old(world)@.steered(*keys));
            move_bullet(&mut world.bullets);
            despawn_bullet(&mut world.bullets);
            move_zombies(&world.player, &mut world.zombies);
            zombie_player_collision(&mut world.player, &world.zombies, &mut world.state);
            zombie_bullet_collision(
                &mut world.bullets,
                &mut world.zombies,
                &mut world.score,
                &mut world.score_text,
            );
            assert(world@ == old(world)@.fought(*keys));
            next_zombie_wave(&world.player, &mut world.zombies, &mut world.wave);
            update_camera(&world.player, &mut world.camera);
            proof {
                if old(world)@.wf() {
                    lemma_play_keeps_wf(old(world)@, *keys, world@);
                }
            }
        },
        GameState::GameOver => {
            game_over(&mut world.game_over_message);
            listen_for_restart(
                keys,
                &mut world.game_over_message,
                &mut world.zombies,
                &mut world.player,
                &mut world.wave,
                &mut world.state,
            );
        },
    }
}

} // verus!
