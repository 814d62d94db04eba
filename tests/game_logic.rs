use trileks::actor::{Actor, ActorInProgress};
use trileks::game::{command_for_key, Command, Direction, Game, ROBOT_COUNT};
use trileks::grid::{grid_to_scene, scene_to_grid, GridPos, ScenePos};
use trileks::random::random_grid_position;
use uuid::Uuid;

fn handle(n: u8) -> Uuid {
    Uuid::from_bytes(&[n; 16]).unwrap()
}

fn actor(col: usize, row: usize, n: u8) -> Actor {
    Actor { pos: GridPos::new(col, row), sprite_uuid: handle(n), alive: true, moved: false }
}

#[test]
fn grid_to_scene_gives_cell_centres() {
    assert_eq!(grid_to_scene(GridPos::new(0, 0)), ScenePos { x: 50, y: 50 });
    assert_eq!(grid_to_scene(GridPos::new(7, 5)), ScenePos { x: 750, y: 550 });
    assert_eq!(grid_to_scene(GridPos::new(3, 2)), ScenePos { x: 350, y: 250 });
}

#[test]
fn scene_to_grid_truncates() {
    assert_eq!(scene_to_grid(ScenePos { x: 50, y: 50 }), GridPos::new(0, 0));
    assert_eq!(scene_to_grid(ScenePos { x: 149, y: 151 }), GridPos::new(0, 1));
    assert_eq!(scene_to_grid(ScenePos { x: 750, y: 550 }), GridPos::new(7, 5));
}

#[test]
fn scene_round_trip_on_every_cell() {
    for col in 0..8 {
        for row in 0..6 {
            let p = GridPos::new(col, row);
            assert_eq!(scene_to_grid(grid_to_scene(p)), p);
        }
    }
}

#[test]
fn actor_scene_coordinates() {
    let a = actor(4, 1, 1);
    assert_eq!(a.scene_x(), 450);
    assert_eq!(a.scene_y(), 150);
    let p = ActorInProgress { pos: GridPos::new(2, 5), alive: true, sprite_name: "robot" };
    assert_eq!(p.scene_x(), 250);
    assert_eq!(p.scene_y(), 550);
}

#[test]
fn to_actor_keeps_fields() {
    let p = ActorInProgress { pos: GridPos::new(6, 4), alive: true, sprite_name: "frog" };
    let a = p.to_actor(handle(9));
    assert_eq!(a.pos, GridPos::new(6, 4));
    assert!(a.alive);
    assert!(!a.moved);
    assert_eq!(a.sprite_uuid, handle(9));
}

#[test]
fn move_by_inside_board() {
    let mut a = actor(3, 3, 1);
    a.move_by(1, -1);
    assert_eq!(a.pos, GridPos::new(4, 2));
    assert!(a.moved);
}

#[test]
fn move_by_off_board_is_refused() {
    let mut a = actor(0, 0, 1);
    a.move_by(-1, -1);
    assert_eq!(a.pos, GridPos::new(0, 0));
    assert!(!a.moved);
    let mut b = actor(7, 5, 1);
    b.move_by(1, 0);
    assert_eq!(b.pos, GridPos::new(7, 5));
    assert!(!b.moved);
    // a corner move refused on one axis only is refused whole
    let mut c = actor(7, 2, 1);
    c.move_by(1, 1);
    assert_eq!(c.pos, GridPos::new(7, 2));
    assert!(!c.moved);
}

#[test]
fn collides_is_symmetric() {
    let a = actor(2, 2, 1);
    let b = actor(2, 2, 2);
    let c = actor(2, 3, 3);
    assert!(a.collides(&b) && b.collides(&a));
    assert!(!a.collides(&c) && !c.collides(&a));
}

#[test]
fn move_towards_steps_diagonally() {
    let target = actor(5, 0, 1);
    let mut chaser = actor(1, 4, 2);
    chaser.move_towards(&target);
    assert_eq!(chaser.pos, GridPos::new(2, 3));
    let mut same = actor(5, 0, 3);
    same.move_towards(&target);
    assert_eq!(same.pos, GridPos::new(5, 0));
}

#[test]
fn move_towards_never_increases_distance() {
    let target = actor(4, 2, 1);
    for col in 0..8usize {
        for row in 0..6usize {
            let mut c = actor(col, row, 2);
            c.move_towards(&target);
            assert!(c.pos.col.abs_diff(4) <= col.abs_diff(4));
            assert!(c.pos.row.abs_diff(2) <= row.abs_diff(2));
        }
    }
}

#[test]
fn key_bindings() {
    assert_eq!(command_for_key('q'), Some(Command::Step(Direction::NorthWest)));
    assert_eq!(command_for_key('w'), Some(Command::Step(Direction::North)));
    assert_eq!(command_for_key('e'), Some(Command::Step(Direction::NorthEast)));
    assert_eq!(command_for_key('a'), Some(Command::Step(Direction::West)));
    assert_eq!(command_for_key('d'), Some(Command::Step(Direction::East)));
    assert_eq!(command_for_key('z'), Some(Command::Step(Direction::SouthWest)));
    assert_eq!(command_for_key('x'), Some(Command::Step(Direction::South)));
    assert_eq!(command_for_key('c'), Some(Command::Step(Direction::SouthEast)));
    assert_eq!(command_for_key('t'), Some(Command::Relocate));
    assert_eq!(command_for_key('s'), None);
}

#[test]
fn direction_offsets() {
    assert_eq!(Direction::NorthWest.offset(), (-1, -1));
    assert_eq!(Direction::South.offset(), (0, 1));
    assert_eq!(Direction::East.offset(), (1, 0));
}

#[test]
fn east_step_then_robot_chases() {
    let mut g = Game::new(actor(2, 3, 1), vec![actor(5, 3, 2)]);
    let cmd = command_for_key('d').unwrap();
    assert!(g.handle_command(cmd, GridPos::new(0, 0)));
    assert_eq!(g.frog.pos, GridPos::new(3, 3));
    assert!(g.frog.moved);
    assert_eq!(g.robots[0].pos, GridPos::new(4, 3));
}

#[test]
fn spawn_collision_kills_frog_before_input() {
    let mut g = Game::new(actor(0, 0, 1), vec![actor(0, 0, 2)]);
    assert!(g.check_frog());
    assert!(!g.frog.alive);
    // dead frog ignores input
    assert!(!g.handle_command(Command::Step(Direction::East), GridPos::new(4, 4)));
    assert_eq!(g.frog.pos, GridPos::new(0, 0));
    assert_eq!(g.robots[0].pos, GridPos::new(0, 0));
}

#[test]
fn second_frog_check_reports_nothing() {
    let mut g = Game::new(actor(3, 1, 1), vec![actor(3, 1, 2), actor(3, 1, 3)]);
    assert!(g.check_frog());
    assert!(!g.frog.alive);
    assert!(!g.check_frog());
    assert!(!g.frog.alive);
}

#[test]
fn frog_check_without_collision() {
    let mut g = Game::new(actor(3, 1, 1), vec![actor(4, 1, 2)]);
    assert!(!g.check_frog());
    assert!(g.frog.alive);
}

#[test]
fn two_robots_on_one_cell_leave_one_wreck() {
    let mut g = Game::new(actor(0, 0, 1), vec![actor(3, 3, 2), actor(3, 3, 3)]);
    let wrecked = g.check_robots();
    assert_eq!(wrecked, vec![0]);
    assert_eq!(g.robots[0].pos, GridPos::new(3, 3));
    assert!(!g.robots[0].alive);
    assert!(g.robots[1].alive);
    // the survivor keeps chasing; the wreck stays put
    assert!(g.handle_command(Command::Step(Direction::South), GridPos::new(0, 0)));
    assert_eq!(g.frog.pos, GridPos::new(0, 1));
    assert_eq!(g.robots[0].pos, GridPos::new(3, 3));
    assert_eq!(g.robots[1].pos, GridPos::new(2, 2));
    // nothing new on the next frame
    assert_eq!(g.check_robots(), Vec::<usize>::new());
}

#[test]
fn robot_does_not_die_on_a_wreck() {
    let mut dead = actor(2, 2, 2);
    dead.alive = false;
    let mut g = Game::new(actor(0, 0, 1), vec![dead, actor(2, 2, 3)]);
    assert_eq!(g.check_robots(), Vec::<usize>::new());
    assert!(g.robots[1].alive);
}

#[test]
fn three_robots_on_one_cell_leave_two_wrecks() {
    let mut g = Game::new(
        actor(0, 0, 1),
        vec![actor(5, 5, 2), actor(1, 1, 3), actor(5, 5, 4), actor(5, 5, 5)],
    );
    assert_eq!(g.check_robots(), vec![0, 2]);
    assert!(g.robots[1].alive);
    assert!(g.robots[3].alive);
}

#[test]
fn refused_step_moves_nobody() {
    let mut g = Game::new(actor(7, 0, 1), vec![actor(0, 5, 2)]);
    assert!(!g.handle_command(Command::Step(Direction::NorthEast), GridPos::new(0, 0)));
    assert_eq!(g.frog.pos, GridPos::new(7, 0));
    assert!(!g.frog.moved);
    assert_eq!(g.robots[0].pos, GridPos::new(0, 5));
}

#[test]
fn relocate_jumps_and_robots_chase() {
    let mut dead = actor(6, 0, 3);
    dead.alive = false;
    let mut g = Game::new(actor(1, 1, 1), vec![actor(0, 5, 2), dead]);
    assert!(g.handle_command(Command::Relocate, GridPos::new(6, 4)));
    assert_eq!(g.frog.pos, GridPos::new(6, 4));
    assert_eq!(g.robots[0].pos, GridPos::new(1, 4));
    assert_eq!(g.robots[1].pos, GridPos::new(6, 0));
}

#[test]
fn random_positions_lie_on_the_board() {
    let mut rng = rand::thread_rng();
    let mut seen_far_corner = false;
    for _ in 0..2000 {
        let p = random_grid_position(&mut rng);
        assert!(p.col < 8 && p.row < 6);
        if p.col == 7 && p.row == 5 {
            seen_far_corner = true;
        }
    }
    assert!(seen_far_corner);
    assert_eq!(ROBOT_COUNT, 4);
}
