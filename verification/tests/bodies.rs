use sshattrick::body::{resolve_collision, Body, CollisionType};
use sshattrick::goalie::Goalie;
use sshattrick::input::KeyCode;
use sshattrick::orientation::Orientation;
use sshattrick::player::Player;
use sshattrick::puck::Puck;
use sshattrick::rect::Rect;
use sshattrick::types::GameSide;
use sshattrick::units::UNIT;

fn head(player: &Player) -> (i64, i64) {
    let offset = player.head_position_offset();
    (player.position().0 + offset.0, player.position().1 + offset.1)
}

#[test]
fn skater_starts_on_its_side() {
    let red = Player::new(GameSide::Red);
    assert_eq!(red.side(), GameSide::Red);
    assert_eq!(red.position(), (20 * UNIT, 40 * UNIT));
    assert_eq!(red.velocity(), (0, 0));
    assert_eq!(red.orientation(), Orientation::Right);
    assert_eq!(red.new_orientation(), None);
    assert_eq!(red.shooting_direction(), None);
    assert_eq!(red.shooting_counter(), 0);
    assert_eq!(red.after_shooting_counter(), 0);
    assert_eq!(red.after_got_stolen_counter(), 0);
    assert_eq!(red.mass(), 20);
    let blue = Player::new(GameSide::Blue);
    assert_eq!(blue.side(), GameSide::Blue);
    assert_eq!(blue.position(), (132 * UNIT, 40 * UNIT));
    assert_eq!(blue.orientation(), Orientation::Left);
}

#[test]
fn skater_size_follows_its_orientation() {
    let mut player = Player::new(GameSide::Red);
    player.set_position((50 * UNIT, 40 * UNIT));
    assert_eq!(player.size(), (8 * UNIT, 20 * UNIT));
    player.rotate(Orientation::Up);
    assert_eq!(player.size(), (20 * UNIT, 8 * UNIT));
    player.rotate(Orientation::Down);
    assert_eq!(player.size(), (20 * UNIT, 8 * UNIT));
    player.rotate(Orientation::Left);
    assert_eq!(player.size(), (8 * UNIT, 20 * UNIT));
    player.rotate(Orientation::DownLeft);
    assert_eq!(player.size(), (15 * UNIT, 15 * UNIT));
}

#[test]
fn test_player_rotation_center() {
    let mut player = Player::new(GameSide::Red);
    player.set_position((50 * UNIT, 40 * UNIT));
    let pivot = head(&player);
    assert_eq!(pivot, (52 * UNIT, 44 * UNIT));
    for _ in 0..16 {
        let new_orientation = player.orientation().next();
        player.rotate(new_orientation);
        assert_eq!(player.orientation(), new_orientation);
        assert_eq!(head(&player), pivot);
        assert_eq!(player.head_position(), pivot);
    }
    assert_eq!(player.orientation(), Orientation::Right);
    assert_eq!(player.position(), (50 * UNIT, 40 * UNIT));
}

#[test]
fn rotation_moves_the_position_about_the_head() {
    let mut player = Player::new(GameSide::Red);
    player.set_position((50 * UNIT, 40 * UNIT));
    // Right has its head at (2, 4), UpRight at (2, 5).
    player.rotate(Orientation::UpRight);
    assert_eq!(player.position(), (50 * UNIT, 39 * UNIT));
    // Up has its head at (4, 3).
    player.rotate(Orientation::Up);
    assert_eq!(player.position(), (48 * UNIT, 41 * UNIT));
    // Down has its head at (13, 2).
    player.rotate(Orientation::Down);
    assert_eq!(player.position(), (39 * UNIT, 42 * UNIT));
}

#[test]
fn test_player_collision_boxes() {
    let mut full_box_player = Player::new(GameSide::Red);
    full_box_player.set_position((50 * UNIT, 40 * UNIT));
    let mut minimal_box_player = Player::new(GameSide::Blue);
    minimal_box_player.set_position((100 * UNIT, 40 * UNIT));
    assert_eq!(
        full_box_player.full_collision_rect(),
        Rect { x: 50, y: 40, width: 8, height: 20 }
    );
    assert_eq!(
        minimal_box_player.minimal_collision_rect(),
        Rect { x: 100, y: 46, width: 8, height: 14 }
    );
    for _ in 0..16 {
        let full_box = full_box_player.full_collision_rect();
        let size = full_box_player.size();
        assert_eq!(full_box.x as i64, full_box_player.position().0 / UNIT);
        assert_eq!(full_box.y as i64, full_box_player.position().1 / UNIT);
        assert_eq!(full_box.width as i64, size.0 / UNIT);
        assert_eq!(full_box.height as i64, size.1 / UNIT);
        let minimal_box = minimal_box_player.minimal_collision_rect();
        let x = (minimal_box_player.position().0 / UNIT) as u16;
        let y = (minimal_box_player.position().1 / UNIT) as u16;
        let expected = match minimal_box_player.orientation() {
            Orientation::Up => Rect { x, y, width: 14, height: 8 },
            Orientation::UpLeft => Rect { x, y: y + 5, width: 13, height: 10 },
            Orientation::Left => Rect { x, y: y + 6, width: 8, height: 14 },
            Orientation::DownLeft => Rect { x: x + 5, y: y + 2, width: 10, height: 13 },
            Orientation::Down => Rect { x: x + 6, y, width: 14, height: 8 },
            Orientation::DownRight => Rect { x: x + 2, y, width: 13, height: 10 },
            Orientation::Right => Rect { x, y, width: 8, height: 14 },
            Orientation::UpRight => Rect { x, y, width: 10, height: 13 },
        };
        assert_eq!(minimal_box, expected);
        full_box_player.rotate(full_box_player.orientation().next());
        minimal_box_player.rotate(minimal_box_player.orientation().previous());
    }
}

#[test]
fn skater_velocity_is_shortened_to_its_limit() {
    let mut player = Player::new(GameSide::Red);
    player.set_velocity((1_000_000, 0));
    assert_eq!(player.velocity(), (1_000_000, 0));
    player.set_velocity((3_000_000, -4_000_000));
    assert_eq!(player.velocity(), (780_000, -1_040_000));
    player.set_velocity((0, 1_300_001));
    assert_eq!(player.velocity(), (0, 1_300_000));
}

#[test]
fn skater_is_held_within_the_rink_and_bounces() {
    let mut player = Player::new(GameSide::Red);
    player.set_velocity((-1_000_000, 400_000));
    player.set_position((2 * UNIT, 40 * UNIT));
    assert_eq!(player.position(), (3 * UNIT, 40 * UNIT));
    assert_eq!(player.velocity(), (250_000, 400_000));
    // The right wall: the skater is 8 wide.
    player.set_velocity((1_000_000, 400_000));
    player.set_position((150 * UNIT, 40 * UNIT));
    assert_eq!(player.position(), (149 * UNIT, 40 * UNIT));
    assert_eq!(player.velocity(), (-250_000, 400_000));
    // The upper wall scales both axes.
    player.set_velocity((1_000_000, -400_000));
    player.set_position((50 * UNIT, 0));
    assert_eq!(player.position(), (50 * UNIT, 3 * UNIT));
    assert_eq!(player.velocity(), (-250_000, 100_000));
    // The lower wall: the skater is 20 high.
    player.set_velocity((1_000_000, 400_000));
    player.set_position((50 * UNIT, 64 * UNIT));
    assert_eq!(player.position(), (50 * UNIT, 63 * UNIT));
    assert_eq!(player.velocity(), (-250_000, -100_000));
    // A corner: the sideways bounce comes first, then the upright one.
    player.set_velocity((-800_000, -800_000));
    player.set_position((-5 * UNIT, -5 * UNIT));
    assert_eq!(player.position(), (3 * UNIT, 3 * UNIT));
    assert_eq!(player.velocity(), (-50_000, 200_000));
    // Inside: nothing but the position changes.
    player.set_velocity((100_000, 100_000));
    player.set_position((60 * UNIT + 1, 30 * UNIT + 2));
    assert_eq!(player.position(), (60 * UNIT + 1, 30 * UNIT + 2));
    assert_eq!(player.velocity(), (100_000, 100_000));
}

#[test]
fn skater_step_applies_friction_and_moves() {
    let mut player = Player::new(GameSide::Red);
    player.set_position((50 * UNIT, 40 * UNIT));
    player.set_velocity((1_000_000, -400_000));
    player.update(18);
    assert_eq!(player.velocity(), (975_000, -390_000));
    assert_eq!(player.position(), (50_975_000, 39_610_000));
    player.update(36);
    assert_eq!(player.velocity(), (950_625, -380_250));
    assert_eq!(player.position(), (50_975_000 + 1_901_250, 39_610_000 - 760_500));
    // A burst of speed is shortened after friction.
    player.steer(KeyCode::Right);
    player.steer(KeyCode::Right);
    player.steer(KeyCode::Right);
    assert_eq!(player.velocity(), (1_550_625, -380_250));
    player.update(18);
    let v = player.velocity();
    assert!(v.0 * v.0 + v.1 * v.1 <= 1_300_000i64 * 1_300_000);
    assert!(v.0 > 1_200_000 && v.1 < 0);
}

#[test]
fn skater_takes_its_pending_orientation_when_it_steps() {
    let mut player = Player::new(GameSide::Red);
    player.set_position((50 * UNIT, 40 * UNIT));
    player.set_velocity((500_000, 0));
    player.steer(KeyCode::Up);
    // Up asks for UpLeft, which is three steps ahead of Right.
    assert_eq!(player.new_orientation(), Some(Orientation::UpRight));
    assert_eq!(player.velocity(), (500_000, -200_000));
    let pivot = head(&player);
    player.update(0);
    assert_eq!(player.orientation(), Orientation::UpRight);
    assert_eq!(player.new_orientation(), None);
    assert_eq!(head(&player), pivot);
}

#[test]
fn steering_brakes_harder_than_it_accelerates() {
    let mut player = Player::new(GameSide::Red);
    player.steer(KeyCode::Right);
    assert_eq!(player.velocity(), (200_000, 0));
    // At rest before the press: no turn is asked for.
    assert_eq!(player.new_orientation(), None);
    player.steer(KeyCode::Left);
    assert_eq!(player.velocity(), (-200_000, 0));
    assert_eq!(player.new_orientation(), Some(Orientation::DownRight));
    player.steer(KeyCode::Left);
    assert_eq!(player.velocity(), (-400_000, 0));
    player.steer(KeyCode::Right);
    assert_eq!(player.velocity(), (0, 0));
    player.steer(KeyCode::Down);
    assert_eq!(player.velocity(), (0, 200_000));
    player.steer(KeyCode::Up);
    assert_eq!(player.velocity(), (0, -200_000));
    player.steer(KeyCode::Up);
    assert_eq!(player.velocity(), (0, -400_000));
    player.steer(KeyCode::Down);
    assert_eq!(player.velocity(), (0, 0));
    player.steer(KeyCode::Enter);
    assert_eq!(player.velocity(), (0, 0));
}

#[test]
fn steering_turns_one_step_toward_the_key() {
    let mut player = Player::new(GameSide::Red);
    player.set_velocity((100_000, 0));
    // Right asks for UpRight, one step ahead of Right.
    player.steer(KeyCode::Right);
    assert_eq!(player.new_orientation(), Some(Orientation::UpRight));
    // Down asks for DownRight, one step back.
    player.steer(KeyCode::Down);
    assert_eq!(player.new_orientation(), Some(Orientation::DownRight));
    // Left asks for DownLeft, three steps back.
    player.steer(KeyCode::Left);
    assert_eq!(player.new_orientation(), Some(Orientation::DownRight));
    // A key that does not steer leaves the pending turn.
    player.steer(KeyCode::Tab);
    assert_eq!(player.new_orientation(), Some(Orientation::DownRight));
}

#[test]
fn charging_slows_aims_and_steps_back() {
    let mut player = Player::new(GameSide::Red);
    player.set_velocity((1_000_000, -200_000));
    player.start_charge();
    assert_eq!(player.shooting_counter(), 350);
    assert_eq!(player.velocity(), (850_000, -170_000));
    assert_eq!(player.new_orientation(), Some(Orientation::DownRight));
    assert_eq!(player.shooting_direction(), Some((707_106, 707_106)));
    player.adjust_aim(KeyCode::Up);
    assert_eq!(player.shooting_direction(), Some((707_106, 357_106)));
    player.adjust_aim(KeyCode::Left);
    assert_eq!(player.shooting_direction(), Some((357_106, 357_106)));
    player.adjust_aim(KeyCode::Down);
    player.adjust_aim(KeyCode::Right);
    player.adjust_aim(KeyCode::Char('x'));
    assert_eq!(player.shooting_direction(), Some((707_106, 707_106)));
    let shot = player.release_shot();
    assert_eq!(shot, (2_121_318, 2_121_318));
    assert_eq!(player.shooting_counter(), 0);
    assert_eq!(player.shooting_direction(), None);
    assert_eq!(player.after_shooting_counter(), 50 * UNIT);
    assert_eq!(player.new_orientation(), Some(Orientation::UpRight));
}

#[test]
fn default_aim_is_one_step_ahead_of_the_orientation() {
    let expected = [
        (Orientation::Up, (707_106, -707_106)),
        (Orientation::UpLeft, (0, -1_000_000)),
        (Orientation::Left, (-707_106, -707_106)),
        (Orientation::DownLeft, (-1_000_000, 0)),
        (Orientation::Down, (-707_106, 707_106)),
        (Orientation::DownRight, (0, 1_000_000)),
        (Orientation::Right, (707_106, 707_106)),
        (Orientation::UpRight, (1_000_000, 0)),
    ];
    for (orientation, aim) in expected {
        let mut player = Player::new(GameSide::Red);
        player.set_position((50 * UNIT, 40 * UNIT));
        player.rotate(orientation);
        player.start_charge();
        assert_eq!(player.shooting_direction(), Some(aim));
        assert_eq!(player.new_orientation(), Some(orientation.previous()));
    }
}

#[test]
fn aim_without_a_direction_starts_from_the_velocity() {
    let mut player = Player::new(GameSide::Red);
    player.set_velocity((100_000, 200_000));
    player.adjust_aim(KeyCode::Right);
    assert_eq!(player.shooting_direction(), Some((450_000, 200_000)));
    let mut still = Player::new(GameSide::Blue);
    still.set_velocity((100_000, 200_000));
    assert_eq!(still.release_shot(), (300_000, 600_000));
}

#[test]
fn reset_puts_the_skater_back() {
    let mut player = Player::new(GameSide::Blue);
    player.set_position((60 * UNIT, 30 * UNIT));
    player.set_velocity((500_000, 500_000));
    player.rotate(Orientation::Up);
    player.start_charge();
    player.rob();
    player.reset();
    assert_eq!(player.position(), (132 * UNIT, 40 * UNIT));
    assert_eq!(player.velocity(), (0, 0));
    assert_eq!(player.orientation(), Orientation::Left);
    assert_eq!(player.new_orientation(), None);
    assert_eq!(player.shooting_direction(), None);
    assert_eq!(player.shooting_counter(), 0);
    assert_eq!(player.after_shooting_counter(), 0);
    assert_eq!(player.after_got_stolen_counter(), 0);
    assert_eq!(player.side(), GameSide::Blue);
    // A second reset changes nothing.
    player.reset();
    assert_eq!(player.position(), (132 * UNIT, 40 * UNIT));
    assert_eq!(player.after_got_stolen_counter(), 0);
}

#[test]
fn cooldowns_run_with_the_skater() {
    let mut player = Player::new(GameSide::Red);
    player.rob();
    player.start_charge();
    player.release_shot();
    player.update(18);
    assert_eq!(player.after_shooting_counter(), 49 * UNIT);
    assert_eq!(player.after_got_stolen_counter(), 49 * UNIT);
    player.update(18 * 60);
    assert_eq!(player.after_shooting_counter(), 0);
    assert_eq!(player.after_got_stolen_counter(), 0);
}

#[test]
fn catcher_point_follows_position_and_orientation() {
    let mut player = Player::new(GameSide::Red);
    player.set_position((50 * UNIT, 40 * UNIT));
    assert_eq!(player.catcher_position(), (56 * UNIT, 58 * UNIT));
    player.rotate(Orientation::UpRight);
    assert_eq!(player.position(), (50 * UNIT, 39 * UNIT));
    assert_eq!(player.catcher_position(), (65 * UNIT, 51 * UNIT));
}

#[test]
fn test_goalie_collision_boxes() {
    let mut red_goalie = Goalie::new(GameSide::Red);
    let mut blue_goalie = Goalie::new(GameSide::Blue);
    assert_eq!(red_goalie.position(), (3 * UNIT, 40 * UNIT));
    assert_eq!(blue_goalie.position(), (151 * UNIT, 40 * UNIT));
    assert_eq!(red_goalie.size(), (6 * UNIT, 7 * UNIT));
    assert_eq!(red_goalie.mass(), 1000);
    for idx in 0..40 {
        let dy = if idx < 20 { UNIT } else { -UNIT };
        red_goalie.set_position((red_goalie.position().0, red_goalie.position().1 + dy));
        blue_goalie.set_position((blue_goalie.position().0, blue_goalie.position().1 + dy));
        for goalie in [&red_goalie, &blue_goalie] {
            let y = goalie.position().1;
            assert!(31 * UNIT <= y && y <= 48 * UNIT);
            let minimal_box = goalie.minimal_collision_rect();
            assert_eq!(minimal_box.y as i64, y / UNIT);
            assert_eq!(minimal_box.width, 6);
            assert_eq!(minimal_box.height, 7);
        }
        assert_eq!(
            red_goalie.full_collision_rect(),
            Rect { x: 3, y: 30, width: 8, height: 26 }
        );
        assert_eq!(
            blue_goalie.full_collision_rect(),
            Rect { x: 149, y: 30, width: 8, height: 26 }
        );
        assert_eq!(red_goalie.minimal_collision_rect().x, 3);
        assert_eq!(blue_goalie.minimal_collision_rect().x, 151);
    }
    // Twenty steps down from 40 end at the lower bound of the band, and
    // twenty steps up at 28 below it, held at the upper bound.
    assert_eq!(red_goalie.position().1, 31 * UNIT);
}

#[test]
fn goalie_keeps_its_line_and_its_band() {
    let mut goalie = Goalie::new(GameSide::Blue);
    goalie.set_position((10 * UNIT, 100 * UNIT));
    assert_eq!(goalie.position(), (151 * UNIT, 48 * UNIT));
    goalie.set_position((10 * UNIT, 0));
    assert_eq!(goalie.position(), (151 * UNIT, 31 * UNIT));
    goalie.set_velocity((700_000, -300_000));
    assert_eq!(goalie.velocity(), (0, -300_000));
    goalie.update(1000);
    assert_eq!(goalie.position(), (151 * UNIT, 31 * UNIT));
    assert_eq!(goalie.saves(), 0);
    goalie.count_save();
    assert_eq!(goalie.saves(), 1);
    assert_eq!(goalie.side(), GameSide::Blue);
}

#[test]
fn puck_enters_from_either_wall() {
    let top = Puck::entering(true);
    assert_eq!(top.position(), (79 * UNIT, 3 * UNIT));
    assert_eq!(top.velocity(), (0, UNIT));
    assert_eq!(top.possession(), None);
    let bottom = Puck::entering(false);
    assert_eq!(bottom.position(), (79 * UNIT, 83 * UNIT));
    assert_eq!(bottom.velocity(), (0, -UNIT));
    for _ in 0..32 {
        let puck = Puck::new();
        assert!(puck.position() == top.position() || puck.position() == bottom.position());
        assert_eq!(puck.velocity().1 > 0, puck.position().1 == 3 * UNIT);
        assert_eq!(puck.possession(), None);
    }
    assert_eq!(top.mass(), 1);
    assert_eq!(top.size(), (2 * UNIT, 2 * UNIT));
}

#[test]
fn test_puck_position() {
    let mut player = Player::new(GameSide::Red);
    player.set_position((50 * UNIT, 40 * UNIT));
    let mut puck = Puck::new();
    for _ in 0..16 {
        let offset = sshattrick::orientation::puck_catcher_offset(player.orientation());
        puck.set_position((player.position().0 + offset.0, player.position().1 + offset.1));
        assert_eq!(puck.position(), player.catcher_position());
        player.rotate(player.orientation().next());
    }
}

#[test]
fn puck_bounces_off_the_walls_without_loss() {
    let mut puck = Puck::entering(true);
    puck.set_velocity((-1_500_000, 700_000));
    puck.set_position((2 * UNIT, 40 * UNIT));
    assert_eq!(puck.position(), (3 * UNIT, 40 * UNIT));
    assert_eq!(puck.velocity(), (1_500_000, 700_000));
    puck.set_position((156 * UNIT, 40 * UNIT));
    assert_eq!(puck.position(), (155 * UNIT, 40 * UNIT));
    assert_eq!(puck.velocity(), (-1_500_000, 700_000));
    puck.set_position((80 * UNIT, 82 * UNIT));
    assert_eq!(puck.position(), (80 * UNIT, 81 * UNIT));
    assert_eq!(puck.velocity(), (-1_500_000, -700_000));
    puck.set_position((80 * UNIT, UNIT));
    assert_eq!(puck.position(), (80 * UNIT, 3 * UNIT));
    assert_eq!(puck.velocity(), (-1_500_000, 700_000));
    puck.set_position((0, 0));
    assert_eq!(puck.position(), (3 * UNIT, 3 * UNIT));
    assert_eq!(puck.velocity(), (1_500_000, -700_000));
    puck.set_position((155 * UNIT, 81 * UNIT));
    assert_eq!(puck.position(), (155 * UNIT, 81 * UNIT));
    assert_eq!(puck.velocity(), (1_500_000, -700_000));
}

#[test]
fn puck_step_applies_friction_and_moves() {
    let mut puck = Puck::entering(true);
    puck.update(18);
    assert_eq!(puck.velocity(), (0, 990_000));
    assert_eq!(puck.position(), (79 * UNIT, 3_990_000));
    puck.set_velocity((3_000_000, 4_000_000));
    assert_eq!(puck.velocity(), (1_320_000, 1_760_000));
    puck.update(9);
    assert_eq!(puck.velocity(), (1_306_800, 1_742_400));
    assert_eq!(puck.position(), (79 * UNIT + 653_400, 3_990_000 + 871_200));
    // From the lower wall the puck is first held, and turned round.
    let mut low = Puck::entering(false);
    low.update(18);
    assert_eq!(low.position(), (79 * UNIT, 81 * UNIT));
    assert_eq!(low.velocity(), (0, 990_000));
}

#[test]
fn test_goal_areas() {
    let mut puck = Puck::new();
    let mut score = 0;
    let mut y: i64 = 0;
    loop {
        puck.set_position((137 * UNIT, 30 * UNIT + y));
        puck.set_velocity((2_000_000, 0));
        let mut scored = false;
        for _ in 0..40 {
            puck.update(18);
            if puck.has_scored().is_some() {
                assert_eq!(puck.has_scored(), Some(GameSide::Red));
                scored = true;
                break;
            }
            if puck.velocity().0 < 0 {
                break;
            }
        }
        let row = 30 + y / UNIT;
        assert_eq!(scored, (31..=53).contains(&row), "row {}", row);
        if scored {
            score += 1;
        }
        y += UNIT;
        if y > 30 * UNIT {
            break;
        }
    }
    assert_eq!(score, 23);
}

#[test]
fn goals_count_at_the_walls_within_the_mouth() {
    let mut puck = Puck::entering(true);
    puck.set_position((3 * UNIT, 31 * UNIT));
    assert_eq!(puck.has_scored(), Some(GameSide::Blue));
    puck.set_position((3 * UNIT, 53 * UNIT));
    assert_eq!(puck.has_scored(), Some(GameSide::Blue));
    puck.set_position((3 * UNIT, 53 * UNIT + 1));
    assert_eq!(puck.has_scored(), None);
    puck.set_position((3 * UNIT, 31 * UNIT - 1));
    assert_eq!(puck.has_scored(), None);
    puck.set_position((3 * UNIT + 1, 40 * UNIT));
    assert_eq!(puck.has_scored(), None);
    puck.set_position((155 * UNIT, 40 * UNIT));
    assert_eq!(puck.has_scored(), Some(GameSide::Red));
    puck.set_position((155 * UNIT - 1, 40 * UNIT));
    assert_eq!(puck.has_scored(), None);
    puck.set_position((80 * UNIT, 40 * UNIT));
    assert_eq!(puck.has_scored(), None);
}

#[test]
fn puck_hitboxes_are_two_and_six_cells_wide() {
    let mut puck = Puck::entering(true);
    puck.set_position((56 * UNIT + 500_000, 40 * UNIT + 999_999));
    assert_eq!(puck.minimal_collision_rect(), Rect { x: 56, y: 40, width: 2, height: 2 });
    assert_eq!(puck.full_collision_rect(), Rect { x: 54, y: 38, width: 6, height: 6 });
    puck.set_position((0, 0));
    assert_eq!(puck.full_collision_rect(), Rect { x: 1, y: 1, width: 6, height: 6 });
}

#[test]
fn test_puck_possession() {
    let mut red_player = Player::new(GameSide::Red);
    red_player.set_position((50 * UNIT, 40 * UNIT));
    red_player.set_velocity((300_000, -100_000));
    let mut puck = Puck::new();
    puck.set_possession(Some(GameSide::Red));
    puck.attach_to_player(&red_player);
    for _ in 0..16 {
        assert_eq!(puck.possession(), Some(GameSide::Red));
        assert_eq!(puck.position(), red_player.catcher_position());
        assert_eq!(puck.velocity(), red_player.velocity());
        let full_box = puck.full_collision_rect();
        assert_eq!(full_box.x as i64, puck.position().0 / UNIT - 2);
        assert_eq!(full_box.y as i64, puck.position().1 / UNIT - 2);
        assert_eq!((full_box.width, full_box.height), (6, 6));
        red_player.rotate(red_player.orientation().next());
        puck.attach_to_player(&red_player);
    }
}

#[test]
fn attached_puck_is_held_within_the_rink() {
    let mut player = Player::new(GameSide::Red);
    player.set_position((3 * UNIT, 3 * UNIT));
    player.rotate(Orientation::DownLeft);
    // Turned about its head, the skater reaches over the corner of the rink.
    let catcher = player.catcher_position();
    assert_eq!(catcher, (-7 * UNIT, UNIT));
    player.set_velocity((400_000, 0));
    let mut puck = Puck::entering(true);
    puck.attach_to_player(&player);
    assert_eq!(puck.position(), (3 * UNIT, 3 * UNIT));
    assert_eq!(puck.velocity(), (400_000, 0));
}

#[test]
fn catching_needs_a_free_puck_a_rested_skater_and_reach() {
    let mut player = Player::new(GameSide::Red);
    player.set_position((50 * UNIT, 40 * UNIT));
    let mut puck = Puck::entering(true);
    // The catcher point is at (56, 58).
    puck.set_position((56 * UNIT, 58 * UNIT));
    assert!(puck.can_be_catched_by_player(&player));
    // The loose hitbox reaches two cells to the left and up, and three
    // cells to the right and down of the puck's cell.
    puck.set_position((58 * UNIT, 60 * UNIT));
    assert!(puck.can_be_catched_by_player(&player));
    puck.set_position((59 * UNIT, 58 * UNIT));
    assert!(!puck.can_be_catched_by_player(&player));
    puck.set_position((53 * UNIT, 55 * UNIT));
    assert!(puck.can_be_catched_by_player(&player));
    puck.set_position((52 * UNIT, 58 * UNIT));
    assert!(!puck.can_be_catched_by_player(&player));
    puck.set_position((56 * UNIT, 58 * UNIT));
    puck.set_possession(Some(GameSide::Blue));
    assert!(!puck.can_be_catched_by_player(&player));
    puck.set_possession(Some(GameSide::Red));
    assert!(!puck.can_be_catched_by_player(&player));
    puck.set_possession(None);
    player.start_charge();
    player.release_shot();
    assert!(!puck.can_be_catched_by_player(&player));
}

#[test]
fn stealing_needs_the_other_side_to_hold_the_puck() {
    let mut player = Player::new(GameSide::Red);
    player.set_position((50 * UNIT, 40 * UNIT));
    let mut puck = Puck::entering(true);
    puck.set_position((56 * UNIT, 58 * UNIT));
    assert!(!puck.can_be_stolen_by_player(&player));
    puck.set_possession(Some(GameSide::Red));
    assert!(!puck.can_be_stolen_by_player(&player));
    puck.set_possession(Some(GameSide::Blue));
    assert!(puck.can_be_stolen_by_player(&player));
    // The tight hitbox is the puck's two by two cells.
    puck.set_position((55 * UNIT, 57 * UNIT));
    assert!(puck.can_be_stolen_by_player(&player));
    puck.set_position((54 * UNIT, 57 * UNIT));
    assert!(!puck.can_be_stolen_by_player(&player));
    puck.set_position((57 * UNIT, 58 * UNIT));
    assert!(!puck.can_be_stolen_by_player(&player));
    puck.set_position((56 * UNIT, 58 * UNIT));
    player.rob();
    assert!(!puck.can_be_stolen_by_player(&player));
    // A fresh shot does not keep a skater from stealing.
    let mut shooter = Player::new(GameSide::Red);
    shooter.set_position((50 * UNIT, 40 * UNIT));
    shooter.start_charge();
    shooter.release_shot();
    assert!(puck.can_be_stolen_by_player(&shooter));
}

#[test]
fn collision_conserves_momentum_with_restitution() {
    let mut red = Player::new(GameSide::Red);
    red.set_position((50 * UNIT, 40 * UNIT));
    red.set_velocity((1_000_000, 0));
    let mut blue = Player::new(GameSide::Blue);
    blue.set_position((55 * UNIT, 40 * UNIT));
    blue.rotate(Orientation::Right);
    blue.set_position((55 * UNIT, 40 * UNIT));
    blue.set_velocity((-500_000, 200_000));
    assert!(resolve_collision(
        &mut red,
        &mut blue,
        CollisionType::Minimal,
        CollisionType::Minimal
    ));
    // Equal masses: the centre of mass moves at (0.25, 0.1).
    assert_eq!(red.velocity(), (-275_000, 170_000));
    assert_eq!(blue.velocity(), (775_000, 30_000));
    assert_eq!(red.position(), (50 * UNIT, 40 * UNIT));
    // Apart: nothing changes.
    blue.set_position((58 * UNIT, 40 * UNIT));
    assert!(!resolve_collision(
        &mut red,
        &mut blue,
        CollisionType::Minimal,
        CollisionType::Minimal
    ));
    assert_eq!(red.velocity(), (-275_000, 170_000));
    assert_eq!(blue.velocity(), (775_000, 30_000));
}

#[test]
fn test_goalie_collision() {
    let mut puck = Puck::new();
    puck.set_position((132 * UNIT, 42 * UNIT));
    puck.set_velocity((850_000, 0));
    let mut goalie = Goalie::new(GameSide::Blue);
    let mut hits = 0;
    for _ in 0..250 {
        let puck_previous_position = puck.position();
        puck.update(20);
        if resolve_collision(
            &mut puck,
            &mut goalie,
            CollisionType::Minimal,
            CollisionType::Minimal,
        ) {
            if hits == 0 {
                // The goalie is a thousand times as heavy and at rest: the
                // puck comes back with seven tenths of its speed.
                assert!(puck.velocity().0 < 0);
                assert_eq!(goalie.velocity().0, 0);
            }
            hits += 1;
            puck.set_position(puck_previous_position);
        }
        assert!(puck.position().0 >= 3 * UNIT && puck.position().0 <= 155 * UNIT);
    }
    assert!(hits >= 1);
    assert_eq!(goalie.position(), (151 * UNIT, 40 * UNIT));
}

#[test]
fn heavy_goalie_sends_the_puck_back() {
    let mut puck = Puck::entering(true);
    puck.set_position((150 * UNIT, 42 * UNIT));
    puck.set_velocity((1_000_000, 0));
    let mut goalie = Goalie::new(GameSide::Blue);
    assert!(resolve_collision(
        &mut puck,
        &mut goalie,
        CollisionType::Minimal,
        CollisionType::Minimal
    ));
    // Centre of mass: 1_000_000 / 1001 = 999. Puck: (17 * 999 - 7_000_000) / 10.
    assert_eq!(puck.velocity(), (-698_301, 0));
    // Goalie: 17 * 999 / 10 = 1698, of which it keeps the vertical part.
    assert_eq!(goalie.velocity(), (0, 0));
    // One cell to the left the hitboxes do not touch.
    let mut far = Puck::entering(true);
    far.set_position((148 * UNIT + 999_999, 42 * UNIT));
    far.set_velocity((1_000_000, 0));
    assert!(!resolve_collision(
        &mut far,
        &mut goalie,
        CollisionType::Minimal,
        CollisionType::Minimal
    ));
    assert_eq!(far.velocity(), (1_000_000, 0));
    // The goalie's loose hitbox is the whole goal area.
    assert!(resolve_collision(
        &mut far,
        &mut goalie,
        CollisionType::Minimal,
        CollisionType::Full
    ));
}
