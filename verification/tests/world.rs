use firered::entity::player::{Location, MobCoordinates, Player, PlayerData};
use firered::entity::texture::{MovementTexture, MovementTextureManager, StillTextureManager, ThreeWayTexture};
use firered::lifecycle::Entity;
use firered::world::map::input::{Movement, PlayerCharacter, PlayerInput};
use firered::world::map::set::world_map_set_manager::WorldMapSetManager;
use firered::world::map::set::WorldMapSet;
use firered::world::map::{draw, draw_npcs, MapNpc, Palette, RenderCoords, TileDraw, WorldMap};
use firered::world::positions::{Control, Direction, Held};

fn held() -> Held {
    Held { a: false, b: false, up: false, down: false, left: false, right: false, start: false, select: false }
}

fn walker() -> PlayerCharacter {
    PlayerCharacter {
        moving: false,
        frozen: false,
        input_frozen: false,
        movement: Movement::Walking,
        direction: Direction::Down,
    }
}

fn small_map() -> WorldMap {
    WorldMap {
        id: 4,
        width: 3,
        height: 2,
        tiles: vec![1, 2, 3, 10, 11, 12],
        border: [20, 21, 5, 6],
        npcs: vec![
            MapNpc { id: 1, hidden: false },
            MapNpc { id: 2, hidden: true },
            MapNpc { id: 3, hidden: false },
        ],
    }
}

#[test]
fn directions() {
    assert_eq!(Direction::default(), Direction::Down);
    for direction in [Direction::Up, Direction::Down, Direction::Left, Direction::Right] {
        assert_eq!(direction.inverse().inverse(), direction);
        assert_ne!(direction.inverse(), direction);
        assert_eq!(Direction::from_string(direction.value()), Some(direction));
    }
    assert_eq!(Direction::Up.inverse(), Direction::Down);
    assert_eq!(Direction::Left.inverse(), Direction::Right);
    assert_eq!(Direction::Up.int_value(), 0);
    assert_eq!(Direction::Down.int_value(), 1);
    assert_eq!(Direction::Left.int_value(), 2);
    assert_eq!(Direction::Right.int_value(), 3);
    assert_eq!(Direction::Right.value(), "right");
    assert_eq!(Direction::from_string("Up"), None);
    assert_eq!(Direction::from_string(""), None);
    assert_eq!(PlayerInput::keybind(Direction::Up), Control::Up);
    assert_eq!(PlayerInput::keybind(Direction::Down), Control::Down);
    assert_eq!(PlayerInput::keybind(Direction::Left), Control::Left);
    assert_eq!(PlayerInput::keybind(Direction::Right), Control::Right);
    let keys = Held { a: true, select: true, ..held() };
    assert!(keys.is_down(Control::A));
    assert!(keys.is_down(Control::Select));
    assert!(!keys.is_down(Control::B));
    assert!(!keys.is_down(Control::Start));
}

#[test]
fn input_turns_first_and_walks_after_the_wait() {
    let mut input = PlayerInput::default();
    let mut player = walker();
    let left = Held { left: true, ..held() };
    assert_eq!(input.update(&mut player, &left, 16), None);
    assert_eq!(player.direction, Direction::Left);
    assert_eq!(input.update(&mut player, &left, 60), None);
    assert_eq!(input.update(&mut player, &left, 60), None);
    assert_eq!(input.update(&mut player, &left, 1), None);
    assert_eq!(input.update(&mut player, &left, 1), Some(Direction::Left));
    assert_eq!(input.update(&mut player, &left, 1), Some(Direction::Left));
    assert_eq!(input.update(&mut player, &held(), 1), None);
    assert_eq!(input.update(&mut player, &left, 121), None);
    assert_eq!(input.update(&mut player, &left, 0), Some(Direction::Left));
}

#[test]
fn input_picks_among_held_directions() {
    let mut input = PlayerInput::default();
    let mut player = walker();
    let both = Held { up: true, right: true, ..held() };
    input.update(&mut player, &both, 16);
    assert_eq!(player.direction, Direction::Right);
    let mut input = PlayerInput::default();
    let mut player = walker();
    let opposite = Held { left: true, right: true, ..held() };
    input.update(&mut player, &opposite, 16);
    assert_eq!(player.direction, Direction::Down);
    let mut input = PlayerInput::default();
    let three = Held { up: true, left: true, right: true, ..held() };
    input.update(&mut player, &three, 16);
    assert_eq!(player.direction, Direction::Down);
    let mut input = PlayerInput::default();
    let mut player = PlayerCharacter { direction: Direction::Left, ..walker() };
    let updown = Held { up: true, down: true, ..held() };
    input.update(&mut player, &updown, 16);
    input.update(&mut player, &updown, 200);
    assert_eq!(input.update(&mut player, &updown, 16), Some(Direction::Down));
    assert_eq!(player.direction, Direction::Left);
}

#[test]
fn input_switches_between_walking_and_running() {
    let mut input = PlayerInput::default();
    let mut player = walker();
    input.update(&mut player, &Held { b: true, ..held() }, 16);
    assert_eq!(player.movement, Movement::Running);
    input.update(&mut player, &held(), 16);
    assert_eq!(player.movement, Movement::Walking);
    player.movement = Movement::Swimming;
    input.update(&mut player, &Held { b: true, ..held() }, 16);
    assert_eq!(player.movement, Movement::Swimming);
    for stuck in [
        PlayerCharacter { moving: true, ..walker() },
        PlayerCharacter { frozen: true, ..walker() },
        PlayerCharacter { input_frozen: true, ..walker() },
    ] {
        let mut player = stuck;
        let mut input = PlayerInput::default();
        assert_eq!(input.update(&mut player, &Held { b: true, up: true, down: true, ..held() }, 500), None);
        assert_eq!(input.update(&mut player, &Held { b: true, up: true, down: true, ..held() }, 500), None);
        assert_eq!(player.movement, Movement::Walking);
        assert_eq!(player.direction, Direction::Down);
    }
}

#[test]
fn map_tiles_are_drawn_row_by_row() {
    let map = small_map();
    assert!(map.is_valid());
    let screen = RenderCoords {
        left: 1,
        right: 4,
        top: 0,
        bottom: 2,
        offset_x: 0,
        offset_y: 0,
        focus_x: 8,
        focus_y: -4,
    };
    let tiles = draw(&map, 10, &screen, false);
    assert_eq!(
        tiles,
        vec![
            TileDraw { palette: Palette::Primary, tile: 2, x: 8, y: 4 },
            TileDraw { palette: Palette::Primary, tile: 3, x: 24, y: 4 },
            TileDraw { palette: Palette::Secondary, tile: 1, x: 8, y: 20 },
            TileDraw { palette: Palette::Secondary, tile: 2, x: 24, y: 20 },
        ]
    );
    let with_border = draw(&map, 10, &screen, true);
    assert_eq!(with_border.len(), 6);
    assert_eq!(with_border[2], TileDraw { palette: Palette::Secondary, tile: 11, x: 40, y: 4 });
    assert_eq!(with_border[5], TileDraw { palette: Palette::Primary, tile: 6, x: 40, y: 20 });
}

#[test]
fn map_border_repeats_in_fours() {
    let map = small_map();
    let screen = RenderCoords {
        left: -2,
        right: 0,
        top: -3,
        bottom: -1,
        offset_x: 0,
        offset_y: 0,
        focus_x: 0,
        focus_y: 0,
    };
    let tiles = draw(&map, 100, &screen, true);
    assert_eq!(
        tiles,
        vec![
            TileDraw { palette: Palette::Primary, tile: 5, x: -32, y: -48 },
            TileDraw { palette: Palette::Primary, tile: 6, x: -16, y: -48 },
            TileDraw { palette: Palette::Primary, tile: 20, x: -32, y: -32 },
            TileDraw { palette: Palette::Primary, tile: 21, x: -16, y: -32 },
        ]
    );
    assert_eq!(draw(&map, 100, &screen, false), Vec::<TileDraw>::new());
    let shifted = RenderCoords { left: 5, right: 6, top: 7, bottom: 8, offset_x: 4, offset_y: 6, ..screen };
    assert_eq!(
        draw(&map, 100, &shifted, false),
        vec![TileDraw { palette: Palette::Primary, tile: 11, x: 80, y: 112 }]
    );
    let empty = RenderCoords { left: 3, right: 1, top: 0, bottom: 2, ..screen };
    assert_eq!(draw(&map, 100, &empty, true), Vec::<TileDraw>::new());
    let upside = RenderCoords { left: 0, right: 2, top: 2, bottom: 0, ..screen };
    assert_eq!(draw(&map, 100, &upside, true), Vec::<TileDraw>::new());
    let far = RenderCoords {
        left: i32::MAX - 1,
        right: i32::MAX,
        top: i32::MIN,
        bottom: i32::MIN + 1,
        offset_x: i32::MIN,
        offset_y: i32::MAX,
        focus_x: i32::MIN,
        focus_y: i32::MAX,
    };
    let tiles = draw(&map, 0, &far, true);
    assert_eq!(tiles.len(), 1);
    assert_eq!(tiles[0].x, (i32::MAX as i64 - 1) * 16 - i32::MIN as i64);
    assert_eq!(tiles[0].y, i32::MIN as i64 * 16 - i32::MAX as i64);
    assert_eq!(tiles[0].tile, 5);
    assert_eq!(tiles[0].palette, Palette::Secondary);
}

#[test]
fn broken_maps_are_told_apart() {
    let mut map = small_map();
    map.tiles.pop();
    assert!(!map.is_valid());
    map.tiles.push(0);
    map.tiles.push(0);
    assert!(map.is_valid());
    assert_eq!(map.tile(2, 1), 0);
    assert_eq!(map.tile(1, 1), 11);
    map.width = -3;
    assert!(map.is_valid());
    let screen = RenderCoords {
        left: 0,
        right: 2,
        top: 0,
        bottom: 1,
        offset_x: 0,
        offset_y: 0,
        focus_x: 0,
        focus_y: 0,
    };
    assert_eq!(draw(&map, 100, &screen, false), Vec::<TileDraw>::new());
    map.width = 4;
    assert!(!map.is_valid());
    let nothing = WorldMap { id: 0, width: 0, height: 0, tiles: Vec::new(), border: [0; 4], npcs: Vec::new() };
    assert!(nothing.is_valid());
    let tall = WorldMap { id: 0, width: i32::MAX, height: i32::MAX, tiles: vec![0; 8], border: [0; 4], npcs: Vec::new() };
    assert!(!tall.is_valid());
}

#[test]
fn characters_in_sight_are_drawn() {
    let map = small_map();
    let placed = vec![
        (4, MapNpc { id: 50, hidden: true }),
        (5, MapNpc { id: 51, hidden: false }),
        (4, MapNpc { id: 52, hidden: false }),
    ];
    assert_eq!(draw_npcs(&map, &placed), vec![1, 3, 50, 52]);
    assert_eq!(draw_npcs(&map, &Vec::new()), vec![1, 3]);
}

#[test]
fn map_sets_are_kept_by_name() {
    let mut manager = WorldMapSetManager::new();
    assert!(!manager.alive());
    manager.spawn();
    assert!(manager.alive());
    assert_eq!(manager.get(), "");
    assert!(!manager.contains_key(&"town".to_string()));
    manager.insert("town".to_string(), WorldMapSet::new(vec![small_map()]));
    manager.insert("cave".to_string(), WorldMapSet::new(vec![small_map(), small_map()]));
    assert!(manager.contains_key(&"town".to_string()));
    manager.set(&"nowhere".to_string());
    assert_eq!(manager.get(), "");
    manager.set(&"cave".to_string());
    assert_eq!(manager.get(), "cave");
    assert_eq!(*manager.get_index(), 0);
    manager.set_index(1);
    assert_eq!(*manager.get_index(), 1);
    assert_eq!(manager.map_set().maps.len(), 2);
    assert!(manager.in_bounds(2, 1));
    assert!(!manager.in_bounds(3, 1));
    assert!(!manager.in_bounds(0, -1));
    assert_eq!(manager.tile(1, 1), 11);
    manager.map_set_mut().set(7);
    assert_eq!(*manager.get_index(), 7);
    assert!(!manager.in_bounds(0, 0));
    manager.set(&"town".to_string());
    assert_eq!(*manager.get_index(), 0);
    assert_eq!(manager.values().len(), 2);
    assert_eq!(manager.values()[1].current_map_index, 7);
    manager.insert("cave".to_string(), WorldMapSet::new(Vec::new()));
    assert_eq!(manager.values().len(), 2);
    assert_eq!(manager.values()[1].maps.len(), 0);
    assert_eq!(manager.values()[0].maps.len(), 1);
    manager.despawn();
    assert!(!manager.alive());
}

#[test]
fn player_comes_from_a_saved_game() {
    let data = PlayerData { location: Location { x: 5, y: -3, direction: "left".to_string() } };
    let mut player = Player::new(&data);
    assert!(player.alive());
    assert_eq!(player.coords, MobCoordinates::new(5, -3));
    assert_eq!(player.direction, Direction::Left);
    assert_eq!(player.speed, 1);
    assert!(player.screen_attached);
    let odd = PlayerData { location: Location { x: 0, y: 0, direction: "north".to_string() } };
    assert_eq!(Player::new(&odd).direction, Direction::Right);

    player.coords.x_offset = 3;
    player.focus_update();
    assert_eq!(player.focus_x, 5 * 16 + 3 + 8 - 120);
    assert_eq!(player.focus_y, -3 * 16 + 8 - 80);
    player.screen_attached = false;
    player.coords.x = i32::MAX;
    player.focus_update();
    assert_eq!(player.focus_x, -29);
    assert_eq!(player.coords.pixel_x(), i32::MAX as i64 * 16 + 3);
    assert_eq!(MobCoordinates::new(i32::MIN, i32::MIN).pixel_y(), i32::MIN as i64 * 16);

    player.running = true;
    player.speed = 2;
    player.reset_speed();
    assert!(!player.running);
    assert_eq!(player.speed, 1);
    player.moving();
    assert!(player.moving);

    player.direction = Direction::Up;
    player.coords = MobCoordinates::new(1, 2);
    let mut saved = PlayerData { location: Location { x: 0, y: 0, direction: String::new() } };
    player.save_data(&mut saved);
    assert_eq!((saved.location.x, saved.location.y), (1, 2));
    assert_eq!(saved.location.direction, "up");
    player.despawn();
    assert!(!player.alive());
    player.spawn();
    assert!(player.alive());
    let blank = Player::default();
    assert!(!blank.alive);
    assert_eq!(blank.direction, Direction::Down);
    assert_eq!(blank.speed, 0);
}

#[test]
fn player_textures_are_laid_out() {
    let mut player = Player::default();
    assert!(!player.is_loaded());
    player.load_textures("kanto", true);
    assert!(player.is_loaded());
    assert_eq!(player.textures.len(), 2);
    let walk = &player.textures[0];
    assert_eq!(walk.managers.len(), 3);
    assert_eq!(
        walk.managers[0].texture.textures,
        vec![
            "worlds/kanto/textures/player/idle_up.png".to_string(),
            "worlds/kanto/textures/player/walk_up_l.png".to_string(),
        ]
    );
    assert_eq!(walk.managers[0].texture.indexes, vec![(0, false), (1, false), (0, false), (1, true)]);
    assert_eq!(
        walk.managers[1].texture.textures,
        vec![
            "worlds/kanto/textures/player/idle_down.png".to_string(),
            "worlds/kanto/textures/player/walk_down_l.png".to_string(),
        ]
    );
    assert_eq!(
        walk.managers[2].texture.textures,
        vec![
            "worlds/kanto/textures/player/idle_side.png".to_string(),
            "worlds/kanto/textures/player/walk_side_l.png".to_string(),
            "worlds/kanto/textures/player/walk_side_r.png".to_string(),
        ]
    );
    assert_eq!(walk.managers[2].texture.indexes, vec![(0, false), (1, false), (0, false), (2, false)]);
    assert_eq!(walk.managers[2].tick_length, 8);
    let run = &player.textures[1];
    assert_eq!(
        run.managers[0].texture.textures,
        vec![
            "worlds/kanto/textures/player/run_up.png".to_string(),
            "worlds/kanto/textures/player/run_up_l.png".to_string(),
        ]
    );
    assert_eq!(run.managers[2].texture.textures[2], "worlds/kanto/textures/player/run_side_r.png");
    assert_eq!(run.managers[1].tick_length, 4);

    let mut other = Player::default();
    other.load_textures("kanto", false);
    assert_eq!(other.textures[0].managers[1].texture.textures[0], "worlds/firered/textures/player/idle_down.png");
}

#[test]
fn player_walks_through_its_frames() {
    let data = PlayerData { location: Location { x: 2, y: 2, direction: "right".to_string() } };
    let mut player = Player::new(&data);
    player.load_textures("kanto", true);
    player.focus_update();
    let sprite = player.render().unwrap();
    assert_eq!(sprite.file, "worlds/kanto/textures/player/idle_up.png");
    assert_eq!((sprite.x, sprite.y, sprite.flip), (112, 68, false));

    player.on_try_move(Direction::Right);
    assert_eq!(player.textures[0].direction, 3);
    assert!(!player.textures[0].managers[2].idle);
    let sprite = player.render().unwrap();
    assert_eq!(sprite.file, "worlds/kanto/textures/player/idle_side.png");
    assert!(sprite.flip);
    for _ in 0..8 {
        player.move_update();
    }
    assert_eq!(player.textures[0].managers[2].frame, 1);
    assert_eq!(player.textures[1].managers[2].frame, 0);
    assert_eq!(player.render().unwrap().file, "worlds/kanto/textures/player/walk_side_l.png");
    for _ in 0..16 {
        player.move_update();
    }
    assert_eq!(player.textures[0].managers[2].frame, 3);
    assert_eq!(player.render().unwrap().file, "worlds/kanto/textures/player/walk_side_r.png");
    for _ in 0..8 {
        player.move_update();
    }
    assert_eq!(player.textures[0].managers[2].frame, 0);
    player.on_try_move(Direction::Up);
    for _ in 0..24 {
        player.move_update();
    }
    player.direction = Direction::Up;
    for _ in 0..24 {
        player.move_update();
    }
    let sprite = player.render().unwrap();
    assert_eq!(sprite.file, "worlds/kanto/textures/player/walk_up_l.png");
    assert!(sprite.flip);
    player.on_stopped_moving();
    assert!(player.textures[0].managers[0].idle);
    assert_eq!(player.render().unwrap().file, "worlds/kanto/textures/player/idle_up.png");
    player.running = true;
    assert_eq!(player.render().unwrap().file, "worlds/kanto/textures/player/run_up.png");
    player.despawn();
    assert!(player.render().is_none());
}

#[test]
fn texture_managers() {
    let mut still = StillTextureManager::new("rock.png".to_string(), true);
    still.update();
    still.idle();
    still.unidle();
    still.reset();
    assert_eq!(still.texture(), (&"rock.png".to_string(), true));

    let mut texture = MovementTexture::empty((0, true));
    assert!(!texture.is_valid());
    texture.push_texture("a.png".to_string());
    assert!(texture.is_valid());
    texture.map_to_index(0, false);
    texture.map_to_index(1, false);
    assert!(!texture.is_valid());
    texture.push_texture("b.png".to_string());
    assert!(texture.is_valid());
    let mut manager = MovementTextureManager::new(texture, 2);
    assert_eq!(manager.texture(), (&"a.png".to_string(), true));
    manager.update();
    assert_eq!((manager.tick, manager.frame), (0, 0));
    manager.unidle();
    assert_eq!(manager.texture(), (&"a.png".to_string(), false));
    manager.update();
    assert_eq!((manager.tick, manager.frame), (1, 0));
    manager.update();
    assert_eq!((manager.tick, manager.frame), (0, 1));
    assert_eq!(manager.texture(), (&"b.png".to_string(), false));
    manager.update();
    manager.update();
    assert_eq!((manager.tick, manager.frame), (0, 0));
    manager.update();
    manager.reset();
    assert_eq!((manager.tick, manager.frame), (0, 0));
    manager.tick_length = 0;
    manager.update();
    assert_eq!((manager.tick, manager.frame), (0, 1));
    manager.idle();
    assert!(manager.idle);
    assert_eq!(manager.frame, 0);
    let three = ThreeWayTexture::new();
    assert_eq!(three.managers.len(), 0);
    assert_eq!(three.direction, 0);
}

#[test]
fn player_methods_leave_the_rest_alone() {
    let data = PlayerData { location: Location { x: 2, y: 3, direction: "up".to_string() } };
    let mut player = Player::new(&data);
    player.load_textures("kanto", true);
    player.focus_x = -7;
    player.focus_y = 11;
    player.screen_attached = false;
    player.noclip = true;
    player.running = true;
    player.speed = 2;
    player.reset_speed();
    assert_eq!((player.running, player.speed), (false, 1));
    assert_eq!((player.focus_x, player.focus_y), (-7, 11));
    assert_eq!((player.screen_attached, player.noclip, player.moving, player.alive), (false, true, false, true));
    assert_eq!(player.coords, MobCoordinates::new(2, 3));
    assert_eq!(player.direction, Direction::Up);
    assert_eq!(player.textures.len(), 2);
    player.moving();
    player.on_try_move(Direction::Left);
    player.move_update();
    player.on_stopped_moving();
    player.despawn();
    player.spawn();
    player.focus_update();
    assert_eq!((player.focus_x, player.focus_y), (-7, 11));
    assert_eq!((player.screen_attached, player.noclip, player.moving, player.alive), (false, true, true, true));
    assert_eq!((player.running, player.speed), (false, 1));
    assert_eq!(player.coords, MobCoordinates::new(2, 3));
    assert_eq!(player.direction, Direction::Up);
    assert_eq!(player.textures[0].direction, 0);
    assert_eq!(player.textures[1].direction, 0);
}
