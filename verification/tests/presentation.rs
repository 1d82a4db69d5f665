use firered::battle::glue::{find_lead, has_ready_member, BattleTrainerEntry, BattleType, PartyMember};
use firered::battle::transitions::introductions::basic::{BasicBattleIntroduction, PlayerDraw};
use firered::battle::transitions::introductions::trainer::TrainerBattleIntroduction;
use firered::battle::transitions::introductions::{IntroCues, Introductions};
use firered::battle::transitions::managers::introduction::{BattleIntroductionManager, IntroDraw};
use firered::battle::transitions::managers::transition::BattleScreenTransitionManager;
use firered::battle::transitions::screen::VerticalCloseBattleScreenTransition;
use firered::battle::transitions::TransitionState;
use firered::gui::basic_button::BasicButton;
use firered::gui::battle::battle_gui::BattleGui;
use firered::gui::battle::health_bar::{HealthBar, Shade};
use firered::gui::battle::player_panel::{BattleBackground, PlayerBounce, PlayerPanel};
use firered::gui::battle::pokemon_gui::PokemonGui;
use firered::gui::panels::target::{BattlePartyUnknown, Pressed, TargetPanel, UnknownPokemon};
use firered::lifecycle::{Completable, Entity, Reset};
use firered::text::TextDisplay;

fn member(name: &str, species: u16, hp: u16, max_hp: u16) -> PartyMember {
    PartyMember { species, name: name.to_string(), level: 12, hp, max_hp }
}

fn quiet() -> IntroCues {
    IntroCues { opponent_cry: false, player_cry: false }
}

#[test]
fn leaders_are_found() {
    let party = vec![member("a", 1, 0, 9), member("b", 2, 0, 9), member("c", 3, 4, 9), member("d", 4, 5, 9)];
    assert!(has_ready_member(&party));
    assert_eq!(find_lead(&party), 2);
    let down = vec![member("a", 1, 0, 9), member("b", 2, 0, 9)];
    assert!(!has_ready_member(&down));
    assert_eq!(find_lead(&down), 0);
    assert!(!has_ready_member(&Vec::new()));
    assert_eq!(find_lead(&Vec::new()), 0);
    assert!(member("a", 1, 0, 9).fainted());
    assert!(!member("a", 1, 1, 9).fainted());
}

#[test]
fn wild_opening_names_the_opponent_in_capitals() {
    let mut intro = BasicBattleIntroduction::new();
    let mut text = TextDisplay::new();
    intro.reset();
    intro.spawn("Bulbasaur", "Nidoran f", &mut text);
    assert!(intro.alive());
    assert!(text.alive());
    assert_eq!(text.len(), 2);
    assert_eq!(text.page_lines(0).unwrap(), vec!["Wild NIDORAN F appeared!".to_string()]);
    assert_eq!(text.page_lines(1).unwrap(), vec!["Go! Bulbasaur!".to_string()]);
    intro.despawn(&mut text);
    assert!(!intro.alive());
    assert!(!text.alive());
}

#[test]
fn wild_opening_runs_to_its_end() {
    let mut intro = BasicBattleIntroduction::new();
    let mut text = TextDisplay::new();
    let mut player = PokemonGui::new(127, 75);
    let mut opponent = PokemonGui::new(14, 18);
    intro.reset();
    intro.spawn("Bulbasaur", "Rattata", &mut text);

    let cues = intro.update(100, false, &mut player, &mut opponent, &mut text);
    assert_eq!(cues, IntroCues { opponent_cry: true, player_cry: false });
    assert!(opponent.alive());
    assert!(!player.alive());
    assert_eq!(intro.render_player(0), PlayerDraw::Thrower { x: 41000, y: 49, frame_y: 0 });

    let cues = intro.update(100, false, &mut player, &mut opponent, &mut text);
    assert_eq!(cues, quiet());
    assert_eq!(text.current(), 0);

    let cues = intro.update(100, true, &mut player, &mut opponent, &mut text);
    assert_eq!(cues, quiet());
    assert_eq!(text.current(), 1);
    assert_eq!(intro.render_player(0), PlayerDraw::Thrower { x: 23000, y: 49, frame_y: 64 });

    intro.update(200, false, &mut player, &mut opponent, &mut text);
    assert_eq!(intro.render_player(5000), PlayerDraw::Thrower { x: -8000, y: 49, frame_y: 128 });
    intro.update(100, false, &mut player, &mut opponent, &mut text);
    assert_eq!(intro.render_player(0), PlayerDraw::Thrower { x: -31000, y: 49, frame_y: 192 });
    let cues = intro.update(100, false, &mut player, &mut opponent, &mut text);
    assert_eq!(cues, quiet());
    assert_eq!(intro.render_player(0), PlayerDraw::Thrower { x: -49000, y: 49, frame_y: 256 });
    assert!(!text.finished());

    let cues = intro.update(100, false, &mut player, &mut opponent, &mut text);
    assert_eq!(cues, IntroCues { opponent_cry: false, player_cry: true });
    assert!(player.alive());
    assert!(text.finished());
    assert!(text.alive());
    assert_eq!(intro.render_player(1000), PlayerDraw::Combatant { x: 41000, y: 113 });
    assert_eq!(intro.render_offset(1000), ((143000, 74), PlayerDraw::Combatant { x: 41000, y: 113 }));
    assert!(!intro.finished());

    let cues = intro.update(100, false, &mut player, &mut opponent, &mut text);
    assert_eq!(cues, quiet());
    assert!(!text.alive());
    assert!(!intro.finished());

    let mut frames = 0;
    while !intro.finished() {
        let cues = intro.update(100, false, &mut player, &mut opponent, &mut text);
        assert_eq!(cues, quiet());
        frames += 1;
        assert!(frames < 100);
    }
    assert_eq!(frames, 5);
    intro.reset();
    assert!(!intro.finished());
}

#[test]
fn trainer_opening_lets_the_trainer_leave() {
    let mut intro = TrainerBattleIntroduction::new();
    let mut text = TextDisplay::new();
    let mut player = PokemonGui::new(127, 75);
    let mut opponent = PokemonGui::new(14, 18);
    let trainer = BattleTrainerEntry {
        name: "Lass Ann".to_string(),
        badge: None,
        sprite: 9,
        transition: 0,
        victory_message: Vec::new(),
        worth: 10,
    };
    intro.reset();
    intro.spawn("Mew", "Oddish", Some(&trainer), &mut text);
    assert_eq!(text.len(), 3);
    assert_eq!(
        text.page_lines(0).unwrap(),
        vec!["Lass Ann".to_string(), "would like to battle!".to_string()]
    );
    assert_eq!(text.page_lines(1).unwrap(), vec!["Lass Ann sent".to_string(), "out Oddish!".to_string()]);
    assert_eq!(text.page_lines(2).unwrap(), vec!["Go! Mew!".to_string()]);

    let cues = intro.update(100, false, &mut player, &mut opponent, &mut text);
    assert_eq!(cues, quiet());
    let draw = intro.draw(0);
    assert_eq!(draw.trainer, Some((9, 144000, 74)));
    assert_eq!(draw.opponent, None);

    let cues = intro.update(100, true, &mut player, &mut opponent, &mut text);
    assert_eq!(cues, IntroCues { opponent_cry: true, player_cry: false });
    assert_eq!(text.current(), 1);
    assert_eq!(intro.draw(1000).trainer, Some((9, 173000, 74)));
    intro.update(100, false, &mut player, &mut opponent, &mut text);
    assert_eq!(intro.draw(0).trainer, Some((9, 204000, 74)));
    intro.update(300, false, &mut player, &mut opponent, &mut text);
    let draw = intro.draw(0);
    assert_eq!(draw.trainer, None);
    assert_eq!(draw.opponent, Some((144000, 74)));
    assert_eq!(text.current(), 1);
    intro.update(100, false, &mut player, &mut opponent, &mut text);
    assert_eq!(text.current(), 2);

    let mut missing = TextDisplay::new();
    intro.reset();
    intro.spawn("Mew", "Oddish", None, &mut missing);
    assert_eq!(missing.len(), 2);
    assert_eq!(missing.page_lines(0).unwrap(), vec!["No trainer data found!".to_string()]);
    assert_eq!(intro.draw(0).trainer, None);
    assert!(!intro.finished());
}

#[test]
fn introduction_manager_picks_by_battle_type() {
    let mut text = TextDisplay::new();
    let mut state = TransitionState::Begin;
    let mut manager = BattleIntroductionManager::new();
    assert_eq!(manager.current(), Introductions::default());
    manager.begin(&mut state, BattleType::GymLeader, "Mew", "Onix", None, &mut text);
    assert_eq!(state, TransitionState::Run);
    assert_eq!(manager.current(), Introductions::Trainer);
    assert!(matches!(manager.draw(0), IntroDraw::Trainer(_)));
    manager.begin(&mut state, BattleType::Wild, "Mew", "Onix", None, &mut text);
    assert_eq!(manager.current(), Introductions::Basic);
    assert_eq!(text.page_lines(0).unwrap(), vec!["Wild ONIX appeared!".to_string()]);
    assert!(matches!(
        manager.draw(2000),
        IntroDraw::Basic { opponent: (142000, 74), player: PlayerDraw::Thrower { x: 43000, y: 49, frame_y: 0 } }
    ));
    manager.begin(&mut state, BattleType::Trainer, "Mew", "Onix", None, &mut text);
    assert_eq!(manager.current(), Introductions::Trainer);
}

#[test]
fn transition_manager_waits_for_its_end() {
    let mut text = TextDisplay::new();
    let mut player = PokemonGui::new(127, 75);
    let mut opponent = PokemonGui::new(14, 18);
    let mut manager = BattleScreenTransitionManager::new();
    assert_eq!(manager.state(), TransitionState::Begin);
    assert_eq!(manager.update(100, true, &mut player, &mut opponent, &mut text), quiet());
    assert!(!opponent.alive());
    manager.begin(BattleType::Wild, None, "Mew", "Onix", &mut text);
    assert_eq!(manager.state(), TransitionState::Run);
    assert!(!manager.finished());
    let mut frames = 0;
    while manager.state() == TransitionState::Run {
        manager.update(100, true, &mut player, &mut opponent, &mut text);
        frames += 1;
        assert!(frames < 100);
    }
    assert_eq!(manager.state(), TransitionState::End);
    assert!(manager.finished());
    let slide = player.render().unwrap().x;
    assert_eq!(manager.update(100, true, &mut player, &mut opponent, &mut text), quiet());
    assert_eq!(player.render().unwrap().x, slide);
    assert_eq!(manager.state(), TransitionState::End);
    manager.end();
    assert_eq!(manager.state(), TransitionState::Begin);
    assert!(!manager.finished());
    manager.begin(BattleType::Wild, None, "Mew", "Onix", &mut text);
    manager.reset();
    assert_eq!(manager.state(), TransitionState::Begin);
}

#[test]
fn the_wipe_closes_and_speeds_up() {
    let mut wipe = VerticalCloseBattleScreenTransition::new();
    assert!(!wipe.alive());
    wipe.spawn();
    assert!(wipe.alive());
    wipe.update(100);
    let bars = wipe.render();
    assert_eq!((bars.0.y, bars.0.height, bars.0.width), (0, 12000, 240000));
    assert_eq!((bars.1.y, bars.1.height), (148000, 12000));
    wipe.update(101);
    assert_eq!(wipe.render().0.height, 24120);
    assert_eq!(wipe.render().1.height, 25000);
    assert_eq!(wipe.render().1.y, 135880);
    wipe.update(100);
    assert_eq!(wipe.render().0.height, 48120);
    assert!(!wipe.finished());
    wipe.update(50);
    assert_eq!(wipe.render().0.height, 72120);
    wipe.update(1);
    assert_eq!(wipe.render().0.height, 73080);
    assert!(!wipe.finished());
    wipe.update(4);
    assert_eq!(wipe.render().0.height, 80000);
    assert!(wipe.finished());
    for _ in 0..40 {
        wipe.update(u32::MAX);
    }
    assert_eq!(wipe.render().0.height, 80000);
    wipe.reset();
    assert!(!wipe.finished());
    assert!(wipe.alive());
    assert_eq!(wipe.render().0.height, 0);
    wipe.update(100);
    assert_eq!(wipe.render().0.height, 12000);
    wipe.update(1000);
    assert!(wipe.finished());
    wipe.despawn();
    assert!(!wipe.alive());
    assert!(!wipe.finished());
}

#[test]
fn health_bar_shows_the_share() {
    let mut bar = HealthBar::new(3, 4, 10, 20);
    assert!(bar.is_active());
    assert_eq!(bar.width(), 48);
    bar.update_bar(10, 20);
    assert_eq!(bar.width(), 24);
    assert_eq!(bar.width, 24);
    bar.update_bar(1, 3);
    assert_eq!(bar.width(), 16);
    bar.update_bar(5, 48);
    assert_eq!(bar.width(), 5);
    bar.update_bar(0, 7);
    assert_eq!(bar.width(), 0);
    bar.update_bar(7, 7);
    assert_eq!(bar.width(), 48);
    bar.update_bar(100, 7);
    assert_eq!(bar.width(), 255);
    bar.update_bar(0, 0);
    assert_eq!(bar.width(), 0);
    bar.update_bar(1, 0);
    assert_eq!(bar.width(), 255);
    bar.update_bar(usize::MAX, usize::MAX);
    assert_eq!(bar.width(), 48);
    let bars = bar.render();
    assert_eq!((bars.0.shade, bars.0.x, bars.0.y, bars.0.width, bars.0.height), (Shade::Upper, 13, 24, 48, 1));
    assert_eq!((bars.1.shade, bars.1.x, bars.1.y, bars.1.width, bars.1.height), (Shade::Lower, 13, 25, 48, 2));
    bar.update_position(-5, isize::MAX);
    assert_eq!(bar.render().0.x, -2);
    assert_eq!(bar.render().1.y, isize::MAX as i128 + 5);
    bar.disable();
    assert!(bar.is_active());
    bar.enable();
    assert!(bar.is_active());
    assert_eq!(Shade::Upper.rgba(), (88, 208, 128, 255));
    assert_eq!(Shade::Lower.rgba(), (112, 248, 168, 255));
}

#[test]
fn status_panel_slides_in() {
    let mut gui = PokemonGui::new(14, 18);
    assert!(gui.render().is_none());
    assert!(!gui.offset(100));
    gui.update_gui(&member("Abra", 63, 5, 20));
    gui.spawn();
    let draw = gui.render().unwrap();
    assert_eq!((draw.x, draw.y, draw.level), (142000, 18, 12));
    assert_eq!(draw.name, "Abra");
    assert_eq!(draw.health.0.width, 12);
    assert_eq!((draw.health.0.x, draw.health.0.y), (53, 35));
    assert!(!gui.offset(500));
    assert_eq!(gui.render().unwrap().x, 22000);
    assert!(!gui.offset(500));
    assert_eq!(gui.render().unwrap().x, 14000);
    assert!(gui.offset(500));
    gui.reset();
    assert!(!gui.alive());
    gui.spawn();
    assert_eq!(gui.render().unwrap().x, 142000);
    gui.despawn();
    assert!(!gui.alive());
}

#[test]
fn battle_gui_holds_the_pieces() {
    let mut gui = BattleGui::new();
    assert!(!gui.alive());
    gui.on_battle_start(&member("Abra", 63, 20, 20), &member("Zubat", 41, 3, 12));
    gui.spawn();
    assert!(gui.alive());
    assert!(gui.player_panel.alive());
    let layer = gui.render_panel();
    assert_eq!(layer.panel.unwrap().name, "Abra");
    assert!(layer.text.is_none());
    assert!(gui.render().0.is_none());
    gui.opponent_pokemon_gui.spawn();
    gui.player_pokemon_gui.spawn();
    let (opponent, player) = gui.render();
    assert_eq!(opponent.unwrap().name, "Zubat");
    assert_eq!(player.unwrap().health.0.width, 48);
    gui.update_gui(&member("Abra", 63, 10, 20), &member("Zubat", 41, 0, 12));
    assert_eq!(gui.render().0.unwrap().health.0.width, 0);
    assert_eq!(gui.render().1.unwrap().health.1.width, 24);
    gui.battle_text.push(firered::text::MessagePage::new(vec!["Hi".to_string()], None));
    gui.battle_text.spawn();
    assert_eq!(gui.render_panel().text.unwrap(), vec!["Hi".to_string()]);
    gui.update(300, true);
    assert!(gui.battle_text.finished());
    assert_eq!(gui.player_bounce.lift(), 1);
    gui.update(200, false);
    assert_eq!(gui.player_bounce.lift(), 0);
    assert_eq!(gui.render_background(-3000).x, -3000);
    gui.reset();
    assert!(!gui.player_pokemon_gui.alive());
    assert!(!gui.opponent_pokemon_gui.alive());
    gui.despawn();
    assert!(!gui.alive());
    assert!(!gui.player_panel.alive());
    assert!(!gui.battle_text.alive());
}

#[test]
fn small_pieces_of_the_battle_screen() {
    assert_eq!(BattleBackground::new().render(7).x, 7);
    let mut panel = PlayerPanel::new(0, 113);
    assert!(panel.render().is_none());
    panel.update_text(&member("Abra", 63, 1, 2));
    panel.spawn();
    let draw = panel.render().unwrap();
    assert_eq!((draw.x, draw.y), (0, 113));
    assert_eq!(draw.name, "Abra");
    panel.despawn();
    assert!(!panel.alive());
    let mut bounce = PlayerBounce::new();
    assert_eq!(bounce.lift(), 0);
    bounce.update(249);
    assert_eq!(bounce.lift(), 0);
    bounce.update(1);
    assert_eq!(bounce.lift(), 1);
    bounce.update(u32::MAX);
    assert_eq!(bounce.lift(), if (250u64 + u32::MAX as u64) % 500 >= 250 { 1 } else { 0 });
    bounce.reset();
    assert_eq!(bounce.lift(), 0);
}

#[test]
fn basic_button_is_text_in_a_panel() {
    let mut button = BasicButton::new("Fight", 1, 10, 20, 100, 200);
    assert!(!button.is_active());
    assert_eq!(button.get_text(), "Fight");
    assert_eq!(button.get_font_id(), 1);
    let draw = button.render();
    assert_eq!((draw.font_id, draw.x, draw.y), (1, 110, 220));
    assert_eq!(draw.text, "Fight");
    button.enable();
    assert!(button.is_active());
    button.update_position(isize::MIN, isize::MAX);
    assert_eq!(button.render().x, isize::MIN as i128 + 10);
    assert_eq!(button.render().y, isize::MAX as i128 + 20);
    button.disable();
    assert!(!button.is_active());
}

fn targets() -> BattlePartyUnknown {
    BattlePartyUnknown {
        pokemon: vec![
            Some(UnknownPokemon { name: "Abra".to_string() }),
            None,
            Some(UnknownPokemon { name: "Zubat".to_string() }),
        ],
        active: vec![Some(2), None, Some(1), Some(0)],
    }
}

#[test]
fn target_panel_lists_the_field() {
    let mut panel = TargetPanel::new();
    assert_eq!(panel.names.len(), 0);
    let party = targets();
    assert!(party.is_valid());
    panel.cursor = 3;
    panel.update_names(&party);
    assert_eq!(panel.cursor, 3);
    assert_eq!(
        panel.names,
        vec![Some("Zubat".to_string()), None, Some("Unknown".to_string()), Some("Abra".to_string())]
    );
    let labels = panel.draw();
    assert_eq!(labels.len(), 4);
    assert_eq!((labels[0].text.as_str(), labels[0].x, labels[0].y, labels[0].cursor), ("Zubat", 16, 121, None));
    assert_eq!((labels[1].text.as_str(), labels[1].x, labels[1].y, labels[1].cursor), ("None", 88, 121, None));
    assert_eq!((labels[2].text.as_str(), labels[2].x, labels[2].y, labels[2].cursor), ("Unknown", 16, 138, None));
    assert_eq!(
        (labels[3].text.as_str(), labels[3].x, labels[3].y, labels[3].cursor),
        ("Abra", 88, 138, Some((82, 140)))
    );
    assert_eq!(panel.draw_panel(), (0, 113, 160, 47));
    let broken = BattlePartyUnknown { pokemon: Vec::new(), active: vec![None, Some(0)] };
    assert!(!broken.is_valid());
}

#[test]
fn target_panel_moves_the_cursor() {
    let none = Pressed { up: false, down: false, left: false, right: false };
    let mut panel = TargetPanel::new();
    panel.update_names(&targets());
    panel.input(Pressed { down: true, ..none });
    assert_eq!(panel.cursor, 2);
    panel.input(Pressed { down: true, ..none });
    assert_eq!(panel.cursor, 3);
    panel.input(Pressed { right: true, ..none });
    assert_eq!(panel.cursor, 3);
    panel.input(Pressed { left: true, ..none });
    assert_eq!(panel.cursor, 2);
    panel.input(Pressed { up: true, left: true, ..none });
    assert_eq!(panel.cursor, 0);
    panel.input(Pressed { up: true, left: true, ..none });
    assert_eq!(panel.cursor, 0);
    panel.input(Pressed { right: true, ..none });
    assert_eq!(panel.cursor, 1);
    panel.input(Pressed { up: true, down: true, left: true, right: true });
    assert_eq!(panel.cursor, 3);
    panel.input(none);
    assert_eq!(panel.cursor, 3);
    panel.names.truncate(2);
    panel.input(none);
    assert_eq!(panel.cursor, 1);
    panel.cursor = 9;
    panel.reset();
    assert_eq!(panel.cursor, 0);
    panel.cursor = 1;
    panel.reset();
    assert_eq!(panel.cursor, 1);
}

#[test]
fn panel_updates_ask_for_each_cry_once() {
    let mut intro = BasicBattleIntroduction::new();
    let mut text = TextDisplay::new();
    let mut player = PokemonGui::new(127, 75);
    let mut opponent = PokemonGui::new(14, 18);
    intro.reset();
    intro.spawn("Bulbasaur", "Rattata", &mut text);
    let mut opponent_cries = 0;
    let mut player_cries = 0;
    for frame in 0..50u32 {
        let cues = intro.update_gui(1 + frame * 7, &mut player, &mut opponent, &text);
        if cues.opponent_cry {
            opponent_cries += 1;
            assert!(opponent.alive());
            assert_eq!(frame, 0);
        }
        if cues.player_cry {
            player_cries += 1;
        }
    }
    assert_eq!((opponent_cries, player_cries), (1, 0));
    assert!(!player.alive());

    intro.advance(100, true, &mut text);
    assert_eq!(text.current(), 1);
    assert_eq!(intro.render_player(0), PlayerDraw::Thrower { x: 23000, y: 49, frame_y: 64 });
    assert!(opponent.offset(0));
    intro.advance(1000, false, &mut text);
    assert_eq!(intro.render_player(0), PlayerDraw::Combatant { x: 40000, y: 113 });
    assert!(text.alive());
    for frame in 0..50u32 {
        let cues = intro.update_gui(frame, &mut player, &mut opponent, &text);
        assert!(!cues.opponent_cry);
        if cues.player_cry {
            player_cries += 1;
            assert!(player.alive());
            assert_eq!(frame, 0);
        }
    }
    assert_eq!(player_cries, 1);
    assert!(!intro.finished());
    intro.advance(0, false, &mut text);
    assert!(!text.alive());
    assert!(intro.finished());
    let cues = intro.update_gui(u32::MAX, &mut player, &mut opponent, &text);
    assert_eq!(cues, quiet());
    assert!(intro.finished());
}

#[test]
fn a_new_battle_screen_has_every_piece_in_place() {
    let mut gui = BattleGui::new();
    assert!(!gui.alive());
    assert_eq!(gui.battle_text.len(), 0);
    assert_eq!(gui.player_bounce.lift(), 0);
    gui.spawn();
    gui.player_pokemon_gui.spawn();
    gui.opponent_pokemon_gui.spawn();
    let panel = gui.render_panel().panel.unwrap();
    assert_eq!((panel.x, panel.y), (0, 113));
    assert_eq!(panel.name, "");
    let (opponent, player) = gui.render();
    let (opponent, player) = (opponent.unwrap(), player.unwrap());
    assert_eq!((opponent.x, opponent.y, opponent.level), (142000, 18, 0));
    assert_eq!((player.x, player.y, player.level), (255000, 75, 0));
    assert_eq!(opponent.name, "");
    assert_eq!(player.name, "");
    assert_eq!(opponent.health.0.width, 48);
    assert_eq!(player.health.1.width, 48);
    assert_eq!((player.health.0.x, player.health.0.y), (166, 92));
}
