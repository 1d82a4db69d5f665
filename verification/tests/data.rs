use firered::args::{args, contains, Args};
use firered::audio::context::{AudioContext, MusicSource};
use firered::audio::frames::{frames_from_packets, push_packet, DecodeError};
use firered::audio::music::Music;
use firered::battle::glue::BattleTrainerEntry;
use firered::data::font::{characters, iterate_fontsheet, CustomChars, FontSheetData, Glyph};
use firered::data::npc::{
    default_battle_transition, load_npc_entries, trainer_entry, NPCType, SpriteIndexes, TextColor, Trainer,
    TrainerType,
};
use firered::data::pokedex::{moves_at_level, Gender, LearnableMove, PokedexData};
use firered::scene::gamefreak::{GamefreakLoadingScene, LoadingState};
use firered::scene::manager::{Polled, SceneManager, SceneRef};
use firered::scene::scenes::{MainMenuScene, SceneState, Scenes};
use firered::world::map::MapNpc;

#[test]
fn switches_are_listed_in_order() {
    assert_eq!(args(false, false, false), Vec::<Args>::new());
    assert_eq!(args(true, false, false), vec![Args::DisableAudio]);
    assert_eq!(args(false, true, true), vec![Args::Debug, Args::NoSeed]);
    assert_eq!(args(true, true, true), vec![Args::DisableAudio, Args::Debug, Args::NoSeed]);
    let list = args(true, false, true);
    assert!(contains(&list, Args::NoSeed));
    assert!(contains(&list, Args::DisableAudio));
    assert!(!contains(&list, Args::Debug));
}

#[test]
fn music_from_map_numbers() {
    assert_eq!(Music::default(), Music::Pallet);
    assert_eq!(Music::from(0x1F), Music::ViridianForest);
    assert_eq!(Music::from(0x13), Music::Gym);
    assert_eq!(Music::from(0x20), Music::MountMoon);
    assert_eq!(Music::from(0x23), Music::Route1);
    assert_eq!(Music::from(0x24), Music::Route2);
    assert_eq!(Music::from(0x25), Music::Route3);
    assert_eq!(Music::from(0x26), Music::Route4);
    assert_eq!(Music::from(0x34), Music::Fuchsia);
    assert_eq!(Music::from(0x3A), Music::Pewter);
    assert_eq!(Music::from(0x18), Music::Lavender);
    assert_eq!(Music::from(0x35), Music::Celadon);
    assert_eq!(Music::from(0x17), Music::Cinnabar);
    assert_eq!(Music::from(0x39), Music::Vermilion);
    assert_eq!(Music::from(0x2C), Music::Pallet);
    assert_eq!(Music::from(0), Music::Pallet);
    assert_eq!(Music::from(255), Music::Pallet);
    assert!(Music::is_known(0x2C));
    assert!(Music::is_known(0x13));
    assert!(!Music::is_known(0));
    assert!(!Music::is_known(0x27));
}

#[test]
fn music_names_and_included_tracks() {
    let all = Music::all();
    assert_eq!(all.len(), 20);
    assert_eq!(all[0], Music::IntroGamefreak);
    assert_eq!(all[19], Music::BattleGym);
    let names: Vec<&str> = all.iter().map(|music| music.name()).collect();
    assert_eq!(
        names,
        vec![
            "gamefreak",
            "title",
            "pallet",
            "pewter",
            "fuchsia",
            "lavender",
            "celadon",
            "cinnabar",
            "vermilion",
            "route1",
            "route2",
            "route3",
            "route4",
            "viridian_forest",
            "mt_moon",
            "gym",
            "encounter_boy",
            "vs_wild",
            "vs_trainer",
            "vs_gym",
        ]
    );
    let included: Vec<Music> = all.iter().copied().filter(|music| music.included_bytes().is_some()).collect();
    assert_eq!(
        included,
        vec![
            Music::IntroGamefreak,
            Music::Title,
            Music::Pallet,
            Music::EncounterBoy,
            Music::BattleWild,
            Music::BattleTrainer,
            Music::BattleGym,
        ]
    );
    assert_eq!(Music::BattleWild.included_bytes(), Some("vs_wild"));
    assert_eq!(Music::Route1.included_bytes(), None);
}

fn planned(context: &AudioContext, from_files: bool) -> Vec<(Music, String)> {
    context
        .bind_music(from_files)
        .into_iter()
        .map(|binding| {
            (
                binding.music,
                match binding.source {
                    MusicSource::Included(name) => format!("included:{}", name),
                    MusicSource::File(path) => format!("file:{}", path),
                },
            )
        })
        .collect()
}

#[test]
fn music_is_bound_once_from_the_right_place() {
    let mut context = AudioContext::new(true);
    assert!(context.has_manager());
    let plan = planned(&context, false);
    assert_eq!(plan.len(), 7);
    assert_eq!(plan[0], (Music::IntroGamefreak, "included:gamefreak".to_string()));
    assert_eq!(plan[6], (Music::BattleGym, "included:vs_gym".to_string()));
    let plan = planned(&context, true);
    assert_eq!(plan.len(), 20);
    assert_eq!(plan[3], (Music::Pewter, "file:music/pewter.ogg".to_string()));
    assert_eq!(plan[14], (Music::MountMoon, "file:music/mt_moon.ogg".to_string()));
    assert_eq!(plan[2], (Music::Pallet, "included:pallet".to_string()));

    context.insert(Music::IntroGamefreak);
    context.insert(Music::Pewter);
    context.insert(Music::Pewter);
    assert!(context.contains(Music::Pewter));
    assert!(!context.contains(Music::Title));
    let plan = planned(&context, true);
    assert_eq!(plan.len(), 18);
    assert_eq!(plan[0], (Music::Title, "included:title".to_string()));
    assert_eq!(plan[2], (Music::Fuchsia, "file:music/fuchsia.ogg".to_string()));

    let binding = context.bind_gamefreak().unwrap();
    assert_eq!(binding.music, Music::IntroGamefreak);
    assert!(matches!(binding.source, MusicSource::File(path) if path == "music/gamefreak.ogg"));

    let silent = AudioContext::new(false);
    assert!(planned(&silent, true).is_empty());
    assert!(silent.bind_gamefreak().is_none());
}

#[test]
fn packets_become_stereo_frames() {
    let mono = vec![vec![0.5f32, -0.25, 1.0]];
    let stereo = vec![vec![0.1f32, 0.2], vec![0.3, 0.4, 0.9]];
    let packets = vec![mono.clone(), stereo.clone(), vec![Vec::new()]];
    assert_eq!(
        frames_from_packets(&packets),
        Ok(vec![(0.5, 0.5), (-0.25, -0.25), (1.0, 1.0), (0.1, 0.3), (0.2, 0.4)])
    );
    assert_eq!(frames_from_packets(&Vec::<Vec<Vec<f32>>>::new()), Ok(Vec::new()));
    let three = vec![mono.clone(), vec![vec![0.0f32], vec![0.0], vec![0.0]], stereo.clone()];
    assert_eq!(frames_from_packets(&three), Err(DecodeError::UnsupportedChannelConfiguration));
    let none: Vec<Vec<Vec<f32>>> = vec![Vec::new()];
    assert_eq!(frames_from_packets(&none), Err(DecodeError::UnsupportedChannelConfiguration));

    let mut frames = vec![(7u8, 8u8)];
    assert_eq!(push_packet(&mut frames, &vec![vec![1, 2], vec![3, 4]]), Ok(()));
    assert_eq!(frames, vec![(7, 8), (1, 3), (2, 4)]);
    assert_eq!(push_packet(&mut frames, &Vec::new()), Err(DecodeError::UnsupportedChannelConfiguration));
    assert_eq!(frames.len(), 3);
}

#[test]
fn font_sheet_is_cut_into_cells() {
    let custom = vec![
        CustomChars { id: 'b', width: 3, height: None },
        CustomChars { id: 'd', width: 2, height: Some(9) },
        CustomChars { id: 'b', width: 4, height: Some(5) },
        CustomChars { id: 'z', width: 1, height: Some(1) },
    ];
    let data = FontSheetData {
        file: "font.png".to_string(),
        id: 1,
        width: 6,
        height: 12,
        chars: "abcdbé".to_string(),
        custom,
    };
    assert!(data.is_valid(16, 24));
    let font = data.into_sheet(16, 24);
    assert_eq!((font.font_width, font.font_height), (6, 12));
    assert_eq!(font.glyph('a'), Some(Glyph { x: 0, y: 0, width: 6, height: 12 }));
    assert_eq!(font.glyph('c'), Some(Glyph { x: 12, y: 0, width: 6, height: 12 }));
    assert_eq!(font.glyph('d'), Some(Glyph { x: 0, y: 12, width: 2, height: 9 }));
    assert_eq!(font.glyph('b'), Some(Glyph { x: 6, y: 12, width: 6, height: 12 }));
    assert_eq!(font.glyph('é'), Some(Glyph { x: 12, y: 12, width: 6, height: 12 }));
    assert_eq!(font.glyph('z'), None);
    assert_eq!(font.chars.len(), 5);
}

#[test]
fn font_sheet_stops_where_the_sheet_ends() {
    let custom = vec![CustomChars { id: 'b', width: 3, height: None }];
    let chars = iterate_fontsheet("abcde".to_string(), 6, 12, custom.clone(), 12, 13);
    assert_eq!(chars.len(), 4);
    assert_eq!(chars.get(&'b'), Some(&Glyph { x: 6, y: 0, width: 3, height: 12 }));
    assert_eq!(chars.get(&'d'), Some(&Glyph { x: 6, y: 12, width: 6, height: 12 }));
    assert_eq!(chars.get(&'e'), None);
    assert!(iterate_fontsheet("abc".to_string(), 6, 12, Vec::new(), 0, 100).is_empty());
    assert!(iterate_fontsheet("abc".to_string(), 6, 12, Vec::new(), 100, 0).is_empty());
    let wide = iterate_fontsheet("ab".to_string(), 255, 255, Vec::new(), u32::MAX, u32::MAX);
    assert_eq!(wide.get(&'b'), Some(&Glyph { x: 255, y: 0, width: 255, height: 255 }));
    let one = iterate_fontsheet("aaa".to_string(), 1, 1, vec![CustomChars { id: 'a', width: 9, height: Some(8) }], 2, 2);
    assert_eq!(one.len(), 1);
    assert_eq!(one.get(&'a'), Some(&Glyph { x: 0, y: 1, width: 1, height: 1 }));
    assert_eq!(characters("aé!"), vec!['a', 'é', '!']);
}

#[test]
fn font_sheet_with_cells_of_no_size() {
    let flat = iterate_fontsheet("abcde".to_string(), 6, 0, Vec::new(), 12, 3);
    assert_eq!(flat.len(), 5);
    assert_eq!(flat.get(&'a'), Some(&Glyph { x: 0, y: 0, width: 6, height: 0 }));
    assert_eq!(flat.get(&'b'), Some(&Glyph { x: 6, y: 0, width: 6, height: 0 }));
    assert_eq!(flat.get(&'c'), Some(&Glyph { x: 0, y: 0, width: 6, height: 0 }));
    assert_eq!(flat.get(&'e'), Some(&Glyph { x: 0, y: 0, width: 6, height: 0 }));
    let thin = iterate_fontsheet(
        "aba".to_string(),
        0,
        5,
        vec![CustomChars { id: 'a', width: 2, height: None }],
        10,
        10,
    );
    assert_eq!(thin.len(), 2);
    assert_eq!(thin.get(&'a'), Some(&Glyph { x: 0, y: 0, width: 0, height: 5 }));
    assert_eq!(thin.get(&'b'), Some(&Glyph { x: 0, y: 0, width: 0, height: 5 }));
    let point = iterate_fontsheet("a".to_string(), 0, 0, vec![CustomChars { id: 'a', width: 2, height: None }], 1, 1);
    assert_eq!(point.get(&'a'), Some(&Glyph { x: 0, y: 0, width: 2, height: 0 }));
    assert!(iterate_fontsheet(String::new(), 0, 0, Vec::new(), 7, 0).is_empty());
    assert!(iterate_fontsheet(String::new(), 3, 3, Vec::new(), 0, 7).is_empty());
    assert!(iterate_fontsheet("abc".to_string(), 0, 1, Vec::new(), 0, 7).is_empty());

    let sheet = |width: u8, height: u8, chars: &str| FontSheetData {
        file: String::new(),
        id: 0,
        width,
        height,
        chars: chars.to_string(),
        custom: Vec::new(),
    };
    assert!(sheet(0, 0, "a").is_valid(5, 5));
    assert!(!sheet(1, 1, "").is_valid(5, 5));
    assert!(sheet(1, 1, "").is_valid(0, 5));
    assert!(sheet(1, 1, "").is_valid(5, 0));
    assert!(!sheet(1, 0, "a").is_valid(0, 5));
    assert!(sheet(1, 0, "a").is_valid(0, 0));
    assert!(sheet(1, 0, "a").is_valid(5, 5));
}

#[test]
fn characters_are_gathered_by_identifier() {
    let entries = vec![
        (3, MapNpc { id: 30, hidden: false }),
        (1, MapNpc { id: 10, hidden: true }),
        (3, MapNpc { id: 31, hidden: true }),
    ];
    let manager = load_npc_entries(&entries);
    assert_eq!(manager.len(), 2);
    assert_eq!(manager.get(3), Some(MapNpc { id: 31, hidden: true }));
    assert_eq!(manager.get(1), Some(MapNpc { id: 10, hidden: true }));
    assert_eq!(manager.get(2), None);
    assert_eq!(load_npc_entries(&Vec::new()).len(), 0);
}

#[test]
fn trainer_records_are_made_from_the_data() {
    let kind = TrainerType { name: "Youngster".to_string(), badge: Some(4), music: None };
    let trainer = Trainer {
        battle_on_interact: true,
        tracking: Some(3),
        encounter_message: vec![vec!["Hey!".to_string()]],
        battle_transition: default_battle_transition(),
        victory_message: vec![vec!["Aww.".to_string(), "I lost.".to_string()], vec!["Bye.".to_string()]],
        disable: vec![2, 3],
        worth: 120,
    };
    let entry: BattleTrainerEntry = trainer_entry(&kind, "Joey", 77, &trainer);
    assert_eq!(entry.name, "Youngster Joey");
    assert_eq!(entry.badge, Some(4));
    assert_eq!(entry.sprite, 77);
    assert_eq!(entry.transition, u64::from_le_bytes(*b"default\0"));
    assert_eq!(entry.victory_message, trainer.victory_message);
    assert_eq!(entry.worth, 120);
    let npc = NPCType {
        text_color: TextColor::Blue,
        sprite: SpriteIndexes { up: [1, 5, 6], down: [0, 3, 4], side: [2, 7, 8] },
        trainer: Some(kind.clone()),
    };
    assert_eq!(npc.text_color, TextColor::Blue);
    assert_eq!(npc.sprite.side, [2, 7, 8]);
    assert_eq!(npc.trainer.unwrap().name, "Youngster");
}

#[test]
fn pokedex_records() {
    let moves = vec![
        LearnableMove { move_id: 1, level: 1 },
        LearnableMove { move_id: 2, level: 7 },
        LearnableMove { move_id: 3, level: 1 },
    ];
    assert_eq!(moves_at_level(&moves, 1), vec![1, 3]);
    assert_eq!(moves_at_level(&moves, 7), vec![2]);
    assert_eq!(moves_at_level(&moves, 2), Vec::<u128>::new());
    let data = PokedexData { species: "Seed".to_string(), height: 7, weight: 69 };
    assert_eq!(data.clone().species, "Seed");
    assert_ne!(Gender::Male, Gender::Female);
    assert_ne!(Gender::Genderless, Gender::Male);
}

#[test]
fn scenes_follow_each_other() {
    let mut manager = SceneManager::new();
    assert_eq!(manager.current_scene, Scenes::default());
    assert_eq!(manager.title_scene.state, SceneState::Continue);
    assert_eq!(manager.title_scene.accumulator, 0);
    assert_eq!(manager.main_menu_scene.state, SceneState::Continue);
    assert_eq!(manager.main_menu_scene.scene_token, 0);
    assert_eq!(manager.game_scene.state, SceneState::Continue);
    assert!(matches!(manager.get(), SceneRef::Title(_)));
    assert_eq!(manager.poll(), Polled::Update(Scenes::TitleScene));
    manager.request(SceneState::Scene(Scenes::MainMenuScene));
    assert_eq!(manager.state(), SceneState::Scene(Scenes::MainMenuScene));
    assert_eq!(manager.poll(), Polled::Switch(Scenes::TitleScene, Scenes::MainMenuScene));
    assert_eq!(manager.current_scene, Scenes::MainMenuScene);
    assert_eq!(manager.title_scene.state, SceneState::Continue);
    assert!(matches!(manager.get(), SceneRef::MainMenu(_)));
    assert_eq!(manager.poll(), Polled::Update(Scenes::MainMenuScene));
    manager.main_menu_scene.state = SceneState::Scene(Scenes::GameScene);
    assert_eq!(manager.poll(), Polled::Switch(Scenes::MainMenuScene, Scenes::GameScene));
    assert!(matches!(manager.get(), SceneRef::Game(_)));
    manager.request(SceneState::Scene(Scenes::GameScene));
    assert_eq!(manager.poll(), Polled::Switch(Scenes::GameScene, Scenes::GameScene));
    assert_eq!(manager.poll(), Polled::Update(Scenes::GameScene));
    let menu = MainMenuScene::new();
    assert_eq!(menu.name(), "Main Menu");
    assert_eq!(menu.next_scene(), 0);
}

#[test]
fn credits_run_their_time() {
    let mut scene = GamefreakLoadingScene::new();
    assert_eq!(scene.state(), LoadingState::Continue);
    let draw = scene.render();
    assert_eq!((draw.band_y, draw.band_height), (80000, 0));
    assert_eq!(draw.star, Some((240000, 64000, 0)));
    assert_eq!((draw.logo_fade, draw.text_fade), (None, None));
    scene.update(100);
    let draw = scene.render();
    assert_eq!((draw.band_y, draw.band_height), (56000, 48000));
    assert_eq!(draw.star, Some((216000, 64500, 100)));
    scene.update(150);
    assert_eq!(scene.render().band_height, 96000);
    assert_eq!(scene.render().band_y, 32000);
    scene.update(1749);
    assert_eq!(scene.render().star, Some((-239760, 73995, 1999)));
    scene.update(1);
    assert_eq!(scene.render().star, None);
    scene.update(2000);
    assert_eq!(scene.render().text_fade, Some(0));
    assert_eq!(scene.render().logo_fade, None);
    scene.update(2500);
    assert_eq!(scene.render().text_fade, Some(2500));
    assert_eq!(scene.render().logo_fade, Some(500));
    scene.update(2000);
    assert_eq!(scene.state(), LoadingState::Continue);
    scene.update(1);
    assert_eq!(scene.state(), LoadingState::End);
    for _ in 0..70000 {
        scene.update(u32::MAX);
    }
    assert_eq!(scene.render().logo_fade, Some(0xffff_ffff_ffff - 6000));
    assert_eq!(scene.state(), LoadingState::End);
    assert_eq!(scene.on_start(), firered::audio::music::Music::IntroGamefreak);
    assert_eq!(scene.state(), LoadingState::Continue);
    assert_eq!(scene.render().band_height, 0);
}
