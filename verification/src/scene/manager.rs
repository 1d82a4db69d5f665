//! The scene manager: one scene runs at a time, and a scene that asks for
//! another is quit and the other started.

use vstd::prelude::*;
use crate::scene::scenes::{GameScene, MainMenuScene, SceneState, Scenes, TitleScene};

verus! {

/// Holds the scenes and knows which one runs.
pub struct SceneManager {
    /// The scene that runs.
    pub current_scene: Scenes,
    pub title_scene: TitleScene,
    pub main_menu_scene: MainMenuScene,
    pub game_scene: GameScene,
}

/// The scene that runs, to look at.
pub enum SceneRef<'a> {
    Title(&'a TitleScene),
    MainMenu(&'a MainMenuScene),
    Game(&'a GameScene),
}

/// What the caller is to do with the scenes after a poll.
#[derive(Debug, Clone, Copy, PartialEq, Eq, Structural)]
pub enum Polled {
    /// Advance the scene that runs by the frame.
    Update(Scenes),
    /// Quit the first scene, then start the second, which runs from now on.
    Switch(Scenes, Scenes),
}

impl SceneManager {
    /// What the scene that runs wants next.
    pub open spec fn wanted(&self) -> SceneState {
        match self.current_scene {
            Scenes::TitleScene => self.title_scene.state,
            Scenes::MainMenuScene => self.main_menu_scene.state,
            Scenes::GameScene => self.game_scene.state,
        }
    }

    /// Whether `after` is this manager once the scene that ran has handed
    /// over to `scene`: the scene left wants to go on again, and the other
    /// scenes are as they were.
    pub open spec fn handed_over(&self, after: &SceneManager, scene: Scenes) -> bool {
        &&& after.current_scene == scene
        &&& after.title_scene.accumulator == self.title_scene.accumulator
        &&& after.main_menu_scene.scene_token == self.main_menu_scene.scene_token
        &&& after.title_scene.state == (if self.current_scene == Scenes::TitleScene {
            SceneState::Continue
        } else {
            self.title_scene.state
        })
        &&& after.main_menu_scene.state == (if self.current_scene == Scenes::MainMenuScene {
            SceneState::Continue
        } else {
            self.main_menu_scene.state
        })
        &&& after.game_scene.state == (if self.current_scene == Scenes::GameScene {
            SceneState::Continue
        } else {
            self.game_scene.state
        })
    }

    /// What a poll asks of the caller.
    pub open spec fn polled(&self) -> Polled {
        match self.wanted() {
            SceneState::Continue => Polled::Update(self.current_scene),
            SceneState::Scene(scene) => Polled::Switch(self.current_scene, scene),
        }
    }

    /// A manager with the title screen running from its start, and the
    /// other scenes before their first showing.
    pub fn new() -> (manager: Self)
        ensures
            manager.current_scene == Scenes::TitleScene,
            manager.wanted() == SceneState::Continue,
            manager.title_scene.state == SceneState::Continue,
            manager.title_scene.accumulator == 0,
            manager.main_menu_scene.state == SceneState::Continue,
            manager.main_menu_scene.scene_token == 0,
            manager.game_scene.state == SceneState::Continue,
    {
        SceneManager {
            current_scene: Scenes::TitleScene,
            title_scene: TitleScene::new(),
            main_menu_scene: MainMenuScene::new(),
            game_scene: GameScene::new(),
        }
    }

    /// The scene that runs.
    pub fn get(&self) -> (scene: SceneRef<'_>)
        ensures
            match self.current_scene {
                Scenes::TitleScene => scene matches SceneRef::Title(s) && *s == self.title_scene,
                Scenes::MainMenuScene => scene matches SceneRef::MainMenu(s) && *s == self.main_menu_scene,
                Scenes::GameScene => scene matches SceneRef::Game(s) && *s == self.game_scene,
            },
    {
        match self.current_scene {
            Scenes::TitleScene => SceneRef::Title(&self.title_scene),
            Scenes::MainMenuScene => SceneRef::MainMenu(&self.main_menu_scene),
            Scenes::GameScene => SceneRef::Game(&self.game_scene),
        }
    }

    /// What the scene that runs wants next.
    pub fn state(&self) -> (state: SceneState)
        ensures
            state == self.wanted(),
    {
        match self.current_scene {
            Scenes::TitleScene => self.title_scene.state,
            Scenes::MainMenuScene => self.main_menu_scene.state,
            Scenes::GameScene => self.game_scene.state,
        }
    }

    /// Sets what the scene that runs wants next.
    pub fn request(&mut self, state: SceneState)
        ensures
            final(self).current_scene == old(self).current_scene,
            final(self).wanted() == state,
            final(self).title_scene.accumulator == old(self).title_scene.accumulator,
            final(self).main_menu_scene.scene_token == old(self).main_menu_scene.scene_token,
            old(self).current_scene != Scenes::TitleScene ==> final(self).title_scene.state == old(
                self,
            ).title_scene.state,
            old(self).current_scene != Scenes::MainMenuScene ==> final(self).main_menu_scene.state == old(
                self,
            ).main_menu_scene.state,
            old(self).current_scene != Scenes::GameScene ==> final(self).game_scene.state == old(
                self,
            ).game_scene.state,
    {
        match self.current_scene {
            Scenes::TitleScene => {
                self.title_scene.state = state;
            },
            Scenes::MainMenuScene => {
                self.main_menu_scene.state = state;
            },
            Scenes::GameScene => {
                self.game_scene.state = state;
            },
        }
    }

    /// Decides what happens in this frame: the scene that runs goes on, or
    /// it is left for the scene it asked for. The scene left is put back
    /// to going on, so that it runs again when it is next started.
    pub fn poll(&mut self) -> (polled: Polled)
        ensures
            polled == old(self).polled(),
            match old(self).wanted() {
                SceneState::Continue => *final(self) == *old(self),
                SceneState::Scene(scene) => old(self).handed_over(final(self), scene),
            },
    {
        match self.state() {
            SceneState::Continue => Polled::Update(self.current_scene),
            SceneState::Scene(scene) => {
                let from = self.current_scene;
                self.request(SceneState::Continue);
                self.current_scene = scene;
                Polled::Switch(from, scene)
            },
        }
    }
}

} // verus!
