//! The scenes themselves, as far as moving between them goes.

use vstd::prelude::*;

verus! {

/// The scenes there are.
#[derive(Debug, Clone, Copy, PartialEq, Eq, Structural)]
pub enum Scenes {
    TitleScene,
    MainMenuScene,
    GameScene,
}

impl Default for Scenes {
    fn default() -> (scene: Self)
        ensures
            scene == Scenes::TitleScene,
    {
        Scenes::TitleScene
    }
}

/// What a scene wants next.
#[derive(Debug, Clone, Copy, PartialEq, Eq, Structural)]
pub enum SceneState {
    /// To go on.
    Continue,
    /// To hand over to another scene.
    Scene(Scenes),
}

/// The title screen.
pub struct TitleScene {
    /// What the scene wants next.
    pub state: SceneState,
    /// Milliseconds since the scene started.
    pub accumulator: u64,
}

impl TitleScene {
    /// The title screen before it is shown.
    pub fn new() -> (scene: Self)
        ensures
            scene.state == SceneState::Continue,
            scene.accumulator == 0,
    {
        TitleScene { state: SceneState::Continue, accumulator: 0 }
    }
}

/// The main menu.
pub struct MainMenuScene {
    /// The scene to go to next, by number.
    pub scene_token: usize,
    /// What the scene wants next.
    pub state: SceneState,
}

impl MainMenuScene {
    /// The main menu before it is shown.
    pub fn new() -> (scene: Self)
        ensures
            scene.scene_token == 0,
            scene.state == SceneState::Continue,
    {
        MainMenuScene { scene_token: 0, state: SceneState::Continue }
    }

    /// The name of the scene.
    pub fn name(&self) -> (name: &'static str)
        ensures
            name@ == "Main Menu"@,
    {
        "Main Menu"
    }

    /// The scene to go to next, by number.
    pub fn next_scene(&self) -> (token: usize)
        ensures
            token == self.scene_token,
    {
        self.scene_token
    }
}

/// The game itself.
pub struct GameScene {
    /// What the scene wants next.
    pub state: SceneState,
}

impl GameScene {
    /// The game before it is shown.
    pub fn new() -> (scene: Self)
        ensures
            scene.state == SceneState::Continue,
    {
        GameScene { state: SceneState::Continue }
    }
}

} // verus!
