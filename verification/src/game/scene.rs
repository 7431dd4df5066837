use vstd::prelude::*;

verus! {

/// The top-level phase of a game session.
#[derive(Debug, Clone, Copy, PartialEq, Eq, Structural)]
pub enum GameScene {
    Menu,
    Running,
    Paused,
    GameOver,
}

/// The scene after the pause key: `Running` and `Paused` swap, every other
/// scene stays.
pub open spec fn toggled(scene: GameScene) -> GameScene {
    match scene {
        GameScene::Running => GameScene::Paused,
        GameScene::Paused => GameScene::Running,
        other => other,
    }
}

/// Toggles between `Running` and `Paused`.
pub fn toggle_pause(scene: GameScene) -> (next: GameScene)
    ensures
        next == toggled(scene),
{
    match scene {
        GameScene::Running => GameScene::Paused,
        GameScene::Paused => GameScene::Running,
        other => other,
    }
}

} // verus!
