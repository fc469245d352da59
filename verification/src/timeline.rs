use vstd::prelude::*;

verus! {

/// Controls the color of the timeline bar segments.
#[derive(Debug, Clone, Copy, PartialEq, Eq, Structural)]
pub enum TimelineGameMode {
    /// The player is fully loaded into the game and playing.
    Playing,
    /// The player is in a multiplayer lobby.
    Staging,
    /// The player is in the game's main menu or a pause menu.
    Menus,
    /// The player is waiting for a loading screen.
    LoadingScreen,
}

impl TimelineGameMode {
    /// The `ETimelineGameMode` code of the value.
    pub open spec fn spec_code(self) -> i32 {
        match self {
            TimelineGameMode::Playing => 1,
            TimelineGameMode::Staging => 2,
            TimelineGameMode::Menus => 3,
            TimelineGameMode::LoadingScreen => 4,
        }
    }

    /// The `ETimelineGameMode` code of the value.
    pub fn code(&self) -> (r: i32)
        ensures
            r == self.spec_code(),
    {
        match self {
            TimelineGameMode::Playing => 1,
            TimelineGameMode::Staging => 2,
            TimelineGameMode::Menus => 3,
            TimelineGameMode::LoadingScreen => 4,
        }
    }
}

/// Used in `add_timeline_event` to mark an event that would make a good clip.
#[derive(Debug, Clone, Copy, PartialEq, Eq, Structural)]
pub enum TimelineEventClipPriority {
    /// This event is not appropriate as a clip.
    NoPriority,
    /// The user may want to make a clip around this event.
    Standard,
    /// The player will be likely to want a clip around event,
    /// and those clips should be promoted more prominently than clips with the standard priority.
    Featured,
}

impl TimelineEventClipPriority {
    /// The `ETimelineEventClipPriority` code of the value.
    pub open spec fn spec_code(self) -> i32 {
        match self {
            TimelineEventClipPriority::NoPriority => 1,
            TimelineEventClipPriority::Standard => 2,
            TimelineEventClipPriority::Featured => 3,
        }
    }

    /// The `ETimelineEventClipPriority` code of the value.
    pub fn code(&self) -> (r: i32)
        ensures
            r == self.spec_code(),
    {
        match self {
            TimelineEventClipPriority::NoPriority => 1,
            TimelineEventClipPriority::Standard => 2,
            TimelineEventClipPriority::Featured => 3,
        }
    }
}

/// The values of `TimelineGameMode::spec_code`, as the Steamworks SDK headers fix them.
pub proof fn lemma_timeline_game_mode_code_table()
    ensures
        TimelineGameMode::Playing.spec_code() == 1,
        TimelineGameMode::Staging.spec_code() == 2,
        TimelineGameMode::Menus.spec_code() == 3,
        TimelineGameMode::LoadingScreen.spec_code() == 4,
{
}

/// The values of `TimelineEventClipPriority::spec_code`, as the Steamworks SDK headers fix them.
pub proof fn lemma_timeline_event_clip_priority_code_table()
    ensures
        TimelineEventClipPriority::NoPriority.spec_code() == 1,
        TimelineEventClipPriority::Standard.spec_code() == 2,
        TimelineEventClipPriority::Featured.spec_code() == 3,
{
}

} // verus!
