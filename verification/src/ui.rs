use vstd::prelude::*;

use crate::replay::{begin_replay, Replay, ReplayDriver, PLAY_SPEED};
use crate::sim::Simulation;

verus! {

/// Which of the toolbar windows are open. Each button press toggles its
/// window, so pressing twice restores what was shown before.
pub struct GUIWindows {
    /// Whether the economy window is shown.
    pub economy_open: bool,
    /// Whether the settings window is shown.
    pub settings_open: bool,
    /// Whether the replay-load window is shown.
    pub load_open: bool,
    /// Whether the network-session window is shown.
    pub network_open: bool,
}

impl GUIWindows {
    /// Toggle each window whose toolbar button was pressed this frame.
    pub fn handle_menu(
        &mut self,
        economy_clicked: bool,
        settings_clicked: bool,
        load_clicked: bool,
        network_clicked: bool,
    )
        ensures
            final(self).economy_open == (old(self).economy_open != economy_clicked),
            final(self).settings_open == (old(self).settings_open != settings_clicked),
            final(self).load_open == (old(self).load_open != load_clicked),
            final(self).network_open == (old(self).network_open != network_clicked),
    {
        self.economy_open = self.economy_open != economy_clicked;
        self.settings_open = self.settings_open != settings_clicked;
        self.load_open = self.load_open != load_clicked;
        self.network_open = self.network_open != network_clicked;
    }

    /// Toggle the economy window when its keyboard shortcut was pressed.
    pub fn apply_economy_shortcut(&mut self, pressed: bool)
        ensures
            final(self).economy_open == (old(self).economy_open != pressed),
            final(self).settings_open == old(self).settings_open,
            final(self).load_open == old(self).load_open,
            final(self).network_open == old(self).network_open,
    {
        self.economy_open = self.economy_open != pressed;
    }
}

impl Default for GUIWindows {
    fn default() -> (r: Self)
        ensures
            !r.economy_open,
            !r.settings_open,
            !r.load_open,
            !r.network_open,
    {
        GUIWindows {
            economy_open: false,
            settings_open: false,
            load_open: false,
            network_open: false,
        }
    }
}

/// What the replay-load window remembers between frames: whether a saved
/// replay was found on disk, and the failure text to show after a load went
/// wrong.
pub struct LoadState {
    /// Whether a saved replay exists; checked once, when the window state
    /// is created.
    pub has_save: bool,
    /// The failure text to show; empty while no load has failed.
    pub load_fail: String,
}

impl LoadState {
    /// Window state for a world whose save was or was not found; no load
    /// has failed yet.
    pub fn new(has_save: bool) -> (r: LoadState)
        ensures
            r.has_save == has_save,
            r.load_fail@.len() == 0,
    {
        LoadState { has_save, load_fail: String::new() }
    }
}

/// Why a recorded log could not be loaded: the file is absent — a normal,
/// detectable condition, not a fault — or its contents are unreadable.
#[derive(PartialEq, Eq, Structural, Clone, Copy, Debug)]
pub enum LoadError {
    /// No replay is saved where one was looked for.
    NotFound,
    /// A replay is saved there, but its format is unreadable.
    Corrupt,
}

/// Act on the outcome of reading a replay from disk: a loaded log starts
/// playback — a fresh simulation and driver, already advanced through the
/// first recorded tick — while a failed read starts nothing and leaves the
/// window showing the given failure text; a log that was not found also
/// clears `has_save`, since its absence is a state, not a fault.
pub fn handle_load_result(
    state: &mut LoadState,
    outcome: Result<Replay, LoadError>,
    failure_text: String,
) -> (r: Option<(Simulation, ReplayDriver)>)
    ensures
        match outcome {
            Ok(rp) => (r matches Some(p) && p.1.replay == rp && p.1.current_tick == (
            if rp.last_tick_recorded == 0 {
                0int
            } else {
                1int
            }) && p.1.speed == PLAY_SPEED && p.1.advance_n_ticks == 0 && p.1.wf() && p.0.wf()
                && p.0.spec_tick() == p.1.current_tick && *final(state) == *old(state)),
            Err(e) => r is None && final(state).load_fail == failure_text && final(state).has_save
                == (old(state).has_save && e != LoadError::NotFound),
        },
{
    match outcome {
        Ok(rp) => Some(begin_replay(rp)),
        Err(e) => {
            if e == LoadError::NotFound {
                state.has_save = false;
            }
            state.load_fail = failure_text;
            None
        },
    }
}

/// How often the simulation is saved on its own, without the player asking.
#[derive(PartialEq, Eq, Structural, Clone, Copy, Debug)]
pub enum AutoSaveEvery {
    /// Only save when the player asks.
    Never,
    /// Save once a minute.
    OneMinute,
    /// Save once every five minutes.
    FiveMinutes,
}

impl AutoSaveEvery {
    /// The save period in seconds, or nothing when automatic saving is off.
    pub fn as_seconds(self) -> (r: Option<u64>)
        ensures
            r == match self {
                AutoSaveEvery::Never => None::<u64>,
                AutoSaveEvery::OneMinute => Some(60u64),
                AutoSaveEvery::FiveMinutes => Some(300u64),
            },
    {
        match self {
            AutoSaveEvery::Never => None,
            AutoSaveEvery::OneMinute => Some(60),
            AutoSaveEvery::FiveMinutes => Some(300),
        }
    }

    /// The label the settings window shows for this choice.
    pub fn label(self) -> (r: &'static str)
        ensures
            self is Never ==> r@ == "Never"@,
            self is OneMinute ==> r@ == "Minute"@,
            self is FiveMinutes ==> r@ == "Five Minutes"@,
    {
        match self {
            AutoSaveEvery::Never => "Never",
            AutoSaveEvery::OneMinute => "Minute",
            AutoSaveEvery::FiveMinutes => "Five Minutes",
        }
    }
}

impl From<u8> for AutoSaveEvery {
    fn from(v: u8) -> (r: Self) {
        match v {
            0 => AutoSaveEvery::Never,
            1 => AutoSaveEvery::OneMinute,
            2 => AutoSaveEvery::FiveMinutes,
            _ => AutoSaveEvery::Never,
        }
    }
}

impl vstd::std_specs::convert::FromSpecImpl<u8> for AutoSaveEvery {
    open spec fn obeys_from_spec() -> bool {
        true
    }

    open spec fn from_spec(v: u8) -> AutoSaveEvery {
        if v == 1 {
            AutoSaveEvery::OneMinute
        } else if v == 2 {
            AutoSaveEvery::FiveMinutes
        } else {
            AutoSaveEvery::Never
        }
    }
}

impl Default for AutoSaveEvery {
    fn default() -> (r: Self)
        ensures
            r == AutoSaveEvery::FiveMinutes,
    {
        AutoSaveEvery::FiveMinutes
    }
}

} // verus!
