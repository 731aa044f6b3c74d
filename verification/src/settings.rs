//! The user's settings and their defaults.

use vstd::prelude::*;

verus! {

/// The mathematical value of [`AppSettings`].
pub struct AppSettingsView {
    pub auto_start: bool,
    pub default_action: Seq<char>,
    pub reminder_times: Seq<i64>,
    pub theme: Seq<char>,
}

/// What the user has chosen.
///
/// `reminder_times` holds the reminder thresholds, in seconds before a task
/// is due. `theme` is `light` or `dark`.
#[derive(Debug, Clone)]
pub struct AppSettings {
    pub auto_start: bool,
    pub default_action: String,
    pub reminder_times: Vec<i64>,
    pub theme: String,
}

impl View for AppSettings {
    type V = AppSettingsView;

    open spec fn view(&self) -> AppSettingsView {
        AppSettingsView {
            auto_start: self.auto_start,
            default_action: self.default_action@,
            reminder_times: self.reminder_times@,
            theme: self.theme@,
        }
    }
}

/// The settings of a fresh installation: no start with the system, shutdown
/// as the action offered first, reminders five minutes and one minute before
/// a task is due, and the light theme.
pub open spec fn default_settings() -> AppSettingsView {
    AppSettingsView {
        auto_start: false,
        default_action: "shutdown"@,
        reminder_times: seq![300i64, 60i64],
        theme: "light"@,
    }
}

impl Default for AppSettings {
    fn default() -> (settings: Self)
        ensures
            settings@ == default_settings(),
    {
        let mut reminder_times: Vec<i64> = Vec::new();
        reminder_times.push(300);
        reminder_times.push(60);
        let settings = AppSettings {
            auto_start: false,
            default_action: "shutdown".to_owned(),
            reminder_times,
            theme: "light".to_owned(),
        };
        assert(settings.reminder_times@ =~= seq![300i64, 60i64]);
        settings
    }
}

/// The settings to work with, given what was read from storage: what was
/// read, or the defaults where nothing usable was there.
pub fn loaded_or_default(loaded: Option<AppSettings>) -> (settings: AppSettings)
    ensures
        settings@ == match loaded {
            Some(stored) => stored@,
            None => default_settings(),
        },
{
    match loaded {
        Some(stored) => stored,
        None => AppSettings::default(),
    }
}

} // verus!
