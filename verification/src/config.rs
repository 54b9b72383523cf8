//! The daemon's settings.

use vstd::prelude::*;
use crate::duration::{HumanDuration, Span};

verus! {

/// The settings of the daemon, as the configuration file and the command
/// line give them.
#[derive(Debug)]
pub struct Config {
    /// Hour (0–23) when off hours begin.
    pub off_hours_start: u32,
    /// Hour (0–23) when off hours end.
    pub off_hours_end: u32,
    /// Total cycle length: how long from the start of a cycle to logout.
    pub logout_interval: HumanDuration,
    /// How long before logout the warning shows; `None` warns at cycle start.
    pub warning_interval: Option<HumanDuration>,
    /// Shell command that logs the user out.
    pub logout_command: String,
    /// `false` shows warnings without logging out.
    pub enforce: bool,
}

/// What a `Config` holds, with the command as a sequence of characters.
pub struct ConfigModel {
    pub off_hours_start: u32,
    pub off_hours_end: u32,
    pub logout_interval: HumanDuration,
    pub warning_interval: Option<HumanDuration>,
    pub logout_command: Seq<char>,
    pub enforce: bool,
}

impl View for Config {
    type V = ConfigModel;

    open spec fn view(&self) -> ConfigModel {
        ConfigModel {
            off_hours_start: self.off_hours_start,
            off_hours_end: self.off_hours_end,
            logout_interval: self.logout_interval,
            warning_interval: self.warning_interval,
            logout_command: self.logout_command@,
            enforce: self.enforce,
        }
    }
}

/// The settings used when there is no configuration file: off hours from
/// 18:00 to 07:00, a thirty-minute cycle that warns at its start, and
/// enforcement on.
pub open spec fn default_config() -> ConfigModel {
    ConfigModel {
        off_hours_start: 18,
        off_hours_end: 7,
        logout_interval: HumanDuration(Span { secs: 1800, nanos: 0 }),
        warning_interval: None,
        logout_command: "killall --signal HUP --user $USER cosmic-session"@,
        enforce: true,
    }
}

impl Clone for Config {
    fn clone(&self) -> (c: Config)
        ensures
            c@ == self@,
    {
        Config {
            off_hours_start: self.off_hours_start,
            off_hours_end: self.off_hours_end,
            logout_interval: self.logout_interval,
            warning_interval: self.warning_interval,
            logout_command: self.logout_command.clone(),
            enforce: self.enforce,
        }
    }
}

impl Default for Config {
    fn default() -> (c: Config)
        ensures
            c@ == default_config(),
    {
        Config {
            off_hours_start: 18,
            off_hours_end: 7,
            warning_interval: None,
            logout_interval: HumanDuration(Span::from_secs(30 * 60)),
            logout_command: "killall --signal HUP --user $USER cosmic-session".to_owned(),
            enforce: true,
        }
    }
}

} // verus!
