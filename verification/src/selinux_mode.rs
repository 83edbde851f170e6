//! The enforcement mode of the policy.

use crate::model::views;
use crate::text::{
    has_prefix,
    is_prefix,
    lines,
    lines_of,
    lowercase,
    to_lowercase,
    trim,
    trimmed_text,
};
use vstd::prelude::*;
use vstd::string::*;

verus! {

/// The enforcement mode.
#[derive(Debug, Clone, Copy, PartialEq, Eq, Structural)]
pub enum SELinuxMode {
    Enforcing,
    Permissive,
    Disabled,
}

/// Why a mode cannot be set.
#[derive(Debug, Clone, Copy, PartialEq, Eq, Structural)]
pub enum ModeError {
    /// The policy cannot be disabled while the system runs.
    DisabledNeedsReboot,
}

impl ModeError {
    /// A description of the error for the operator.
    pub fn message(&self) -> (r: &'static str)
        ensures
            r@ == "Disabling SELinux requires editing /etc/selinux/config and reboot"@,
    {
        "Disabling SELinux requires editing /etc/selinux/config and reboot"
    }
}

/// What has to be done outside to put a mode into force.
#[derive(Debug, Clone)]
pub enum ModeAction {
    /// Nothing: the change is simulated.
    Nothing,
    /// Run `setenforce` with this argument.
    Setenforce(String),
    /// Rewrite the configuration file with `SELinuxMode::set_persistent`.
    RewriteConfig,
}

/// The mode that a name in lower case stands for; an unknown name stands
/// for `Enforcing`.
pub open spec fn mode_named(name: Seq<char>) -> SELinuxMode {
    if name == "permissive"@ {
        SELinuxMode::Permissive
    } else if name == "disabled"@ {
        SELinuxMode::Disabled
    } else {
        SELinuxMode::Enforcing
    }
}

/// The lines of a configuration file, with `setting` in place of each line
/// that sets the mode.
pub open spec fn with_mode_lines(lines: Seq<Seq<char>>, setting: Seq<char>) -> Seq<Seq<char>> {
    lines.map_values(
        |line: Seq<char>|
            if is_prefix("SELINUX="@, trimmed_text(line)) {
                setting
            } else {
                line
            },
    )
}

/// Whether one of the lines sets the mode.
pub open spec fn has_mode_line(lines: Seq<Seq<char>>) -> bool {
    exists|i: int| 0 <= i < lines.len() && is_prefix("SELINUX="@, trimmed_text(#[trigger] lines[i]))
}

/// The lines, each followed by a line feed.
pub open spec fn written(lines: Seq<Seq<char>>) -> Seq<char>
    decreases lines.len(),
{
    if lines.len() == 0 {
        Seq::empty()
    } else {
        written(lines.drop_last()) + lines.last() + seq!['\n']
    }
}

impl SELinuxMode {
    /// The name of the mode.
    pub open spec fn name(self) -> Seq<char> {
        match self {
            SELinuxMode::Enforcing => "Enforcing"@,
            SELinuxMode::Permissive => "Permissive"@,
            SELinuxMode::Disabled => "Disabled"@,
        }
    }

    /// The line of the configuration file that sets the mode.
    pub open spec fn setting(self) -> Seq<char> {
        match self {
            SELinuxMode::Enforcing => "SELINUX=enforcing"@,
            SELinuxMode::Permissive => "SELINUX=permissive"@,
            SELinuxMode::Disabled => "SELINUX=disabled"@,
        }
    }

    /// The configuration file `content` rewritten to set this mode: each
    /// line that sets the mode is replaced, and where there was none the
    /// setting is added at the end.
    pub open spec fn rewritten(self, content: Seq<char>) -> Seq<char> {
        let lines = lines_of(content);
        if has_mode_line(lines) {
            written(with_mode_lines(lines, self.setting()))
        } else {
            written(lines.push(self.setting()))
        }
    }

    /// The mode that `name`, written in lower case, stands for. An unknown
    /// name stands for `Enforcing`.
    pub fn from_lowercase(name: &str) -> (r: Self)
        ensures
            r == mode_named(name@),
    {
        let name = String::from_str(name);
        if name == String::from_str("permissive") {
            SELinuxMode::Permissive
        } else if name == String::from_str("disabled") {
            SELinuxMode::Disabled
        } else {
            SELinuxMode::Enforcing
        }
    }

    /// The mode that `s` stands for, whatever the case of its letters.
    pub fn from_string(s: &str) -> (r: Self)
        ensures
            r == mode_named(lowercase(s@)),
    {
        let lower = to_lowercase(s);
        Self::from_lowercase(lower.as_str())
    }

    /// The name of the mode.
    pub fn to_string(&self) -> (r: &'static str)
        ensures
            r@ == self.name(),
    {
        match self {
            Self::Enforcing => "Enforcing",
            Self::Permissive => "Permissive",
            Self::Disabled => "Disabled",
        }
    }

    /// The mode that the output of `getenforce` reports.
    pub fn get_current(output: &str) -> (r: Self)
        ensures
            r == mode_named(lowercase(trimmed_text(output@))),
    {
        let name = trim(output);
        Self::from_string(name.as_str())
    }

    /// What it takes to put the mode into force until the next boot: the
    /// argument for `setenforce`, or no call at all where the change is
    /// simulated. The policy cannot be disabled this way.
    pub fn set_mode(&self, simulation: bool) -> (r: Result<ModeAction, ModeError>)
        ensures
            match r {
                Ok(ModeAction::Nothing) => simulation,
                Ok(ModeAction::Setenforce(argument)) => {
                    &&& !simulation
                    &&& *self == SELinuxMode::Enforcing ==> argument@ == "1"@
                    &&& *self == SELinuxMode::Permissive ==> argument@ == "0"@
                    &&& *self != SELinuxMode::Disabled
                },
                Ok(ModeAction::RewriteConfig) => false,
                Err(e) => !simulation && *self == SELinuxMode::Disabled,
            },
    {
        if simulation {
            return Ok(ModeAction::Nothing);
        }
        match self {
            Self::Enforcing => Ok(ModeAction::Setenforce(String::from_str("1"))),
            Self::Permissive => Ok(ModeAction::Setenforce(String::from_str("0"))),
            Self::Disabled => Err(ModeError::DisabledNeedsReboot),
        }
    }

    fn setting_line(&self) -> (r: &'static str)
        ensures
            r@ == self.setting(),
    {
        match self {
            Self::Enforcing => "SELINUX=enforcing",
            Self::Permissive => "SELINUX=permissive",
            Self::Disabled => "SELINUX=disabled",
        }
    }

    /// The configuration file `content` rewritten to set this mode for
    /// every boot to come.
    pub fn set_persistent(&self, content: &str) -> (r: String)
        ensures
            r@ == self.rewritten(content@),
    {
        let old_lines = lines(content);
        let setting = self.setting_line();
        let mut out = String::new();
        let mut found = false;
        let mut i: usize = 0;
        let ghost all = views(old_lines@);
        assert(all.take(0) =~= Seq::<Seq<char>>::empty());
        assert(with_mode_lines(all.take(0), setting@) =~= Seq::<Seq<char>>::empty());
        while i < old_lines.len()
            invariant
                i <= old_lines.len(),
                all == views(old_lines@),
                setting@ == self.setting(),
                out@ == written(with_mode_lines(all.take(i as int), setting@)),
                found == has_mode_line(all.take(i as int)),
            decreases old_lines.len() - i,
        {
            let stripped = trim(old_lines[i].as_str());
            let is_setting = has_prefix(stripped.as_str(), "SELINUX=");
            proof {
                let before = all.take(i as int);
                let now = all.take(i + 1);
                assert(now.drop_last() =~= before);
                assert(with_mode_lines(now, setting@).drop_last() =~= with_mode_lines(
                    before,
                    setting@,
                ));
                assert(now.last() == old_lines@[i as int]@);
                if is_setting {
                    assert(is_prefix("SELINUX="@, trimmed_text(now[i as int])));
                } else if has_mode_line(now) {
                    let k = choose|k: int|
                        0 <= k < now.len() && is_prefix("SELINUX="@, trimmed_text(#[trigger] now[k]));
                    assert(before[k] == now[k]);
                }
                if found {
                    let k = choose|k: int|
                        0 <= k < before.len() && is_prefix(
                            "SELINUX="@,
                            trimmed_text(#[trigger] before[k]),
                        );
                    assert(now[k] == before[k]);
                }
                reveal_strlit("\n");
                assert("\n"@ =~= seq!['\n']);
            }
            if is_setting {
                out.append(setting);
                found = true;
            } else {
                out.append(old_lines[i].as_str());
            }
            out.append("\n");
            i += 1;
        }
        assert(all.take(old_lines.len() as int) =~= all);
        if !found {
            proof {
                reveal_strlit("\n");
                assert("\n"@ =~= seq!['\n']);
                assert(all.push(setting@).drop_last() =~= all);
                assert(with_mode_lines(all, setting@) =~= all);
            }
            out.append(setting);
            out.append("\n");
        }
        out
    }
}

/// Keeps the enforcement mode that is in force.
#[derive(Debug, Clone)]
pub struct SELinuxModeManager {
    pub current_mode: SELinuxMode,
}

impl SELinuxModeManager {
    /// A manager that starts from the mode that the output of `getenforce`
    /// reports.
    pub fn new(output: &str) -> (r: Self)
        ensures
            r.current_mode == mode_named(lowercase(trimmed_text(output@))),
    {
        SELinuxModeManager { current_mode: SELinuxMode::get_current(output) }
    }

    /// The mode in force.
    pub fn get_current(&self) -> (r: SELinuxMode)
        ensures
            r == self.current_mode,
    {
        self.current_mode
    }

    /// Takes over the mode that the output of `getenforce` reports.
    pub fn refresh(&mut self, output: &str)
        ensures
            final(self).current_mode == mode_named(lowercase(trimmed_text(output@))),
    {
        self.current_mode = SELinuxMode::get_current(output);
    }

    /// Decides what it takes to put `mode` into force, for every boot to
    /// come where `persistent`, and notes `mode` as the mode in force.
    /// Where the mode cannot be set the mode in force stays as it is.
    pub fn set_mode(&mut self, mode: SELinuxMode, persistent: bool, simulation: bool) -> (r: Result<
        ModeAction,
        ModeError,
    >)
        ensures
            match r {
                Ok(action) => {
                    &&& final(self).current_mode == mode
                    &&& action is Nothing <==> simulation
                    &&& action is RewriteConfig <==> !simulation && persistent
                    &&& action matches ModeAction::Setenforce(argument) ==> {
                        &&& mode == SELinuxMode::Enforcing ==> argument@ == "1"@
                        &&& mode == SELinuxMode::Permissive ==> argument@ == "0"@
                    }
                },
                Err(e) => {
                    &&& !persistent && !simulation && mode == SELinuxMode::Disabled
                    &&& final(self).current_mode == old(self).current_mode
                },
            },
            r is Err <==> !persistent && !simulation && mode == SELinuxMode::Disabled,
    {
        let action = if persistent {
            if simulation {
                ModeAction::Nothing
            } else {
                ModeAction::RewriteConfig
            }
        } else {
            match mode.set_mode(simulation) {
                Ok(action) => action,
                Err(e) => {
                    return Err(e);
                },
            }
        };
        self.current_mode = mode;
        Ok(action)
    }
}

} // verus!
