//! The command that carries out an action on each platform.
//!
//! Nothing is run here. An action's name is read, and the program and the
//! arguments to start are worked out from the platform and from what a look
//! at the machine found. Starting the program is the caller's part.

use vstd::prelude::*;
use vstd::string::StringExecFns;

verus! {

/// The systems on which actions can be carried out.
#[derive(Clone, Copy, Debug, PartialEq, Eq, Structural)]
pub enum Platform {
    Windows,
    MacOs,
    Linux,
}

/// The actions that can be carried out.
#[derive(Clone, Copy, Debug, PartialEq, Eq, Structural)]
pub enum SystemAction {
    Shutdown,
    Restart,
    Sleep,
    Hibernate,
    Lock,
}

impl SystemAction {
    /// The name under which an action is asked for.
    pub open spec fn spec_name(self) -> Seq<char> {
        match self {
            SystemAction::Shutdown => "shutdown"@,
            SystemAction::Restart => "restart"@,
            SystemAction::Sleep => "sleep"@,
            SystemAction::Hibernate => "hibernate"@,
            SystemAction::Lock => "lock"@,
        }
    }

    /// The name under which this action is asked for.
    pub fn name(&self) -> (name: &'static str)
        ensures
            name@ == self.spec_name(),
    {
        match self {
            SystemAction::Shutdown => "shutdown",
            SystemAction::Restart => "restart",
            SystemAction::Sleep => "sleep",
            SystemAction::Hibernate => "hibernate",
            SystemAction::Lock => "lock",
        }
    }
}

/// The action that `name` asks for, if it is the name of one.
pub open spec fn action_named(name: Seq<char>) -> Option<SystemAction> {
    if name == "shutdown"@ {
        Some(SystemAction::Shutdown)
    } else if name == "restart"@ {
        Some(SystemAction::Restart)
    } else if name == "sleep"@ {
        Some(SystemAction::Sleep)
    } else if name == "hibernate"@ {
        Some(SystemAction::Hibernate)
    } else if name == "lock"@ {
        Some(SystemAction::Lock)
    } else {
        None
    }
}

/// Each action is the one that its own name asks for, and no other name
/// asks for it.
pub proof fn lemma_action_names(action: SystemAction, name: Seq<char>)
    ensures
        action_named(action.spec_name()) == Some(action),
        action_named(name) == Some(action) ==> name == action.spec_name(),
{
    reveal_strlit("shutdown");
    reveal_strlit("restart");
    reveal_strlit("sleep");
    reveal_strlit("hibernate");
    reveal_strlit("lock");
    assert("shutdown"@.len() == 8 && "restart"@.len() == 7 && "sleep"@.len() == 5 && "hibernate"@.len()
        == 9 && "lock"@.len() == 4);
}

/// Whether two texts are the same, character by character.
fn same_text(left: &str, right: &str) -> (same: bool)
    ensures
        same == (left@ == right@),
{
    left.to_owned() == right.to_owned()
}

/// Reads the name of an action.
pub fn parse_action(name: &str) -> (action: Option<SystemAction>)
    ensures
        action == action_named(name@),
{
    if same_text(name, "shutdown") {
        Some(SystemAction::Shutdown)
    } else if same_text(name, "restart") {
        Some(SystemAction::Restart)
    } else if same_text(name, "sleep") {
        Some(SystemAction::Sleep)
    } else if same_text(name, "hibernate") {
        Some(SystemAction::Hibernate)
    } else if same_text(name, "lock") {
        Some(SystemAction::Lock)
    } else {
        None
    }
}

/// What a look at a Linux machine found: for each helper program, whether
/// the search for it could be run.
#[derive(Clone, Copy, Debug, PartialEq, Eq, Structural)]
pub struct Tools {
    pub gnome_screensaver: bool,
    pub dm_tool: bool,
    pub pkexec: bool,
}

/// The ways in which a shell command is started.
#[derive(Clone, Copy, Debug, PartialEq, Eq, Structural)]
pub enum Launcher {
    /// `cmd /C`, on Windows.
    WindowsShell,
    /// `sh -c`, for what needs no privilege.
    Shell,
    /// `osascript -e`, which asks for an administrator's password.
    AppleScript,
    /// `pkexec sh -c`.
    PolicyKit,
    /// `sudo sh -c`.
    Sudo,
}

/// The shell command that carries out `action` on `platform`.
///
/// On Linux the screen is locked with the first of three programs that the
/// search found, the last being the fallback.
pub open spec fn shell_text(platform: Platform, action: SystemAction, tools: Tools) -> Seq<char> {
    match platform {
        Platform::Windows => match action {
            SystemAction::Shutdown => "shutdown /s /t 0"@,
            SystemAction::Restart => "shutdown /r /t 0"@,
            SystemAction::Sleep => "rundll32.exe powrprof.dll,SetSuspendState 0,1,0"@,
            SystemAction::Hibernate => "shutdown /h"@,
            SystemAction::Lock => "rundll32.exe user32.dll,LockWorkStation"@,
        },
        Platform::MacOs => match action {
            SystemAction::Shutdown => "shutdown -h now"@,
            SystemAction::Restart => "shutdown -r now"@,
            SystemAction::Sleep => "pmset sleepnow"@,
            SystemAction::Hibernate => "pmset -a hibernatemode 25"@,
            SystemAction::Lock =>
                "/System/Library/CoreServices/Menu\\ Extras/User.menu/Contents/Resources/CGSession -suspend"@,
        },
        Platform::Linux => match action {
            SystemAction::Shutdown => "shutdown -h now"@,
            SystemAction::Restart => "shutdown -r now"@,
            SystemAction::Sleep => "systemctl suspend"@,
            SystemAction::Hibernate => "systemctl hibernate"@,
            SystemAction::Lock => if tools.gnome_screensaver {
                "gnome-screensaver-command -l"@
            } else if tools.dm_tool {
                "dm-tool lock"@
            } else {
                "xlock"@
            },
        },
    }
}

/// How the command for `action` is started on `platform`.
///
/// What needs an administrator goes through a program that asks for the
/// privilege: on macOS shutdown, restart and hibernate; on Linux shutdown
/// and restart, through `pkexec` where the search found it and through
/// `sudo` where not.
pub open spec fn launcher_for(platform: Platform, action: SystemAction, tools: Tools) -> Launcher {
    match platform {
        Platform::Windows => Launcher::WindowsShell,
        Platform::MacOs => if action is Shutdown || action is Restart || action is Hibernate {
            Launcher::AppleScript
        } else {
            Launcher::Shell
        },
        Platform::Linux => if action is Shutdown || action is Restart {
            if tools.pkexec {
                Launcher::PolicyKit
            } else {
                Launcher::Sudo
            }
        } else {
            Launcher::Shell
        },
    }
}

/// The mathematical value of a [`CommandLine`].
pub struct CommandLineView {
    pub program: Seq<char>,
    pub args: Seq<Seq<char>>,
}

/// A program to start, and the arguments to start it with.
#[derive(Debug, Clone)]
pub struct CommandLine {
    pub program: String,
    pub args: Vec<String>,
}

impl View for CommandLine {
    type V = CommandLineView;

    open spec fn view(&self) -> CommandLineView {
        CommandLineView { program: self.program@, args: self.args.deep_view() }
    }
}

/// The program and arguments by which `launcher` starts the shell command
/// `text`.
pub open spec fn command_line(launcher: Launcher, text: Seq<char>) -> CommandLineView {
    match launcher {
        Launcher::WindowsShell => CommandLineView { program: "cmd"@, args: seq!["/C"@, text] },
        Launcher::Shell => CommandLineView { program: "sh"@, args: seq!["-c"@, text] },
        Launcher::AppleScript => CommandLineView {
            program: "osascript"@,
            args: seq![
                "-e"@,
                "do shell script \""@ + text + "\" with administrator privileges"@,
            ],
        },
        Launcher::PolicyKit => CommandLineView {
            program: "pkexec"@,
            args: seq!["sh"@, "-c"@, text],
        },
        Launcher::Sudo => CommandLineView { program: "sudo"@, args: seq!["sh"@, "-c"@, text] },
    }
}

/// The shell command that carries out `action` on `platform`.
pub fn shell_command(platform: Platform, action: SystemAction, tools: Tools) -> (text: &'static str)
    ensures
        text@ == shell_text(platform, action, tools),
{
    match platform {
        Platform::Windows => match action {
            SystemAction::Shutdown => "shutdown /s /t 0",
            SystemAction::Restart => "shutdown /r /t 0",
            SystemAction::Sleep => "rundll32.exe powrprof.dll,SetSuspendState 0,1,0",
            SystemAction::Hibernate => "shutdown /h",
            SystemAction::Lock => "rundll32.exe user32.dll,LockWorkStation",
        },
        Platform::MacOs => match action {
            SystemAction::Shutdown => "shutdown -h now",
            SystemAction::Restart => "shutdown -r now",
            SystemAction::Sleep => "pmset sleepnow",
            SystemAction::Hibernate => "pmset -a hibernatemode 25",
            SystemAction::Lock =>
                "/System/Library/CoreServices/Menu\\ Extras/User.menu/Contents/Resources/CGSession -suspend",
        },
        Platform::Linux => match action {
            SystemAction::Shutdown => "shutdown -h now",
            SystemAction::Restart => "shutdown -r now",
            SystemAction::Sleep => "systemctl suspend",
            SystemAction::Hibernate => "systemctl hibernate",
            SystemAction::Lock => if tools.gnome_screensaver {
                "gnome-screensaver-command -l"
            } else if tools.dm_tool {
                "dm-tool lock"
            } else {
                "xlock"
            },
        },
    }
}

/// How the command for `action` is started on `platform`.
pub fn choose_launcher(platform: Platform, action: SystemAction, tools: Tools) -> (launcher:
    Launcher)
    ensures
        launcher == launcher_for(platform, action, tools),
{
    match platform {
        Platform::Windows => Launcher::WindowsShell,
        Platform::MacOs => match action {
            SystemAction::Shutdown | SystemAction::Restart | SystemAction::Hibernate =>
                Launcher::AppleScript,
            _ => Launcher::Shell,
        },
        Platform::Linux => match action {
            SystemAction::Shutdown | SystemAction::Restart => if tools.pkexec {
                Launcher::PolicyKit
            } else {
                Launcher::Sudo
            },
            _ => Launcher::Shell,
        },
    }
}

/// The program and arguments by which `launcher` starts the shell command
/// `text`.
pub fn build_command(launcher: Launcher, text: &str) -> (command: CommandLine)
    ensures
        command@ == command_line(launcher, text@),
{
    let mut args: Vec<String> = Vec::new();
    let program = match launcher {
        Launcher::WindowsShell => {
            args.push("/C".to_owned());
            args.push(text.to_owned());
            "cmd"
        },
        Launcher::Shell => {
            args.push("-c".to_owned());
            args.push(text.to_owned());
            "sh"
        },
        Launcher::AppleScript => {
            let script = "do shell script \"".to_owned().concat(text).concat(
                "\" with administrator privileges",
            );
            args.push("-e".to_owned());
            args.push(script);
            "osascript"
        },
        Launcher::PolicyKit => {
            args.push("sh".to_owned());
            args.push("-c".to_owned());
            args.push(text.to_owned());
            "pkexec"
        },
        Launcher::Sudo => {
            args.push("sh".to_owned());
            args.push("-c".to_owned());
            args.push(text.to_owned());
            "sudo"
        },
    };
    let command = CommandLine { program: program.to_owned(), args };
    assert(command@.args =~= command_line(launcher, text@).args);
    command
}

/// The mathematical value of an [`UnsupportedAction`].
pub struct UnsupportedActionView {
    pub action: Seq<char>,
}

/// The refusal of a name that is no action's.
#[derive(Debug, Clone)]
pub struct UnsupportedAction {
    pub action: String,
}

impl View for UnsupportedAction {
    type V = UnsupportedActionView;

    open spec fn view(&self) -> UnsupportedActionView {
        UnsupportedActionView { action: self.action@ }
    }
}

impl UnsupportedAction {
    /// The message shown to the user: a fixed opening, then the name that
    /// was refused.
    pub fn message(&self) -> (text: String)
        ensures
            text@ == "不支持的操作: "@ + self@.action,
    {
        "不支持的操作: ".to_owned().concat(self.action.as_str())
    }
}

/// What [`plan_action`] answers for `name`: the command line for the action
/// that it names, or the refusal of the name.
pub open spec fn planned(platform: Platform, name: Seq<char>, tools: Tools) -> Result<
    CommandLineView,
    UnsupportedActionView,
> {
    match action_named(name) {
        Some(action) => Ok(
            command_line(
                launcher_for(platform, action, tools),
                shell_text(platform, action, tools),
            ),
        ),
        None => Err(UnsupportedActionView { action: name }),
    }
}

/// A plan and a refusal, each as its mathematical value.
pub open spec fn plan_view(plan: Result<CommandLine, UnsupportedAction>) -> Result<
    CommandLineView,
    UnsupportedActionView,
> {
    match plan {
        Ok(command) => Ok(command@),
        Err(refusal) => Err(refusal@),
    }
}

/// Works out how to carry out the action that `name` asks for on
/// `platform`, given what a look at the machine found.
///
/// A name that is none of `shutdown`, `restart`, `sleep`, `hibernate` and
/// `lock` is refused, and nothing else is.
pub fn plan_action(platform: Platform, name: &str, tools: Tools) -> (plan: Result<
    CommandLine,
    UnsupportedAction,
>)
    ensures
        plan_view(plan) == planned(platform, name@, tools),
{
    match parse_action(name) {
        Some(action) => Ok(
            build_command(
                choose_launcher(platform, action, tools),
                shell_command(platform, action, tools),
            ),
        ),
        None => Err(UnsupportedAction { action: name.to_owned() }),
    }
}

} // verus!
