use vstd::prelude::*;

use crate::text::{trim, trim_spec};

verus! {

broadcast use vstd::string::group_string_axioms;

/// The name of the scheduled task that starts the utility at logon.
pub open spec fn task_name_spec() -> Seq<char> {
    "DeepCoolDigitalLite"@
}

/// The task scheduler arguments that ask whether the logon task exists.
pub open spec fn query_args_spec() -> Seq<Seq<char>> {
    seq!["/Query"@, "/TN"@, task_name_spec()]
}

/// The command that the logon task runs: the executable, quoted, started
/// in the tray.
pub open spec fn logon_command_spec(exe: Seq<char>) -> Seq<char> {
    "\""@ + exe + "\" --minimized"@
}

/// The task scheduler arguments that create (replacing any old one) or
/// delete the logon task.
pub open spec fn change_args_spec(enabled: bool, exe: Seq<char>) -> Seq<Seq<char>> {
    if enabled {
        seq![
            "/Create"@,
            "/F"@,
            "/SC"@,
            "ONLOGON"@,
            "/RL"@,
            "HIGHEST"@,
            "/TN"@,
            task_name_spec(),
            "/TR"@,
            logon_command_spec(exe),
        ]
    } else {
        seq!["/Delete"@, "/F"@, "/TN"@, task_name_spec()]
    }
}

/// The views of a sequence of strings.
pub open spec fn string_views(args: Seq<String>) -> Seq<Seq<char>> {
    args.map_values(|a: String| a@)
}

fn push_arg(args: &mut Vec<String>, arg: &str)
    ensures
        string_views(final(args)@) == string_views(old(args)@).push(arg@),
{
    let ghost before = args@;
    args.push(arg.to_owned());
    assert(string_views(args@) =~= string_views(before).push(arg@));
}

/// The task scheduler arguments that ask whether the logon task exists.
pub fn query_task_args() -> (args: Vec<String>)
    ensures
        string_views(args@) == query_args_spec(),
{
    let mut args: Vec<String> = Vec::new();
    push_arg(&mut args, "/Query");
    push_arg(&mut args, "/TN");
    push_arg(&mut args, "DeepCoolDigitalLite");
    assert(string_views(args@) =~= query_args_spec());
    args
}

/// The task scheduler arguments that turn starting at logon on (for the
/// executable at `exe`) or off.
pub fn change_task_args(enabled: bool, exe: &str) -> (args: Vec<String>)
    ensures
        string_views(args@) == change_args_spec(enabled, exe@),
{
    let mut args: Vec<String> = Vec::new();
    if enabled {
        let mut command = "\"".to_owned();
        command.append(exe);
        command.append("\" --minimized");
        push_arg(&mut args, "/Create");
        push_arg(&mut args, "/F");
        push_arg(&mut args, "/SC");
        push_arg(&mut args, "ONLOGON");
        push_arg(&mut args, "/RL");
        push_arg(&mut args, "HIGHEST");
        push_arg(&mut args, "/TN");
        push_arg(&mut args, "DeepCoolDigitalLite");
        push_arg(&mut args, "/TR");
        push_arg(&mut args, command.as_str());
    } else {
        push_arg(&mut args, "/Delete");
        push_arg(&mut args, "/F");
        push_arg(&mut args, "/TN");
        push_arg(&mut args, "DeepCoolDigitalLite");
    }
    assert(string_views(args@) =~= change_args_spec(enabled, exe@));
    args
}

/// How a run of the task scheduler ended: fine when it succeeded, else an
/// error with its error output, trimmed.
pub fn task_outcome(succeeded: bool, error_output: &str) -> (outcome: Result<(), String>)
    ensures
        succeeded ==> outcome is Ok,
        !succeeded ==> (outcome matches Err(message) && message@ == trim_spec(error_output@)),
{
    if succeeded {
        Ok(())
    } else {
        Err(trim(error_output).to_owned())
    }
}

/// How the settings window's title bar looks.
#[derive(Clone, Copy, Debug, PartialEq, Eq, Structural)]
pub struct TitleBarStyle {
    /// Whether the dark theme is in use.
    pub dark: bool,
    /// The value for the immersive dark mode attribute.
    pub dark_mode: i32,
    /// The caption colour, as 0x00BBGGRR.
    pub caption_color: u32,
}

/// The title bar for the personalisation setting `AppsUseLightTheme`: dark
/// only when the setting is present and zero.
pub open spec fn title_bar_spec(apps_use_light_theme: Option<u32>) -> TitleBarStyle {
    let dark = apps_use_light_theme == Some(0u32);
    TitleBarStyle {
        dark,
        dark_mode: if dark {
            1
        } else {
            0
        },
        caption_color: if dark {
            0x001c1c1c
        } else {
            0x00fafafa
        },
    }
}

pub fn title_bar_style(apps_use_light_theme: Option<u32>) -> (style: TitleBarStyle)
    ensures
        style == title_bar_spec(apps_use_light_theme),
{
    let dark = match apps_use_light_theme {
        Some(value) => value == 0,
        None => false,
    };
    TitleBarStyle {
        dark,
        dark_mode: if dark {
            1
        } else {
            0
        },
        caption_color: if dark {
            0x001c1c1c
        } else {
            0x00fafafa
        },
    }
}

/// The title bar turns dark only when the light-theme setting is present
/// and zero; dark means the immersive dark flag 1 and a #1c1c1c caption,
/// light the flag 0 and a #fafafa caption.
pub proof fn lemma_title_bar_follows_setting(apps_use_light_theme: Option<u32>)
    ensures
        title_bar_spec(apps_use_light_theme).dark <==> apps_use_light_theme == Some(0u32),
        title_bar_spec(apps_use_light_theme).dark ==> title_bar_spec(apps_use_light_theme).dark_mode
            == 1 && title_bar_spec(apps_use_light_theme).caption_color == 0x1c1c1c,
        !title_bar_spec(apps_use_light_theme).dark ==> title_bar_spec(apps_use_light_theme).dark_mode
            == 0 && title_bar_spec(apps_use_light_theme).caption_color == 0xfafafa,
{
}

/// Turning the logon task on names the task and has it run the quoted
/// executable with `--minimized`; turning it off deletes the same task.
pub proof fn lemma_logon_task(exe: Seq<char>)
    ensures
        change_args_spec(true, exe)[0] == "/Create"@,
        change_args_spec(true, exe)[7] == "DeepCoolDigitalLite"@,
        change_args_spec(true, exe)[9] == "\""@ + exe + "\" --minimized"@,
        change_args_spec(false, exe)[0] == "/Delete"@,
        change_args_spec(false, exe)[3] == "DeepCoolDigitalLite"@,
        query_args_spec()[2] == "DeepCoolDigitalLite"@,
{
}

} // verus!
