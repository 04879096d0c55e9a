use vstd::prelude::*;

verus! {

/// What the start-up error window's button does to get Bluetooth going.
#[derive(Clone, Copy, Debug, PartialEq, Eq, Structural)]
pub enum StartupFix {
    /// Enable and start the Bluetooth service through `pkexec`.
    EnableWithPkexec,
    /// Copy the command that enables the service to the clipboard.
    CopyCommand,
}

/// The window shown when Bluetooth could not be set up.
pub struct StartupErrorMessage {
    pub title: String,
    pub description: String,
}

impl StartupErrorMessage {
    /// The window's texts.
    pub fn new() -> (r: StartupErrorMessage)
        ensures
            r.title@ == "An Error Occurred"@,
            r.description@ == "this usually happens when the bluetooth service is disabled"@,
    {
        StartupErrorMessage {
            title: "An Error Occurred".to_string(),
            description: "this usually happens when the bluetooth service is disabled".to_string(),
        }
    }

    /// Inside a container (the `container` variable is set) the command can
    /// only be copied; elsewhere it is run through `pkexec`.
    pub fn fix_for(in_container: bool) -> (r: StartupFix)
        ensures
            r == (if in_container {
                StartupFix::CopyCommand
            } else {
                StartupFix::EnableWithPkexec
            }),
    {
        if in_container {
            StartupFix::CopyCommand
        } else {
            StartupFix::EnableWithPkexec
        }
    }

    /// The command lines a fix runs (each one program and its arguments).
    pub fn fix_commands(fix: StartupFix) -> (r: Vec<Vec<String>>)
        ensures
            fix == StartupFix::CopyCommand ==> r@.len() == 0,
            fix == StartupFix::EnableWithPkexec ==> r@.len() == 2 && r@[0]@.map_values(
                |s: String| s@,
            ) == seq!["pkexec"@, "systemctl"@, "enable"@, "--now"@, "bluetooth"@]
                && r@[1]@.map_values(|s: String| s@) == seq![
                "pkexec"@,
                "systemctl"@,
                "start"@,
                "bluetooth"@,
            ],
    {
        let mut r: Vec<Vec<String>> = Vec::new();
        match fix {
            StartupFix::CopyCommand => {},
            StartupFix::EnableWithPkexec => {
                let mut enable: Vec<String> = Vec::new();
                enable.push("pkexec".to_string());
                enable.push("systemctl".to_string());
                enable.push("enable".to_string());
                enable.push("--now".to_string());
                enable.push("bluetooth".to_string());
                let mut start: Vec<String> = Vec::new();
                start.push("pkexec".to_string());
                start.push("systemctl".to_string());
                start.push("start".to_string());
                start.push("bluetooth".to_string());
                r.push(enable);
                r.push(start);
                proof {
                    assert(r@[0]@.map_values(|s: String| s@) =~= seq![
                        "pkexec"@,
                        "systemctl"@,
                        "enable"@,
                        "--now"@,
                        "bluetooth"@,
                    ]);
                    assert(r@[1]@.map_values(|s: String| s@) =~= seq![
                        "pkexec"@,
                        "systemctl"@,
                        "start"@,
                        "bluetooth"@,
                    ]);
                }
            },
        }
        r
    }

    /// The text a fix puts on the clipboard, if it copies one.
    pub fn fix_clipboard(fix: StartupFix) -> (r: Option<String>)
        ensures
            fix == StartupFix::CopyCommand ==> r is Some && r->0@
                == "sudo systemctl enable --now bluetooth"@,
            fix == StartupFix::EnableWithPkexec ==> r is None,
    {
        match fix {
            StartupFix::CopyCommand => Some("sudo systemctl enable --now bluetooth".to_string()),
            StartupFix::EnableWithPkexec => None,
        }
    }

    /// The toast that tells what a fix did.
    pub fn fix_toast(fix: StartupFix) -> (r: String)
        ensures
            fix == StartupFix::CopyCommand ==> r@ == "copied command to clipboard"@,
            fix == StartupFix::EnableWithPkexec ==> r@ == "applying commands through pkexec"@,
    {
        match fix {
            StartupFix::CopyCommand => "copied command to clipboard".to_string(),
            StartupFix::EnableWithPkexec => "applying commands through pkexec".to_string(),
        }
    }
}

} // verus!
