use vstd::prelude::*;

verus! {

/// A command to run, with its arguments. The caller spawns the process;
/// this crate only decides what is run.
pub struct CommandConfig<'a> {
    pub command: &'a str,
    pub args: Vec<&'a str>,
}

/// The command that asks the system to toggle the Bluetooth radio, for the
/// request-enable entry point.
pub fn request_enable_bluetooth() -> (r: CommandConfig<'static>)
    ensures
        r.command@ == "rfkill"@,
        r.args@.len() == 2,
        r.args@[0]@ == "toggle"@,
        r.args@[1]@ == "bluetooth"@,
{
    let mut args: Vec<&'static str> = Vec::new();
    args.push("toggle");
    args.push("bluetooth");
    CommandConfig { command: "rfkill", args }
}

/// The cargo invocation that builds the library for one target in release
/// mode, for the release step that walks all targets.
pub fn release_command<'a>(target: &'a str) -> (r: CommandConfig<'a>)
    ensures
        r.command@ == "cargo"@,
        r.args@.len() == 4,
        r.args@[0]@ == "build"@,
        r.args@[1]@ == "--target"@,
        r.args@[2]@ == target@,
        r.args@[3]@ == "--release"@,
{
    let mut args: Vec<&'a str> = Vec::new();
    args.push("build");
    args.push("--target");
    args.push(target);
    args.push("--release");
    CommandConfig { command: "cargo", args }
}

} // verus!
