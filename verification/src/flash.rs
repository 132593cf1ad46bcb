//! Flashing the firmware before the tests: what is decided around the
//! build-and-flash command. Looking at the disk and running the command are
//! the program's part.

use vstd::prelude::*;

use crate::error::HarnessError;

verus! {

/// The command that builds the firmware and flashes it, and the directory
/// in which it is to be run.
#[derive(Clone, Debug, PartialEq, Eq)]
pub struct FlashCommand {
    pub program: &'static str,
    pub arguments: Vec<&'static str>,
    pub directory: String,
}

/// The arguments of the flash command, in order.
pub open spec fn flash_arguments() -> Seq<Seq<char>> {
    seq![
        "espflash"@,
        "flash"@,
        "--example"@,
        "server"@,
        "--release"@,
        "--baud"@,
        "921600"@,
    ]
}

/// The texts of a list of arguments.
pub open spec fn argument_texts(arguments: Seq<&'static str>) -> Seq<Seq<char>> {
    Seq::new(arguments.len(), |i: int| arguments[i]@)
}

/// Decides whether flashing can be attempted: only when the firmware
/// project exists at `path` is there a command to run, and it runs there.
pub fn plan_flash(path: &str, path_exists: bool) -> (plan: Result<FlashCommand, HarnessError>)
    ensures
        path_exists <==> plan is Ok,
        plan matches Err(error) ==> error == HarnessError::PathNotFound,
        plan matches Ok(command) ==> command.program@ == "cargo"@ && argument_texts(
            command.arguments@,
        ) == flash_arguments() && command.directory@ == path@,
{
    if !path_exists {
        return Err(HarnessError::PathNotFound);
    }
    let mut arguments: Vec<&'static str> = Vec::new();
    arguments.push("espflash");
    arguments.push("flash");
    arguments.push("--example");
    arguments.push("server");
    arguments.push("--release");
    arguments.push("--baud");
    arguments.push("921600");
    assert(argument_texts(arguments@) =~= flash_arguments());
    Ok(FlashCommand { program: "cargo", arguments, directory: String::from_str(path) })
}

/// Judges the status with which the flash command ended.
pub fn flash_outcome(succeeded: bool) -> (outcome: Result<(), HarnessError>)
    ensures
        succeeded <==> outcome is Ok,
        outcome matches Err(error) ==> error == HarnessError::SubprocessFailure,
{
    if succeeded {
        Ok(())
    } else {
        Err(HarnessError::SubprocessFailure)
    }
}

} // verus!
