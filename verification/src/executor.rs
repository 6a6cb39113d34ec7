//! The hardware commands of a pass, and how their outcomes are judged.
//!
//! The library names each command and judges what came of it. Running the
//! command is left to the host program.

use crate::error::{result_view, Error, ErrorView};
use vstd::prelude::*;

verus! {

/// The NVIDIA management tool that queries and sets the MIG mode.
pub const NVIDIA_SMI: &'static str = "/usr/libexec/nvidia/tesla/bin/nvidia-smi";

/// The client through which a reboot of the host is requested.
pub const API_CLIENT: &'static str = "apiclient";

/// A program to run, with its arguments.
#[derive(Debug, PartialEq, Eq)]
pub struct Invocation {
    pub bin_path: String,
    pub args: Vec<String>,
}

/// An `Invocation` with its texts as sequences of characters.
pub struct InvocationView {
    pub bin_path: Seq<char>,
    pub args: Seq<Seq<char>>,
}

impl View for Invocation {
    type V = InvocationView;

    open spec fn view(&self) -> InvocationView {
        InvocationView { bin_path: self.bin_path@, args: self.args.deep_view() }
    }
}

impl Clone for Invocation {
    fn clone(&self) -> (copy: Invocation)
        ensures
            copy@ == self@,
    {
        let mut args: Vec<String> = Vec::new();
        let mut i: usize = 0;
        while i < self.args.len()
            invariant
                i <= self.args.len(),
                args.len() == i,
                forall|j: int| 0 <= j < i ==> args[j] == self.args[j],
            decreases self.args.len() - i,
        {
            args.push(self.args[i].clone());
            i += 1;
        }
        assert(args.deep_view() =~= self.args.deep_view());
        Invocation { bin_path: self.bin_path.clone(), args }
    }
}

/// The four fixed commands that a pass may issue.
#[derive(Clone, Copy, Debug, PartialEq, Eq, Structural)]
pub enum HardwareCommand {
    /// Asks every GPU for its name and its current and pending MIG mode.
    QueryModes,
    /// Enables MIG mode on all GPUs; takes effect after a reboot.
    EnableMig,
    /// Applies the partition profile to all GPUs.
    ApplyProfile,
    /// Asks the host's management service for a reboot.
    Reboot,
}

impl HardwareCommand {
    /// The program that carries the command out.
    pub open spec fn program(self) -> Seq<char> {
        match self {
            HardwareCommand::Reboot => API_CLIENT@,
            _ => NVIDIA_SMI@,
        }
    }

    /// The arguments that the program is given.
    pub open spec fn arguments(self) -> Seq<Seq<char>> {
        match self {
            HardwareCommand::QueryModes => seq![
                "--query-gpu=gpu_name,mig.mode.current,mig.mode.pending"@,
                "--format=csv,noheader"@,
            ],
            HardwareCommand::EnableMig => seq!["-mig"@, "1"@],
            HardwareCommand::ApplyProfile => seq!["mig"@, "-cgi"@, "9,9"@, "-C"@],
            HardwareCommand::Reboot => seq!["reboot"@],
        }
    }

    /// The path of the program that carries the command out.
    pub fn bin_path(&self) -> (path: &'static str)
        ensures
            path@ == self.program(),
    {
        match self {
            HardwareCommand::Reboot => API_CLIENT,
            _ => NVIDIA_SMI,
        }
    }

    /// The program and the arguments to run for the command.
    pub fn invocation(&self) -> (invocation: Invocation)
        ensures
            invocation@.bin_path == self.program(),
            invocation@.args == self.arguments(),
    {
        let mut args: Vec<String> = Vec::new();
        match self {
            HardwareCommand::QueryModes => {
                args.push("--query-gpu=gpu_name,mig.mode.current,mig.mode.pending".to_owned());
                args.push("--format=csv,noheader".to_owned());
            },
            HardwareCommand::EnableMig => {
                args.push("-mig".to_owned());
                args.push("1".to_owned());
            },
            HardwareCommand::ApplyProfile => {
                args.push("mig".to_owned());
                args.push("-cgi".to_owned());
                args.push("9,9".to_owned());
                args.push("-C".to_owned());
            },
            HardwareCommand::Reboot => {
                args.push("reboot".to_owned());
            },
        }
        Invocation { bin_path: self.bin_path().to_owned(), args }
    }
}

/// What came of running a program.
#[derive(Debug, PartialEq, Eq)]
pub enum ProcessOutcome {
    /// The program could not be started. `command` shows what was to be
    /// run, `reason` why it could not.
    NotStarted { command: String, reason: String },
    /// The program ran to its end. `success` tells whether its exit status
    /// was zero.
    Exited { success: bool, stdout: String, stderr: String },
}

/// A `ProcessOutcome` with its texts as sequences of characters.
pub enum ProcessOutcomeView {
    NotStarted { command: Seq<char>, reason: Seq<char> },
    Exited { success: bool, stdout: Seq<char>, stderr: Seq<char> },
}

impl View for ProcessOutcome {
    type V = ProcessOutcomeView;

    open spec fn view(&self) -> ProcessOutcomeView {
        match self {
            ProcessOutcome::NotStarted { command, reason } => ProcessOutcomeView::NotStarted {
                command: command@,
                reason: reason@,
            },
            ProcessOutcome::Exited { success, stdout, stderr } => ProcessOutcomeView::Exited {
                success: *success,
                stdout: stdout@,
                stderr: stderr@,
            },
        }
    }
}

impl Clone for ProcessOutcome {
    fn clone(&self) -> (copy: ProcessOutcome)
        ensures
            copy == *self,
    {
        match self {
            ProcessOutcome::NotStarted { command, reason } => ProcessOutcome::NotStarted {
                command: command.clone(),
                reason: reason.clone(),
            },
            ProcessOutcome::Exited { success, stdout, stderr } => ProcessOutcome::Exited {
                success: *success,
                stdout: stdout.clone(),
                stderr: stderr.clone(),
            },
        }
    }
}

/// What a program's outcome amounts to: its standard output if it ran and
/// succeeded, `ExecutionFailure` if it did not start, `CommandFailure` with
/// its standard error if it ran and failed.
pub open spec fn command_result(bin_path: Seq<char>, outcome: ProcessOutcomeView) -> Result<
    Seq<char>,
    ErrorView,
> {
    match outcome {
        ProcessOutcomeView::NotStarted { command, reason } => Err(
            ErrorView::ExecutionFailure { command, reason },
        ),
        ProcessOutcomeView::Exited { success, stdout, stderr } => if success {
            Ok(stdout)
        } else {
            Err(ErrorView::CommandFailure { bin_path, stderr })
        },
    }
}

/// Judges the outcome of running the program at `bin_path`.
pub fn command(bin_path: &str, outcome: ProcessOutcome) -> (result: Result<String, Error>)
    ensures
        result_view(result) == command_result(bin_path@, outcome@),
{
    match outcome {
        ProcessOutcome::NotStarted { command, reason } => Err(
            Error::ExecutionFailure { command, reason },
        ),
        ProcessOutcome::Exited { success, stdout, stderr } => {
            if success {
                Ok(stdout)
            } else {
                Err(Error::CommandFailure { bin_path: bin_path.to_owned(), stderr })
            }
        },
    }
}

/// What the outcome of a command whose output is of no interest amounts to.
pub open spec fn completion(command: HardwareCommand, outcome: ProcessOutcomeView) -> Result<
    (),
    ErrorView,
> {
    match command_result(command.program(), outcome) {
        Ok(_) => Ok(()),
        Err(error) => Err(error),
    }
}

/// Judges the outcome of a command whose output is of no interest.
pub fn complete(command: HardwareCommand, outcome: ProcessOutcome) -> (result: Result<(), Error>)
    ensures
        result_view(result) == completion(command, outcome@),
{
    match self::command(command.bin_path(), outcome) {
        Ok(_) => Ok(()),
        Err(error) => Err(error),
    }
}

/// Judges the outcome of the command that enables MIG mode.
pub fn set_mig_mode(outcome: ProcessOutcome) -> (result: Result<(), Error>)
    ensures
        result_view(result) == completion(HardwareCommand::EnableMig, outcome@),
{
    complete(HardwareCommand::EnableMig, outcome)
}

/// Judges the outcome of the command that applies the partition profile.
pub fn set_mig_profile(outcome: ProcessOutcome) -> (result: Result<(), Error>)
    ensures
        result_view(result) == completion(HardwareCommand::ApplyProfile, outcome@),
{
    complete(HardwareCommand::ApplyProfile, outcome)
}

/// Judges the outcome of the request for a reboot.
pub fn request_reboot(outcome: ProcessOutcome) -> (result: Result<(), Error>)
    ensures
        result_view(result) == completion(HardwareCommand::Reboot, outcome@),
{
    complete(HardwareCommand::Reboot, outcome)
}

} // verus!
