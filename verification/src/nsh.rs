//! Commands for the autopilot's shell.
use vstd::prelude::*;

verus! {

/// Client that stands for the daemon itself.
pub const SYSTEM_CLIENT: u64 = 0;

/// Request of the daemon's own command that stops the estimator.
pub const EKF_STOP_REQUEST: u32 = 0xffff_ff01;

/// Request of the daemon's own command that starts the estimator.
pub const EKF_START_REQUEST: u32 = 0xffff_ff02;

/// Request of the daemon's own reboot command.
pub const REBOOT_REQUEST: u32 = 0xffff_ff04;

/// Time the shell is given for a command.
pub const NSH_TIMEOUT_MS: u16 = 2000;

/// A command that was found fit to be sent.
#[derive(Clone, Debug)]
pub struct ValidatedNshCommand {
    /// Request that the answer refers to.
    pub request_id: u32,
    /// The command.
    pub command: String,
    /// Time the shell is given.
    pub timeout_ms: u16,
    /// Client that asked.
    pub client_id: u64,
}

/// Whether this is the daemon's own command of this request and text.
pub open spec fn own_command(c: ValidatedNshCommand, request_id: u32, command: Seq<char>) -> bool {
    &&& c.request_id == request_id
    &&& c.command@ == command
    &&& c.timeout_ms == NSH_TIMEOUT_MS
    &&& c.client_id == SYSTEM_CLIENT
}

fn system_command(request_id: u32, command: &str) -> (r: ValidatedNshCommand)
    ensures
        own_command(r, request_id, command@),
{
    ValidatedNshCommand {
        request_id,
        command: command.to_owned(),
        timeout_ms: NSH_TIMEOUT_MS,
        client_id: SYSTEM_CLIENT,
    }
}

/// The command that reboots the board. It goes through the shell because the
/// MAVLink reboot command is silently dropped by some boards.
pub fn reboot_command() -> (r: ValidatedNshCommand)
    ensures
        own_command(r, REBOOT_REQUEST, "reboot"@),
{
    system_command(REBOOT_REQUEST, "reboot")
}

/// The command that stops the estimator.
pub fn ekf_stop_command() -> (r: ValidatedNshCommand)
    ensures
        own_command(r, EKF_STOP_REQUEST, "ekf2 stop"@),
{
    system_command(EKF_STOP_REQUEST, "ekf2 stop")
}

/// The command that starts the estimator.
pub fn ekf_start_command() -> (r: ValidatedNshCommand)
    ensures
        own_command(r, EKF_START_REQUEST, "ekf2 start"@),
{
    system_command(EKF_START_REQUEST, "ekf2 start")
}

/// The daemon's own commands have two seconds, belong to no client, and have
/// request numbers of their own, out of the way of those that clients give.
pub proof fn law_the_daemons_own_commands(
    c: ValidatedNshCommand,
    request_id: u32,
    command: Seq<char>,
)
    requires
        own_command(c, request_id, command),
    ensures
        c.request_id == request_id,
        c.command@ == command,
        c.timeout_ms == 2000,
        c.client_id == 0,
        EKF_STOP_REQUEST == 0xffff_ff01,
        EKF_START_REQUEST == 0xffff_ff02,
        REBOOT_REQUEST == 0xffff_ff04,
{
}

} // verus!
