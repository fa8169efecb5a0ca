//! The connection handler: one for all clients.
use crate::handler::commands;
use crate::handler::commands::{vet_command, CommandVerdict, ValidatedCommand};
use crate::handler::rate_limit;
use crate::handler::rate_limit::RateLimiter;
use crate::handler::shell;
use crate::handler::shell::{vet_shell_command, ShellVerdict};
use crate::nsh::ValidatedNshCommand;
use crate::preflight::apply;
use crate::preflight::apply::apply_error;
use crate::preflight::restore;
use crate::preflight::restore::restore_error;
use crate::protocol::config::{ConfigResult, ConfigState};
use crate::protocol::envelope;
use crate::protocol::envelope::{IncomingMessage, OutgoingMessage};
use crate::protocol::frames::HandshakeAck;
use crate::protocol::provisioning::{
    PreflightApplyResult, PreflightReadiness, PreflightStatus, RestoreResult,
};
use crate::protocol::tags::ProtocolError;
use vstd::prelude::*;

verus! {

/// What the session has.
#[derive(Clone, Copy, Debug, PartialEq, Eq, Structural)]
pub struct Services {
    /// A shell to the flight controller.
    pub shell: bool,
    /// A way to recharge the battery.
    pub recharge: bool,
    /// Build configuration.
    pub build_config: bool,
    /// The preflight check.
    pub preflight: bool,
}

/// The connection handler.
#[derive(Debug)]
pub struct ConnectionHandler {
    version_major: u8,
    version_minor: u8,
    version_patch: u8,
    serial_port: String,
    pixhawk_connected: bool,
    services: Services,
    limiter: RateLimiter,
    next_client_id: u64,
    shutdown: bool,
}

/// What the connection handler knows.
pub ghost struct HandlerModel {
    pub version: (u8, u8, u8),
    pub serial_port: Seq<char>,
    pub pixhawk_connected: bool,
    pub services: Services,
    pub windows: Map<u64, rate_limit::RateWindow>,
    pub next_client_id: u64,
    pub shutdown: bool,
}

impl View for ConnectionHandler {
    type V = HandlerModel;

    closed spec fn view(&self) -> HandlerModel {
        HandlerModel {
            version: (self.version_major, self.version_minor, self.version_patch),
            serial_port: self.serial_port@,
            pixhawk_connected: self.pixhawk_connected,
            services: self.services,
            windows: self.limiter@,
            next_client_id: self.next_client_id,
            shutdown: self.shutdown,
        }
    }
}

/// What is to be done about a message.
#[derive(Debug)]
pub enum Action {
    /// Answer it.
    Reply(OutgoingMessage),
    /// Recharge the battery, then answer.
    Recharge(OutgoingMessage),
    /// Pass a command on to the vehicle.
    Forward(ValidatedCommand),
    /// Pass a command on to the shell.
    ForwardShell(ValidatedNshCommand),
    /// Configure the build of this JSON text.
    Configure(String),
    /// Take in tiles; the frame's header ends here.
    Ingest(usize),
    /// Check the board.
    CheckPreflight,
    /// Provision the board, without keeping the client waiting.
    Apply,
    /// Hand on the confirmation of this JSON.
    SnapshotStored(Vec<u8>),
    /// Restore the snapshot of this JSON, without keeping the client waiting.
    Restore(Vec<u8>),
    /// Shut down.
    Shutdown,
}

/// Whether this answers a handshake.
pub open spec fn handshake_answer(m: HandlerModel, a: HandshakeAck) -> bool {
    &&& (a.version_major, a.version_minor, a.version_patch) == m.version
    &&& a.pixhawk_connected == m.pixhawk_connected
    &&& a.serial_port@ == m.serial_port
}

/// Whether this is what is to be done about a message.
pub open spec fn action_for(
    m: HandlerModel,
    client: u64,
    msg: IncomingMessage,
    now_ms: u64,
    a: Action,
) -> bool {
    match msg {
        IncomingMessage::Handshake => a matches Action::Reply(OutgoingMessage::HandshakeAck(h))
            && handshake_answer(m, h),
        IncomingMessage::Command(cmd) => match commands::command_refusal(
            m.windows,
            client,
            cmd,
            m.services.recharge,
            now_ms,
        ) {
            Some(error) => a matches Action::Reply(OutgoingMessage::CommandAck(ack))
                && commands::denies(ack, cmd.command_id, error),
            None => if cmd.command_type is Recharge {
                a matches Action::Recharge(OutgoingMessage::CommandAck(ack)) && commands::accepts(
                    ack,
                    cmd.command_id,
                )
            } else {
                a == Action::Forward(ValidatedCommand { command: cmd, client_id: client })
            },
        },
        IncomingMessage::NshCommand(nsh) => match shell::shell_refusal(
            m.services.shell,
            m.windows,
            client,
            nsh,
            now_ms,
        ) {
            Some(output) => a matches Action::Reply(OutgoingMessage::NshResponse(r))
                && shell::refuses(r, nsh.request_id, output),
            None => a matches Action::ForwardShell(c) && c.request_id == nsh.request_id
                && c.command@ == nsh.command@ && c.timeout_ms == shell::shell_timeout(
                nsh.timeout_ms,
            ) && c.client_id == client,
        },
        IncomingMessage::ConfigureBuild(json) => a == Action::Configure(json),
        IncomingMessage::TerrainTiles(end) => a == Action::Ingest(end),
        IncomingMessage::Shutdown => a is Shutdown,
        IncomingMessage::RequestPreflightCheck => if m.services.preflight {
            a is CheckPreflight
        } else {
            a matches Action::Reply(OutgoingMessage::PreflightStatus(s)) && no_check_status(s)
        },
        IncomingMessage::ApplyPreflightParams => if m.services.preflight {
            a is Apply
        } else {
            a matches Action::Reply(OutgoingMessage::PreflightApplyResult(r)) && apply::report(r)
                == apply::failed_report("Preflight handler not available"@)
        },
        IncomingMessage::SnapshotStored(json) => a == Action::SnapshotStored(json),
        IncomingMessage::RestoreSnapshot(json) => a == Action::Restore(json),
    }
}

/// The status of a session without preflight checks: there is no board to check.
pub open spec fn no_check_status(s: PreflightStatus) -> bool {
    &&& !s.connected
    &&& !s.hitl_enabled
    &&& !s.is_quadrotor
    &&& s.readiness is NotApplicable
    &&& s.board_identity is None
}

/// The windows after a message: commands and shell commands count.
pub open spec fn windows_after_message(
    m: HandlerModel,
    client: u64,
    msg: IncomingMessage,
    now_ms: u64,
) -> Map<u64, rate_limit::RateWindow> {
    let counts = match msg {
        IncomingMessage::Command(_) => true,
        IncomingMessage::NshCommand(_) => m.services.shell,
        _ => false,
    };
    if counts && rate_limit::within_limit(m.windows, client, now_ms) {
        rate_limit::counted(m.windows, client, now_ms)
    } else {
        m.windows
    }
}

impl ConnectionHandler {
    /// A handler before any client.
    pub fn new(
        version_major: u8,
        version_minor: u8,
        version_patch: u8,
        serial_port: String,
        services: Services,
    ) -> (r: ConnectionHandler)
        ensures
            r@ == (HandlerModel {
                version: (version_major, version_minor, version_patch),
                serial_port: serial_port@,
                pixhawk_connected: false,
                services,
                windows: Map::empty(),
                next_client_id: 1,
                shutdown: false,
            }),
    {
        ConnectionHandler {
            version_major,
            version_minor,
            version_patch,
            serial_port,
            pixhawk_connected: false,
            services,
            limiter: RateLimiter::new(),
            next_client_id: 1,
            shutdown: false,
        }
    }

    /// What the session has changed.
    pub fn set_services(&mut self, services: Services)
        ensures
            final(self)@ == (HandlerModel { services, ..old(self)@ }),
    {
        self.services = services;
    }

    /// A number for a new client.
    pub fn allocate_client_id(&mut self) -> (r: u64)
        requires
            old(self)@.next_client_id < u64::MAX,
        ensures
            (final(self)@, r) == client_joined(old(self)@),
    {
        let id: u64 = self.next_client_id;
        self.next_client_id = id + 1;
        id
    }

    /// The flight controller came or went.
    pub fn set_pixhawk_connected(&mut self, connected: bool)
        ensures
            final(self)@ == (HandlerModel { pixhawk_connected: connected, ..old(self)@ }),
    {
        self.pixhawk_connected = connected;
    }

    /// Major version.
    pub fn version_major(&self) -> (r: u8)
        ensures
            r == self@.version.0,
    {
        self.version_major
    }

    /// Minor version.
    pub fn version_minor(&self) -> (r: u8)
        ensures
            r == self@.version.1,
    {
        self.version_minor
    }

    /// Patch version.
    pub fn version_patch(&self) -> (r: u8)
        ensures
            r == self@.version.2,
    {
        self.version_patch
    }

    /// Whether a browser asked for a shutdown.
    pub fn shutdown_requested(&self) -> (r: bool)
        ensures
            r == self@.shutdown,
    {
        self.shutdown
    }

    /// The answer to a handshake.
    pub fn handle_handshake(&self) -> (r: OutgoingMessage)
        ensures
            r matches OutgoingMessage::HandshakeAck(a) && handshake_answer(self@, a),
    {
        OutgoingMessage::HandshakeAck(
            HandshakeAck {
                version_major: self.version_major,
                version_minor: self.version_minor,
                version_patch: self.version_patch,
                pixhawk_connected: self.pixhawk_connected,
                serial_port: self.serial_port.clone(),
            },
        )
    }

    /// Decide on a message of a client; an error is the text of what is wrong
    /// with its layout.
    pub fn handle_message(&mut self, client: u64, data: &[u8], now_ms: u64) -> (r: Result<
        Action,
        String,
    >)
        ensures
            exists|read: Result<IncomingMessage, ProtocolError>| #[trigger]
                envelope::incoming_reading(data@, read) && match read {
                    Err(e) => (r matches Err(t) && t@ == e.message()) && final(self)@
                        == old(self)@,
                    Ok(msg) => {
                        &&& r matches Ok(a) && action_for(old(self)@, client, msg, now_ms, a)
                        &&& final(self)@ == (HandlerModel {
                            windows: windows_after_message(old(self)@, client, msg, now_ms),
                            shutdown: old(self)@.shutdown || msg is Shutdown,
                            ..old(self)@
                        })
                    },
                },
    {
        let read = IncomingMessage::from_bytes(data);
        let ghost g = read;
        match read {
            Err(e) => {
                assert(envelope::incoming_reading(data@, g));
                Err(e.text())
            },
            Ok(msg) => {
                let a = self.handle(client, msg, now_ms);
                assert(envelope::incoming_reading(data@, g));
                Ok(a)
            },
        }
    }

    /// Decide on a message.
    pub fn handle(&mut self, client: u64, msg: IncomingMessage, now_ms: u64) -> (r: Action)
        ensures
            action_for(old(self)@, client, msg, now_ms, r),
            final(self)@ == (HandlerModel {
                windows: windows_after_message(old(self)@, client, msg, now_ms),
                shutdown: old(self)@.shutdown || msg is Shutdown,
                ..old(self)@
            }),
    {
        match msg {
            IncomingMessage::Handshake => Action::Reply(self.handle_handshake()),
            IncomingMessage::Command(cmd) => {
                match vet_command(&mut self.limiter, client, &cmd, self.services.recharge, now_ms) {
                    CommandVerdict::Refused(ack) => Action::Reply(OutgoingMessage::CommandAck(ack)),
                    CommandVerdict::Recharge(ack) => Action::Recharge(
                        OutgoingMessage::CommandAck(ack),
                    ),
                    CommandVerdict::Forward(c) => Action::Forward(c),
                }
            },
            IncomingMessage::NshCommand(nsh) => {
                match vet_shell_command(
                    self.services.shell,
                    &mut self.limiter,
                    client,
                    &nsh,
                    now_ms,
                ) {
                    ShellVerdict::Refused(r) => Action::Reply(OutgoingMessage::NshResponse(r)),
                    ShellVerdict::Forward(c) => Action::ForwardShell(c),
                }
            },
            IncomingMessage::ConfigureBuild(json) => Action::Configure(json),
            IncomingMessage::TerrainTiles(end) => Action::Ingest(end),
            IncomingMessage::Shutdown => {
                self.shutdown = true;
                Action::Shutdown
            },
            IncomingMessage::RequestPreflightCheck => {
                if self.services.preflight {
                    Action::CheckPreflight
                } else {
                    Action::Reply(
                        OutgoingMessage::PreflightStatus(
                            PreflightStatus {
                                connected: false,
                                hitl_enabled: false,
                                is_quadrotor: false,
                                readiness: PreflightReadiness::NotApplicable,
                                board_identity: None,
                            },
                        ),
                    )
                }
            },
            IncomingMessage::ApplyPreflightParams => {
                if self.services.preflight {
                    Action::Apply
                } else {
                    Action::Reply(
                        OutgoingMessage::PreflightApplyResult(
                            apply_error("Preflight handler not available".to_owned()),
                        ),
                    )
                }
            },
            IncomingMessage::SnapshotStored(json) => Action::SnapshotStored(json),
            IncomingMessage::RestoreSnapshot(json) => Action::Restore(json),
        }
    }

    /// The answer to a readable build request in a session that configures no
    /// builds.
    pub fn build_refusal(&self) -> (r: Option<ConfigResult>)
        ensures
            r is Some <==> !self@.services.build_config,
            r matches Some(result) ==> crate::build_config::configure::reports_failure(
                result,
                "Build configuration not available"@,
            ),
    {
        if self.services.build_config {
            None
        } else {
            Some(
                ConfigResult {
                    state: ConfigState::Error,
                    success: false,
                    error: Some("Build configuration not available".to_owned()),
                    config: None,
                    stage: None,
                },
            )
        }
    }

    /// The answer to a readable restore request in a session without preflight checks.
    pub fn restore_refusal(&self) -> (r: Option<RestoreResult>)
        ensures
            r is Some <==> !self@.services.preflight,
            r matches Some(result) ==> restore::restore_report(result) == restore::restore_failed(
                "Restore is unavailable in this session"@,
            ),
    {
        if self.services.preflight {
            None
        } else {
            Some(restore_error("Restore is unavailable in this session".to_owned()))
        }
    }

    /// A client is gone.
    pub fn cleanup_client(&mut self, client: u64)
        ensures
            final(self)@ == client_left(old(self)@, client),
    {
        self.limiter.cleanup_client(client);
    }
}

/// A handshake is answered with the daemon's version, whether there is a flight
/// controller, and the port.
pub proof fn law_how_a_handshake_is_answered(
    m: HandlerModel,
    client: u64,
    now_ms: u64,
    a: Action,
)
    requires
        action_for(m, client, IncomingMessage::Handshake, now_ms, a),
    ensures
        a matches Action::Reply(OutgoingMessage::HandshakeAck(h)) && {
            &&& h.version_major == m.version.0
            &&& h.version_minor == m.version.1
            &&& h.version_patch == m.version.2
            &&& h.pixhawk_connected == m.pixhawk_connected
            &&& h.serial_port@ == m.serial_port
        },
{
}

/// A command that is not refused goes to the vehicle as it came, with the client
/// that sent it; a recharge is carried out instead, and one that is refused
/// reaches neither.
pub proof fn law_where_a_command_goes(
    m: HandlerModel,
    client: u64,
    cmd: crate::protocol::command::Command,
    now_ms: u64,
    a: Action,
)
    requires
        action_for(m, client, IncomingMessage::Command(cmd), now_ms, a),
    ensures
        ({
            let refusal = commands::command_refusal(
                m.windows,
                client,
                cmd,
                m.services.recharge,
                now_ms,
            );
            let recharge = cmd.command_type is Recharge;
            &&& a is Forward <==> refusal is None && !recharge
            &&& a is Recharge <==> refusal is None && recharge
            &&& a is Reply <==> refusal is Some
            &&& a matches Action::Forward(c) ==> c.command == cmd && c.client_id == client
            &&& a matches Action::Reply(OutgoingMessage::CommandAck(ack)) ==> ack.command_id
                == cmd.command_id && !ack.success
            &&& a matches Action::Recharge(OutgoingMessage::CommandAck(ack)) ==> ack.command_id
                == cmd.command_id && ack.success
        }),
{
}

/// A shell command that is not refused goes to the shell as it came, with the
/// client that sent it; a refused one is answered.
pub proof fn law_where_a_shell_command_goes(
    m: HandlerModel,
    client: u64,
    nsh: crate::protocol::frames::NshCommand,
    now_ms: u64,
    a: Action,
)
    requires
        action_for(m, client, IncomingMessage::NshCommand(nsh), now_ms, a),
    ensures
        ({
            let refusal = shell::shell_refusal(
                m.services.shell,
                m.windows,
                client,
                nsh,
                now_ms,
            );
            &&& a is ForwardShell <==> refusal is None
            &&& a is Reply <==> refusal is Some
            &&& a matches Action::ForwardShell(c) ==> c.request_id == nsh.request_id && c.command@
                == nsh.command@ && c.client_id == client && (nsh.timeout_ms != 0 ==> c.timeout_ms
                == nsh.timeout_ms)
            &&& a matches Action::Reply(OutgoingMessage::NshResponse(r)) ==> r.request_id
                == nsh.request_id && !r.success && r.complete && Some(r.output@) == refusal
        }),
{
}

/// Every other message leads where it says; without preflight checks, questions
/// about the board are answered at once.
pub proof fn law_where_other_messages_go(
    m: HandlerModel,
    client: u64,
    msg: IncomingMessage,
    now_ms: u64,
    a: Action,
)
    requires
        action_for(m, client, msg, now_ms, a),
    ensures
        msg is Shutdown <==> a is Shutdown,
        msg matches IncomingMessage::ConfigureBuild(json) ==> a == Action::Configure(json),
        msg matches IncomingMessage::TerrainTiles(end) ==> a == Action::Ingest(end),
        msg matches IncomingMessage::SnapshotStored(json) ==> a == Action::SnapshotStored(json),
        msg matches IncomingMessage::RestoreSnapshot(json) ==> a == Action::Restore(json),
        msg is RequestPreflightCheck && m.services.preflight ==> a is CheckPreflight,
        msg is ApplyPreflightParams && m.services.preflight ==> a is Apply,
        msg is RequestPreflightCheck && !m.services.preflight ==> (a matches Action::Reply(
            OutgoingMessage::PreflightStatus(s),
        ) && s.readiness is NotApplicable && !s.connected && s.board_identity is None),
        msg is ApplyPreflightParams && !m.services.preflight ==> (a matches Action::Reply(
            OutgoingMessage::PreflightApplyResult(r),
        ) && !r.success && r.state is Error && r.error is Some),
{
}

/// Only commands, and shell commands where there is a shell, count against a
/// client's limit; nothing counts against another client's.
pub proof fn law_what_counts_against_the_limit(
    m: HandlerModel,
    client: u64,
    msg: IncomingMessage,
    now_ms: u64,
    other: u64,
)
    ensures
        ({
            let after = windows_after_message(m, client, msg, now_ms);
            let counts = msg is Command || (msg is NshCommand && m.services.shell);
            &&& counts && rate_limit::within_limit(m.windows, client, now_ms) ==> after
                == rate_limit::counted(m.windows, client, now_ms)
            &&& !counts || !rate_limit::within_limit(m.windows, client, now_ms) ==> after
                == m.windows
            &&& other != client ==> after[other] == m.windows[other] && (after.dom().contains(
                other,
            ) <==> m.windows.dom().contains(other))
        }),
{
}

/// A handler that has given a new client its number, and the number.
pub open spec fn client_joined(m: HandlerModel) -> (HandlerModel, u64) {
    (
        HandlerModel { next_client_id: (m.next_client_id + 1) as u64, ..m },
        m.next_client_id,
    )
}

/// A handler that has forgotten a client.
pub open spec fn client_left(m: HandlerModel, client: u64) -> HandlerModel {
    HandlerModel { windows: m.windows.remove(client), ..m }
}

/// No two clients have the same number: each new one has a higher number than
/// those before it, and nothing else changes.
pub proof fn law_clients_have_numbers_of_their_own(m: HandlerModel)
    requires
        m.next_client_id < u64::MAX - 1,
    ensures
        ({
            let (one, first) = client_joined(m);
            let (two, second) = client_joined(one);
            &&& first == m.next_client_id
            &&& second == first + 1
            &&& two.windows == m.windows
            &&& two.services == m.services
            &&& two.version == m.version
            &&& two.pixhawk_connected == m.pixhawk_connected
            &&& two.shutdown == m.shutdown
        }),
{
}

/// A client that has left is forgotten, and no other is: should its number come
/// back, nothing counts against it.
pub proof fn law_a_client_that_left_is_forgotten(
    m: HandlerModel,
    client: u64,
    other: u64,
    now_ms: u64,
)
    requires
        other != client,
    ensures
        ({
            let after = client_left(m, client);
            &&& !after.windows.dom().contains(client)
            &&& rate_limit::within_limit(after.windows, client, now_ms)
            &&& after.windows.dom().contains(other) <==> m.windows.dom().contains(other)
            &&& m.windows.dom().contains(other) ==> after.windows[other] == m.windows[other]
            &&& after.next_client_id == m.next_client_id
        }),
{
}

} // verus!
