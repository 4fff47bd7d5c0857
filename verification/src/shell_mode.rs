//! The two shell backends and the router that dispatches between them.
//!
//! The router composes the embedded [`PtySession`] and the optional
//! [`ExternalBridge`] behind one surface.  The caller performs the actual
//! socket and pseudo-terminal I/O: it passes each poll's [`AcceptEvent`] in,
//! provisions a bridge when one is needed, and carries queued writes out.

use vstd::prelude::*;
use vstd::string::{StrSliceExecFns, StringExecFns};

use crate::bridge::{
    connect_command_text, spec_poll_accept, AcceptEvent, BridgeModel, ExternalBridge, ShellError,
};
use crate::pty::{drained_lines, wire_line, PtySession, SessionModel};
use crate::text::{lower_seq, str_eq, to_lowercase_str, trim_spec, trim_str};

verus! {

/// Which backend executes submitted command lines.
#[derive(Debug, Clone, Copy, PartialEq, Eq, Structural)]
pub enum ShellMode {
    /// Commands run inside a pseudo-terminal owned by this process.
    Embedded,
    /// Commands run in a user-chosen terminal paired over a loopback socket.
    External,
}

impl ShellMode {
    /// The lower-case name of the mode, as shown in status lines.
    pub fn as_str(self) -> (r: &'static str)
        ensures
            self == ShellMode::Embedded ==> r@ == "embedded"@,
            self == ShellMode::External ==> r@ == "external"@,
    {
        match self {
            Self::Embedded => "embedded",
            Self::External => "external",
        }
    }

    /// Parses a mode name, ignoring surrounding whitespace and ASCII case.
    pub fn parse(value: &str) -> (r: Option<Self>)
        ensures
            ({
                let v = lower_seq(trim_spec(value@));
                &&& v == "embedded"@ ==> r == Some(ShellMode::Embedded)
                &&& v == "external"@ ==> r == Some(ShellMode::External)
                &&& v != "embedded"@ && v != "external"@ ==> r is None
            }),
    {
        proof {
            reveal_strlit("embedded");
            reveal_strlit("external");
            assert("embedded"@[1] == 'm');
            assert("external"@[1] == 'x');
            assert("embedded"@ != "external"@);
        }
        let trimmed = trim_str(value);
        let lowered = to_lowercase_str(trimmed.as_str());
        if str_eq(lowered.as_str(), "embedded") {
            Some(Self::Embedded)
        } else if str_eq(lowered.as_str(), "external") {
            Some(Self::External)
        } else {
            None
        }
    }
}

/// The observable state of the router.
#[verifier::ext_equal]
pub struct RouterModel {
    /// The active backend; the single source of truth for dispatch.
    pub mode: ShellMode,
    /// The embedded pseudo-terminal session.
    pub embedded: SessionModel,
    /// The terminal-executable override handed in at construction.
    pub terminal_override: Option<Seq<char>>,
    /// The external bridge, once one was provisioned.
    pub external: Option<BridgeModel>,
    /// Queued diagnostics for External mode, drained once per tick.
    pub notices: Seq<Seq<char>>,
}

/// The acknowledgement returned for a line dispatched to the embedded shell.
pub open spec fn embedded_ack_text(line: Seq<char>) -> Seq<char> {
    "embedded dispatch: "@ + line
}

/// The acknowledgement returned for a line dispatched to the external peer.
pub open spec fn external_ack_text(line: Seq<char>) -> Seq<char> {
    "external dispatch: "@ + line
}

/// The reply when External mode has a bridge but no connected peer yet.
pub open spec fn not_connected_text(b: BridgeModel) -> Seq<char> {
    "external terminal not connected yet. Run: "@ + connect_command_text(b.pin, b.port, b.terminal)
}

/// The notice queued when a router starts in External mode with no bridge.
pub open spec fn bridge_unavailable_notice() -> Seq<char> {
    "external mode unavailable: could not initialize bridge; switch to /shell embedded"@
}

/// The notice queued when entering External mode fails to provision a bridge.
pub open spec fn bridge_failed_notice() -> Seq<char> {
    "failed to initialize external bridge; staying unpaired (use /shell embedded)"@
}

/// What a mode switch does to the router.
///
/// The mode is recorded; entering External with no bridge installs the
/// provisioned one, or queues a diagnostic when provisioning failed.  The
/// embedded session is never touched.
pub open spec fn spec_set_mode(
    r: RouterModel,
    mode: ShellMode,
    provision: Option<BridgeModel>,
) -> RouterModel {
    if mode == ShellMode::External && r.external is None {
        match provision {
            Some(b) => RouterModel { mode, external: Some(b), ..r },
            None => RouterModel { mode, notices: r.notices.push(bridge_failed_notice()), ..r },
        }
    } else {
        RouterModel { mode, ..r }
    }
}

/// What one dispatch does to the router, and what it returns.
///
/// Embedded mode queues the line for the pseudo-terminal.  External mode
/// first folds in the pending accept attempt, then either reports the bridge
/// missing, replies with the pairing instructions while unconnected, or
/// queues the line for the peer; the acknowledgement is also queued as a
/// notice.
pub open spec fn spec_send_line(r: RouterModel, line: Seq<char>, pending: AcceptEvent) -> (
    RouterModel,
    Result<Seq<char>, ShellError>,
) {
    match r.mode {
        ShellMode::Embedded => (
            RouterModel {
                embedded: SessionModel {
                    outbox: r.embedded.outbox.push(wire_line(line)),
                    ..r.embedded
                },
                ..r
            },
            Ok(embedded_ack_text(line)),
        ),
        ShellMode::External => match r.external {
            None => (r, Err(ShellError::BridgeUnavailable)),
            Some(b) => {
                let (b2, notices2) = spec_poll_accept(b, pending, r.notices);
                if !b2.connected {
                    let msg = not_connected_text(b2);
                    (
                        RouterModel { external: Some(b2), notices: notices2.push(msg), ..r },
                        Ok(msg),
                    )
                } else {
                    let msg = external_ack_text(line);
                    (
                        RouterModel {
                            external: Some(
                                BridgeModel { outbox: b2.outbox.push(wire_line(line)), ..b2 },
                            ),
                            notices: notices2.push(msg),
                            ..r
                        },
                        Ok(msg),
                    )
                }
            },
        },
    }
}

/// What one drain does to the router, and what it returns.
///
/// Embedded mode empties the session's received chunks into display lines.
/// External mode folds in the pending accept attempt, then hands out the
/// whole diagnostics queue.
pub open spec fn spec_drain_output(r: RouterModel, pending: AcceptEvent) -> (
    RouterModel,
    Seq<Seq<char>>,
) {
    match r.mode {
        ShellMode::Embedded => (
            RouterModel {
                embedded: SessionModel { inbox: Seq::empty(), ..r.embedded },
                ..r
            },
            drained_lines(r.embedded.inbox),
        ),
        ShellMode::External => match r.external {
            Some(b) => {
                let (b2, notices2) = spec_poll_accept(b, pending, r.notices);
                (RouterModel { external: Some(b2), notices: Seq::empty(), ..r }, notices2)
            },
            None => (RouterModel { notices: Seq::empty(), ..r }, r.notices),
        },
    }
}

/// One dispatch surface over both backends, owning the mode switch.
pub struct ShellRouter {
    mode: ShellMode,
    embedded: PtySession,
    terminal_override: Option<String>,
    external: Option<ExternalBridge>,
    external_output: Vec<String>,
}

impl View for ShellRouter {
    type V = RouterModel;

    closed spec fn view(&self) -> RouterModel {
        RouterModel {
            mode: self.mode,
            embedded: self.embedded@,
            terminal_override: match self.terminal_override {
                Some(t) => Some(t@),
                None => None,
            },
            external: match self.external {
                Some(b) => Some(b@),
                None => None,
            },
            notices: self.external_output.deep_view(),
        }
    }
}

impl ShellRouter {
    /// Builds the router around an embedded session.
    ///
    /// Starting in External mode uses the eagerly provisioned bridge; if
    /// provisioning failed, the router stays in External mode, degraded,
    /// with one queued diagnostic saying so.
    pub fn new(
        mode: ShellMode,
        embedded: PtySession,
        terminal_override: Option<String>,
        provision: Option<ExternalBridge>,
    ) -> (r: Self)
        ensures
            r@.mode == mode,
            r@.embedded == embedded@,
            r@.terminal_override == (match terminal_override {
                Some(t) => Some::<Seq<char>>(t@),
                None => None::<Seq<char>>,
            }),
            mode == ShellMode::External ==> r@.external == (match provision {
                Some(b) => Some::<BridgeModel>(b@),
                None => None::<BridgeModel>,
            }),
            mode == ShellMode::Embedded ==> r@.external is None,
            mode == ShellMode::External && provision is None ==> r@.notices == seq![
                bridge_unavailable_notice(),
            ],
            !(mode == ShellMode::External && provision is None) ==> r@.notices == Seq::<
                Seq<char>,
            >::empty(),
    {
        let is_external = match mode {
            ShellMode::External => true,
            ShellMode::Embedded => false,
        };
        let external = if is_external {
            provision
        } else {
            None
        };
        let mut external_output: Vec<String> = Vec::new();
        proof {
            assert(external_output.deep_view() =~= Seq::<Seq<char>>::empty());
        }
        if is_external && external.is_none() {
            let ghost pre = external_output;
            let notice =
                "external mode unavailable: could not initialize bridge; switch to /shell embedded"
                .to_owned();
            let ghost notice_snap = notice;
            external_output.push(notice);
            proof {
                crate::text::lemma_deep_view_push(pre, external_output, notice_snap);
                assert(Seq::<Seq<char>>::empty().push(bridge_unavailable_notice()) =~= seq![
                    bridge_unavailable_notice(),
                ]);
            }
        }
        ShellRouter { mode, embedded, terminal_override, external, external_output }
    }

    /// The active mode.
    pub fn mode(&self) -> (m: ShellMode)
        ensures
            m == self@.mode,
    {
        self.mode
    }

    /// Whether a bridge has been provisioned already.
    pub fn has_bridge(&self) -> (r: bool)
        ensures
            r == (self@.external is Some),
    {
        self.external.is_some()
    }

    /// Whether the provisioned bridge has an authenticated peer.
    pub fn external_connected(&self) -> (r: bool)
        ensures
            r == (self@.external matches Some(b) && b.connected),
    {
        match &self.external {
            Some(bridge) => bridge.is_connected(),
            None => false,
        }
    }

    /// Records the new mode; entering External with no bridge installs the
    /// provisioned one or queues a diagnostic.  Never aborts the session.
    pub fn set_mode(&mut self, mode: ShellMode, provision: Option<ExternalBridge>)
        ensures
            final(self)@ == spec_set_mode(old(self)@, mode, match provision {
                Some(b) => Some::<BridgeModel>(b@),
                None => None::<BridgeModel>,
            }),
    {
        self.mode = mode;
        let is_external = match mode {
            ShellMode::External => true,
            ShellMode::Embedded => false,
        };
        if is_external && self.external.is_none() {
            match provision {
                Some(b) => {
                    self.external = Some(b);
                },
                None => {
                    let ghost pre = self.external_output;
                    let notice =
                        "failed to initialize external bridge; staying unpaired (use /shell embedded)"
                        .to_owned();
                    let ghost notice_snap = notice;
                    self.external_output.push(notice);
                    proof {
                        crate::text::lemma_deep_view_push(pre, self.external_output, notice_snap);
                    }
                },
            }
        }
    }

    /// The pairing command of the provisioned bridge, if one exists.
    pub fn external_connect_command(&self) -> (r: Option<String>)
        ensures
            self@.external matches Some(b) ==> (r matches Some(c) && c@ == connect_command_text(
                b.pin,
                b.port,
                b.terminal,
            )),
            self@.external is None ==> r is None,
    {
        match &self.external {
            Some(bridge) => Some(bridge.connect_command()),
            None => None,
        }
    }

    /// Records one chunk the embedded shell produced.
    pub fn push_embedded_chunk(&mut self, chunk: String)
        ensures
            final(self)@ == (RouterModel {
                embedded: SessionModel {
                    inbox: old(self)@.embedded.inbox.push(chunk@),
                    ..old(self)@.embedded
                },
                ..old(self)@
            }),
    {
        self.embedded.push_chunk(chunk);
    }

    /// Hands out the writes queued for the embedded pseudo-terminal.
    pub fn take_embedded_outgoing(&mut self) -> (r: Vec<String>)
        ensures
            r.deep_view() == old(self)@.embedded.outbox,
            final(self)@ == (RouterModel {
                embedded: SessionModel { outbox: Seq::empty(), ..old(self)@.embedded },
                ..old(self)@
            }),
    {
        let r = self.embedded.take_outgoing();
        proof {
            assert(self@ =~= (RouterModel {
                embedded: SessionModel { outbox: Seq::empty(), ..old(self)@.embedded },
                ..old(self)@
            }));
        }
        r
    }

    /// Hands out the writes queued for the external peer, if any.
    pub fn take_external_outgoing(&mut self) -> (r: Vec<String>)
        ensures
            old(self)@.external matches Some(b) ==> r.deep_view() == b.outbox && final(self)@ == (
            RouterModel {
                external: Some(BridgeModel { outbox: Seq::empty(), ..b }),
                ..old(self)@
            }),
            old(self)@.external is None ==> r@.len() == 0 && final(self)@ == old(self)@,
    {
        let mut ext = self.external.take();
        let r = match &mut ext {
            Some(bridge) => bridge.take_outgoing(),
            None => Vec::new(),
        };
        self.external = ext;
        proof {
            if old(self)@.external is None {
                assert(r.deep_view() =~= Seq::<Seq<char>>::empty());
            }
        }
        r
    }

    /// Records that a write to the external peer failed: the connection is
    /// dropped, the bridge and the router stay usable for re-pairing.
    pub fn on_external_write_failure(&mut self)
        ensures
            old(self)@.external matches Some(b) ==> final(self)@ == (RouterModel {
                external: Some(BridgeModel { connected: false, outbox: Seq::empty(), ..b }),
                ..old(self)@
            }),
            old(self)@.external is None ==> final(self)@ == old(self)@,
    {
        let mut ext = self.external.take();
        match &mut ext {
            Some(bridge) => bridge.on_write_failure(),
            None => {},
        }
        self.external = ext;
    }

    /// Dispatches one command line to the active backend.
    ///
    /// `pending` is what a non-blocking accept attempt observed just now, so
    /// pairing and dispatch can interleave within one call.  In External
    /// mode without a connected peer this replies — successfully — with the
    /// pairing instructions; only a missing bridge is an error.
    pub fn send_line(&mut self, line: &str, pending: AcceptEvent) -> (r: Result<
        String,
        ShellError,
    >)
        ensures
            final(self)@ == spec_send_line(old(self)@, line@, pending).0,
            (r matches Ok(msg) ==> (spec_send_line(old(self)@, line@, pending).1 matches Ok(m)
                && msg@ == m)),
            (r matches Err(e) ==> spec_send_line(old(self)@, line@, pending).1 == Err::<
                Seq<char>,
                ShellError,
            >(e)),
            r is Err <==> old(self)@.mode == ShellMode::External && old(self)@.external is None,
    {
        match self.mode {
            ShellMode::Embedded => {
                self.embedded.send_line(line);
                let mut ack = "embedded dispatch: ".to_owned();
                ack.append(line);
                Ok(ack)
            },
            ShellMode::External => {
                let ext = self.external.take();
                match ext {
                    None => {
                        self.external = None;
                        Err(ShellError::BridgeUnavailable)
                    },
                    Some(mut bridge) => {
                        bridge.poll_accept(pending, &mut self.external_output);
                        if !bridge.is_connected() {
                            let mut msg = "external terminal not connected yet. Run: ".to_owned();
                            msg.append(bridge.connect_command().as_str());
                            let ghost pre = self.external_output;
                            let ghost msg_snap = msg;
                            let copy = msg.clone();
                            self.external_output.push(copy);
                            self.external = Some(bridge);
                            proof {
                                crate::text::lemma_deep_view_push(
                                    pre,
                                    self.external_output,
                                    msg_snap,
                                );
                            }
                            Ok(msg)
                        } else {
                            let sent = bridge.send_line(line);
                            proof {
                                assert(sent is Ok);
                            }
                            let mut ack = "external dispatch: ".to_owned();
                            ack.append(line);
                            let ghost pre = self.external_output;
                            let ghost ack_snap = ack;
                            let copy = ack.clone();
                            self.external_output.push(copy);
                            self.external = Some(bridge);
                            proof {
                                crate::text::lemma_deep_view_push(
                                    pre,
                                    self.external_output,
                                    ack_snap,
                                );
                            }
                            Ok(ack)
                        }
                    },
                }
            },
        }
    }

    /// Empties the active backend's output: display lines from the embedded
    /// shell, or the queued diagnostics in External mode.
    ///
    /// `pending` is what a non-blocking accept attempt observed just now; it
    /// is folded in first, as polling happens once per render tick.  With
    /// nothing queued this returns the empty vector and never blocks.
    pub fn drain_output(&mut self, pending: AcceptEvent) -> (r: Vec<String>)
        ensures
            final(self)@ == spec_drain_output(old(self)@, pending).0,
            r.deep_view() == spec_drain_output(old(self)@, pending).1,
    {
        match self.mode {
            ShellMode::Embedded => {
                let r = self.embedded.drain_output();
                proof {
                    assert(self@ =~= spec_drain_output(old(self)@, pending).0);
                }
                r
            },
            ShellMode::External => {
                let mut ext = self.external.take();
                match &mut ext {
                    Some(bridge) => {
                        bridge.poll_accept(pending, &mut self.external_output);
                    },
                    None => {},
                }
                self.external = ext;
                let mut out: Vec<String> = Vec::new();
                core::mem::swap(&mut out, &mut self.external_output);
                proof {
                    assert(self.external_output.deep_view() =~= Seq::<Seq<char>>::empty());
                    assert(self@ =~= spec_drain_output(old(self)@, pending).0);
                }
                out
            },
        }
    }
}

/// Law: switching Embedded → External → Embedded never drops output queued
/// by the embedded backend — the embedded session, its received chunks
/// included, is exactly what it was before the detour.
pub proof fn lemma_mode_switch_keeps_embedded_output(
    r0: RouterModel,
    provision: Option<BridgeModel>,
    r1: RouterModel,
    r2: RouterModel,
)
    requires
        r1 == spec_set_mode(r0, ShellMode::External, provision),
        r2 == spec_set_mode(r1, ShellMode::Embedded, None::<BridgeModel>),
    ensures
        r2.embedded == r0.embedded,
        r2.mode == ShellMode::Embedded,
        spec_drain_output(r2, AcceptEvent::Idle).1 == drained_lines(r0.embedded.inbox),
{
}

} // verus!
