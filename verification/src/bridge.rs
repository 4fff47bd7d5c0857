//! The external bridge: pairing a user-chosen terminal over loopback TCP.
//!
//! The caller owns the listener and the accepted stream.  It binds the
//! socket, reads the handshake line of an incoming connection, and hands
//! both to [`ExternalBridge::poll_accept`] as an [`AcceptEvent`]; queued
//! command lines are carried to the peer via
//! [`ExternalBridge::take_outgoing`].

use vstd::prelude::*;
use vstd::string::{StrSliceExecFns, StringExecFns};

use crate::pty::wire_line;
use crate::text::{dec_chars, digit_char, int_chars, push_char, str_eq, trim_spec, trim_str};

verus! {

/// Errors of the dispatch subsystem that callers may observe.
#[derive(Debug, Clone, Copy, PartialEq, Eq, Structural)]
pub enum ShellError {
    /// No external bridge could be constructed or none exists.
    BridgeUnavailable,
    /// A send was attempted while no peer is connected.
    NotConnected,
    /// No terminal executable could be resolved.
    NoTerminal,
}

impl ShellError {
    /// The human-readable description of the error.
    pub fn message(&self) -> (r: String)
        ensures
            *self == ShellError::BridgeUnavailable ==> r@
                == "external bridge not available; use /shell embedded"@,
            *self == ShellError::NotConnected ==> r@ == "external bridge not connected"@,
            *self == ShellError::NoTerminal ==> r@
                == "no supported terminal found (set --terminal or CKA_BUDDY_TERMINAL); tried: ghostty, wezterm, alacritty, kitty, gnome-terminal, xterm"@,
    {
        match self {
            ShellError::BridgeUnavailable => "external bridge not available; use /shell embedded"
                .to_owned(),
            ShellError::NotConnected => "external bridge not connected".to_owned(),
            ShellError::NoTerminal => "no supported terminal found (set --terminal or CKA_BUDDY_TERMINAL); tried: ghostty, wezterm, alacritty, kitty, gnome-terminal, xterm"
                .to_owned(),
        }
    }
}

/// What one non-blocking accept attempt observed.
pub enum AcceptEvent {
    /// No connection was pending.
    Idle,
    /// A connection arrived; `handshake` is the first line read from it, if
    /// one could be read, and `peer` is the printed peer address.
    Incoming { handshake: Option<String>, peer: String },
}

/// The four-digit PIN derived from a seed, zero padded.
pub open spec fn pin_chars(seed: nat) -> Seq<char> {
    let v = seed % 10000;
    seq![
        digit_char(v as int / 1000),
        digit_char((v as int / 100) % 10),
        digit_char((v as int / 10) % 10),
        digit_char(v as int % 10),
    ]
}

/// Derives the pairing PIN from a seed, as four zero-padded decimal digits.
pub fn generate_pin(seed: u64) -> (r: String)
    ensures
        r@ == pin_chars(seed as nat),
        r@.len() == 4,
{
    let v = seed % 10000;
    let mut r = String::new();
    push_char(&mut r, digit_char_of((v / 1000) as u8));
    push_char(&mut r, digit_char_of(((v / 100) % 10) as u8));
    push_char(&mut r, digit_char_of(((v / 10) % 10) as u8));
    push_char(&mut r, digit_char_of((v % 10) as u8));
    proof {
        assert(r@ =~= pin_chars(seed as nat));
    }
    r
}

fn digit_char_of(d: u8) -> (c: char)
    requires
        d < 10,
    ensures
        c == digit_char(d as int),
{
    (0x30 + d) as char
}

/// The exact handshake line a peer must send: `PIN <pin>`, trimmed.
pub open spec fn handshake_matches(pin: Seq<char>, line: Seq<char>) -> bool {
    trim_spec(line) == "PIN "@ + pin
}

/// The terminal executables probed, in order, when nothing is configured.
pub open spec fn candidate_names() -> Seq<Seq<char>> {
    seq!["ghostty"@, "wezterm"@, "alacritty"@, "kitty"@, "gnome-terminal"@, "xterm"@]
}

/// The fixed candidate list as runtime values, for the caller to probe.
pub fn terminal_candidates() -> (r: Vec<&'static str>)
    ensures
        r@.len() == candidate_names().len(),
        forall|i: int| 0 <= i < r@.len() ==> r@[i]@ == candidate_names()[i],
{
    let mut v: Vec<&'static str> = Vec::new();
    v.push("ghostty");
    v.push("wezterm");
    v.push("alacritty");
    v.push("kitty");
    v.push("gnome-terminal");
    v.push("xterm");
    v
}

/// The index of the first set flag, or the length if none is set.
pub open spec fn first_true(flags: Seq<bool>) -> int
    decreases flags.len(),
{
    if flags.len() == 0 {
        0
    } else if flags[0] {
        0
    } else {
        1 + first_true(flags.skip(1))
    }
}

proof fn lemma_first_true_at(flags: Seq<bool>, q: int)
    requires
        0 <= q <= flags.len(),
        forall|p: int| 0 <= p < q ==> !flags[p],
        q < flags.len() ==> flags[q],
    ensures
        first_true(flags) == q,
    decreases q,
{
    if flags.len() > 0 && !flags[0] {
        let t = flags.skip(1);
        assert(forall|p: int| 0 <= p < q - 1 ==> t[p] == flags[p + 1]);
        lemma_first_true_at(t, q - 1);
    }
}

/// Whether an environment-supplied terminal name is usable: present and not
/// blank.
pub open spec fn usable_env_terminal(env: Option<String>) -> bool {
    env matches Some(e) && trim_spec(e@).len() > 0
}

/// Resolves the terminal executable: an explicit override wins, then a
/// non-blank environment value, then the first probed candidate; `None` if
/// nothing is found.
///
/// `on_path[i]` says whether [`terminal_candidates`]`()[i]` is on the search
/// path; the caller probes the file system.
pub fn resolve_terminal_executable(
    terminal_override: Option<String>,
    env_terminal: Option<String>,
    on_path: &Vec<bool>,
) -> (r: Option<String>)
    requires
        on_path@.len() == candidate_names().len(),
    ensures
        terminal_override is Some ==> r == terminal_override,
        terminal_override is None && usable_env_terminal(env_terminal) ==> r == env_terminal,
        terminal_override is None && !usable_env_terminal(env_terminal) ==> {
            let k = first_true(on_path@);
            &&& k < candidate_names().len() ==> (r matches Some(t) && t@ == candidate_names()[k])
            &&& k >= candidate_names().len() ==> r is None
        },
{
    if terminal_override.is_some() {
        return terminal_override;
    }

    let env_usable = match &env_terminal {
        Some(exe) => {
            let t = trim_str(exe.as_str());
            t.as_str().unicode_len() > 0
        },
        None => false,
    };
    if env_usable {
        return env_terminal;
    }

    let candidates = terminal_candidates();
    let n = candidates.len();
    let mut i: usize = 0;
    while i < n
        invariant
            terminal_override is None,
            !usable_env_terminal(env_terminal),
            0 <= i <= n,
            n == on_path@.len(),
            n == candidates@.len(),
            n == candidate_names().len(),
            forall|j: int| 0 <= j < candidates@.len() ==> candidates@[j]@ == candidate_names()[j],
            forall|j: int| 0 <= j < i ==> !on_path@[j],
        decreases n - i,
    {
        if on_path[i] {
            proof {
                lemma_first_true_at(on_path@, i as int);
            }
            return Some(candidates[i].to_owned());
        }
        i += 1;
    }
    proof {
        lemma_first_true_at(on_path@, n as int);
    }
    None
}

/// The observable state of the bridge.
#[verifier::ext_equal]
pub struct BridgeModel {
    /// The immutable four-digit pairing PIN.
    pub pin: Seq<char>,
    /// The loopback port the listener is bound to.
    pub port: u16,
    /// The resolved terminal executable name.
    pub terminal: Seq<char>,
    /// Whether an authenticated peer is currently connected.
    pub connected: bool,
    /// Wire writes queued for the peer, not yet carried out.
    pub outbox: Seq<Seq<char>>,
}

/// One loopback listener and at most one authenticated peer connection.
pub struct ExternalBridge {
    pin: String,
    port: u16,
    terminal: String,
    connected: bool,
    outbox: Vec<String>,
}

impl View for ExternalBridge {
    type V = BridgeModel;

    closed spec fn view(&self) -> BridgeModel {
        BridgeModel {
            pin: self.pin@,
            port: self.port,
            terminal: self.terminal@,
            connected: self.connected,
            outbox: self.outbox.deep_view(),
        }
    }
}

/// What one accept attempt does to the bridge and the diagnostics queue.
pub open spec fn spec_poll_accept(b: BridgeModel, event: AcceptEvent, notices: Seq<Seq<char>>) -> (
    BridgeModel,
    Seq<Seq<char>>,
) {
    if b.connected {
        (b, notices)
    } else {
        match event {
            AcceptEvent::Idle => (b, notices),
            AcceptEvent::Incoming { handshake, peer } => {
                if (handshake matches Some(line) && handshake_matches(b.pin, line@)) {
                    (
                        BridgeModel { connected: true, ..b },
                        notices.push("external terminal connected from "@ + peer@),
                    )
                } else {
                    (b, notices.push("external terminal connection rejected (pin mismatch)"@))
                }
            },
        }
    }
}

/// The command line shown to the user for pairing a second terminal.
pub open spec fn connect_command_text(pin: Seq<char>, port: u16, terminal: Seq<char>) -> Seq<
    char,
> {
    "cargo run -- --shell-connect "@ + pin + " --port "@ + dec_chars(port as nat)
        + "  # open in "@ + terminal
}

impl ExternalBridge {
    /// A fresh bridge: listening, unpaired, with the PIN derived from `seed`.
    ///
    /// The caller has already bound the loopback listener (giving `port`)
    /// and resolved `terminal`; `seed` feeds the PIN derivation.
    pub fn new(terminal: String, port: u16, seed: u64) -> (b: Self)
        ensures
            b@.pin == pin_chars(seed as nat),
            b@.port == port,
            b@.terminal == terminal@,
            !b@.connected,
            b@.outbox.len() == 0,
    {
        let b = ExternalBridge {
            pin: generate_pin(seed),
            port,
            terminal,
            connected: false,
            outbox: Vec::new(),
        };
        proof {
            assert(b.outbox.deep_view() =~= Seq::<Seq<char>>::empty());
        }
        b
    }

    /// Whether an authenticated peer is connected.
    pub fn is_connected(&self) -> (r: bool)
        ensures
            r == self@.connected,
    {
        self.connected
    }

    /// The pairing PIN, for display only.
    pub fn pin(&self) -> (r: &String)
        ensures
            r@ == self@.pin,
    {
        &self.pin
    }

    /// The bound loopback port.
    pub fn port(&self) -> (r: u16)
        ensures
            r == self@.port,
    {
        self.port
    }

    /// The command a user copies into a second terminal to pair it.
    pub fn connect_command(&self) -> (r: String)
        ensures
            r@ == connect_command_text(self@.pin, self@.port, self@.terminal),
    {
        let mut r = "cargo run -- --shell-connect ".to_owned();
        r.append(self.pin.as_str());
        r.append(" --port ");
        let port_digits = crate::text::u64_dec(self.port as u64);
        r.append(port_digits.as_str());
        r.append("  # open in ");
        r.append(self.terminal.as_str());
        proof {
            assert(r@ =~= connect_command_text(self@.pin, self@.port, self@.terminal));
        }
        r
    }

    /// Handles the outcome of one non-blocking accept attempt.
    ///
    /// While a peer is connected, further connection attempts are ignored.
    /// Otherwise an arriving connection is kept exactly when its first line,
    /// trimmed, equals `PIN <pin>`; one diagnostic is queued either way, and
    /// a rejected or unreadable connection leaves the bridge unchanged.
    pub fn poll_accept(&mut self, event: AcceptEvent, output: &mut Vec<String>)
        ensures
            final(self)@ == spec_poll_accept(old(self)@, event, old(output).deep_view()).0,
            final(output).deep_view() == spec_poll_accept(
                old(self)@,
                event,
                old(output).deep_view(),
            ).1,
            old(self)@.connected ==> final(self)@ == old(self)@ && final(output)@ == old(output)@,
            !old(self)@.connected && event is Idle ==> final(self)@ == old(self)@
                && final(output)@ == old(output)@,
            !old(self)@.connected ==> (event matches AcceptEvent::Incoming { handshake, peer }
                ==> if (handshake matches Some(line) && handshake_matches(old(self)@.pin, line@)) {
                    &&& final(self)@ == (BridgeModel { connected: true, ..old(self)@ })
                    &&& final(output).deep_view() == old(output).deep_view().push(
                        "external terminal connected from "@ + peer@,
                    )
                } else {
                    &&& final(self)@ == old(self)@
                    &&& final(output).deep_view() == old(output).deep_view().push(
                        "external terminal connection rejected (pin mismatch)"@,
                    )
                }),
    {
        if self.connected {
            return ;
        }
        match event {
            AcceptEvent::Idle => {},
            AcceptEvent::Incoming { handshake, peer } => {
                let accepted = match &handshake {
                    Some(line) => {
                        let mut expected = "PIN ".to_owned();
                        expected.append(self.pin.as_str());
                        let trimmed = trim_str(line.as_str());
                        str_eq(trimmed.as_str(), expected.as_str())
                    },
                    None => false,
                };
                if accepted {
                    self.connected = true;
                    let mut notice = "external terminal connected from ".to_owned();
                    notice.append(peer.as_str());
                    let ghost pre = *output;
                    let ghost notice_snap = notice;
                    output.push(notice);
                    proof {
                        crate::text::lemma_deep_view_push(pre, *output, notice_snap);
                    }
                } else {
                    let notice = "external terminal connection rejected (pin mismatch)".to_owned();
                    let ghost pre = *output;
                    let ghost notice_snap = notice;
                    output.push(notice);
                    proof {
                        crate::text::lemma_deep_view_push(pre, *output, notice_snap);
                    }
                }
            },
        }
    }

    /// Queues one command line, newline appended, for the connected peer.
    ///
    /// With no peer connected this fails and changes nothing.
    pub fn send_line(&mut self, line: &str) -> (r: Result<(), ShellError>)
        ensures
            !old(self)@.connected ==> r == Err::<(), ShellError>(ShellError::NotConnected)
                && final(self)@ == old(self)@,
            old(self)@.connected ==> r == Ok::<(), ShellError>(()) && final(self)@ == (BridgeModel {
                outbox: old(self)@.outbox.push(wire_line(line@)),
                ..old(self)@
            }),
    {
        if !self.connected {
            return Err(ShellError::NotConnected);
        }
        let mut w = line.to_owned();
        push_char(&mut w, '\n');
        let ghost pre = self.outbox;
        let ghost w_snap = w;
        self.outbox.push(w);
        proof {
            crate::text::lemma_deep_view_push(pre, self.outbox, w_snap);
        }
        Ok(())
    }

    /// Hands out the queued wire writes, leaving the queue empty.
    pub fn take_outgoing(&mut self) -> (r: Vec<String>)
        ensures
            r.deep_view() == old(self)@.outbox,
            final(self)@ == (BridgeModel { outbox: Seq::empty(), ..old(self)@ }),
    {
        let mut r: Vec<String> = Vec::new();
        core::mem::swap(&mut r, &mut self.outbox);
        proof {
            assert(self.outbox.deep_view() =~= Seq::<Seq<char>>::empty());
        }
        r
    }

    /// Records that a write to the peer failed: the stream is dropped, its
    /// undelivered writes with it, and the bridge listens again.
    pub fn on_write_failure(&mut self)
        ensures
            final(self)@ == (BridgeModel { connected: false, outbox: Seq::empty(), ..old(self)@ }),
    {
        self.connected = false;
        self.outbox = Vec::new();
        proof {
            assert(self.outbox.deep_view() =~= Seq::<Seq<char>>::empty());
        }
    }
}

/// The handshake line the connector sends, newline included.
pub fn connector_hello(pin: &str) -> (r: String)
    ensures
        r@ == "PIN "@ + pin@ + "\n"@,
{
    let mut r = "PIN ".to_owned();
    r.append(pin);
    r.append("\n");
    proof {
        assert(r@ =~= "PIN "@ + pin@ + "\n"@);
    }
    r
}

/// The banner the connector prints once connected.
pub fn connector_banner(port: u16) -> (r: String)
    ensures
        r@ == "Connected to CKA Buddy shell bridge on 127.0.0.1:"@ + dec_chars(port as nat)
            + ". Ctrl+C to exit."@,
{
    let mut r = "Connected to CKA Buddy shell bridge on 127.0.0.1:".to_owned();
    let digits = crate::text::u64_dec(port as u64);
    r.append(digits.as_str());
    r.append(". Ctrl+C to exit.");
    proof {
        assert(r@ =~= "Connected to CKA Buddy shell bridge on 127.0.0.1:"@ + dec_chars(
            port as nat,
        ) + ". Ctrl+C to exit."@);
    }
    r
}

/// The command to run from a received line: trimmed, and only if non-empty.
pub fn connector_command(line: &str) -> (r: Option<String>)
    ensures
        trim_spec(line@).len() == 0 ==> r is None,
        trim_spec(line@).len() > 0 ==> (r matches Some(c) && c@ == trim_spec(line@)),
{
    let trimmed = trim_str(line);
    if trimmed.as_str().unicode_len() == 0 {
        None
    } else {
        Some(trimmed)
    }
}

/// What the connector echoes before running a command.
pub fn connector_echo(command: &str) -> (r: String)
    ensures
        r@ == "\n$ "@ + command@,
{
    let mut r = "\n$ ".to_owned();
    r.append(command);
    r
}

/// What the connector prints after a command finished; a command killed
/// without an exit code reports -1.
pub fn connector_exit_line(code: Option<i32>) -> (r: String)
    ensures
        r@ == "[exit: "@ + int_chars(
            match code {
                Some(c) => c as int,
                None => -1,
            },
        ) + "]"@,
{
    let c: i32 = match code {
        Some(c) => c,
        None => -1,
    };
    let mut r = "[exit: ".to_owned();
    let digits = crate::text::i64_dec(c as i64);
    r.append(digits.as_str());
    r.append("]");
    proof {
        assert(r@ =~= "[exit: "@ + int_chars(c as int) + "]"@);
    }
    r
}

/// The shell the connector runs commands with: the environment's, unless
/// blank, else `/bin/zsh`.
pub fn default_shell(env_shell: Option<String>) -> (r: String)
    ensures
        usable_env_terminal(env_shell) ==> Some(r) == env_shell,
        !usable_env_terminal(env_shell) ==> r@ == "/bin/zsh"@,
{
    let usable = match &env_shell {
        Some(s) => {
            let t = trim_str(s.as_str());
            t.as_str().unicode_len() > 0
        },
        None => false,
    };
    if usable {
        match env_shell {
            Some(s) => s,
            None => "/bin/zsh".to_owned(),
        }
    } else {
        "/bin/zsh".to_owned()
    }
}

} // verus!
