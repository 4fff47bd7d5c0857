//! Command-line argument handling for the host application.

use vstd::prelude::*;
use vstd::string::{StrSliceExecFns, StringExecFns};

use crate::shell_mode::ShellMode;
use crate::text::{
    is_u16_text, lower_seq, parse_u16, starts_with_str, str_eq, trim_spec, u16_text_value,
};

verus! {

/// An argument the application refuses, with the faulty value where one was
/// given.
#[derive(Debug, Clone)]
pub enum ArgError {
    /// `--shell-connect` came last, with no PIN after it.
    MissingConnectValue,
    /// `--port` came last, with no port after it.
    MissingPortValue,
    /// The value after `--port` is not a port number.
    InvalidPortValue(String),
    /// `--shell-connect` was given without `--port`.
    ConnectWithoutPort,
    /// `--port` was given without `--shell-connect`.
    PortWithoutConnect,
    /// `--shell` came last, with no mode after it.
    MissingShellValue,
    /// The value after `--shell` names no mode.
    InvalidShellValue(String),
}

/// The message shown for each refused argument.
pub open spec fn arg_error_text(e: ArgError) -> Seq<char> {
    match e {
        ArgError::MissingConnectValue => "missing value for --shell-connect (expected 4-digit pin)"@,
        ArgError::MissingPortValue => "missing value for --port"@,
        ArgError::InvalidPortValue(v) => "invalid --port value '"@ + v@ + "'"@,
        ArgError::ConnectWithoutPort => "--shell-connect requires --port"@,
        ArgError::PortWithoutConnect => "--port provided without --shell-connect"@,
        ArgError::MissingShellValue => "missing value for --shell (expected embedded|external)"@,
        ArgError::InvalidShellValue(v) => "invalid --shell value '"@ + v@
            + "'; expected embedded|external"@,
    }
}

impl ArgError {
    /// The human-readable description of the error.
    pub fn message(&self) -> (r: String)
        ensures
            r@ == arg_error_text(*self),
    {
        match self {
            ArgError::MissingConnectValue => "missing value for --shell-connect (expected 4-digit pin)"
                .to_owned(),
            ArgError::MissingPortValue => "missing value for --port".to_owned(),
            ArgError::InvalidPortValue(v) => {
                let mut r = "invalid --port value '".to_owned();
                r.append(v.as_str());
                r.append("'");
                proof {
                    assert(r@ =~= arg_error_text(*self));
                }
                r
            },
            ArgError::ConnectWithoutPort => "--shell-connect requires --port".to_owned(),
            ArgError::PortWithoutConnect => "--port provided without --shell-connect".to_owned(),
            ArgError::MissingShellValue => "missing value for --shell (expected embedded|external)"
                .to_owned(),
            ArgError::InvalidShellValue(v) => {
                let mut r = "invalid --shell value '".to_owned();
                r.append(v.as_str());
                r.append("'; expected embedded|external");
                proof {
                    assert(r@ =~= arg_error_text(*self));
                }
                r
            },
        }
    }
}

/// The scan for `--shell-connect` and `--port`: each flag takes the next
/// argument as its value, the last occurrence wins, errors as message text.
pub open spec fn spec_connect_scan(
    args: Seq<Seq<char>>,
    i: int,
    pin: Option<Seq<char>>,
    port: Option<u16>,
) -> Result<(Option<Seq<char>>, Option<u16>), Seq<char>>
    decreases args.len() - i,
{
    if i < 0 || i >= args.len() {
        Ok((pin, port))
    } else if args[i] == "--shell-connect"@ {
        if i + 1 < args.len() {
            spec_connect_scan(args, i + 2, Some(args[i + 1]), port)
        } else {
            Err("missing value for --shell-connect (expected 4-digit pin)"@)
        }
    } else if args[i] == "--port"@ {
        if i + 1 < args.len() {
            if is_u16_text(args[i + 1]) {
                spec_connect_scan(args, i + 2, pin, Some(u16_text_value(args[i + 1])))
            } else {
                Err("invalid --port value '"@ + args[i + 1] + "'"@)
            }
        } else {
            Err("missing value for --port"@)
        }
    } else {
        spec_connect_scan(args, i + 1, pin, port)
    }
}

/// What the connector-launch arguments mean: a PIN and a port, both or
/// neither, or a refusal.
pub open spec fn spec_connect_args(args: Seq<Seq<char>>) -> Result<
    Option<(Seq<char>, u16)>,
    Seq<char>,
> {
    match spec_connect_scan(args, 0, None, None) {
        Ok((Some(pin), Some(port))) => Ok(Some((pin, port))),
        Ok((Some(pin), None)) => Err("--shell-connect requires --port"@),
        Ok((None, Some(port))) => Err("--port provided without --shell-connect"@),
        Ok((None, None)) => Ok(None),
        Err(e) => Err(e),
    }
}

/// Extracts `--shell-connect <pin> --port <port>` from the arguments.
///
/// Both flags present gives the pair, neither gives `None`; anything else —
/// one flag alone, a flag without a value, a malformed port — is refused.
pub fn parse_shell_connect_args(args: &Vec<String>) -> (r: Result<Option<(String, u16)>, ArgError>)
    ensures
        ({
            let s = spec_connect_args(args.deep_view());
            match r {
                Ok(Some((pin, port))) => s == Ok::<Option<(Seq<char>, u16)>, Seq<char>>(
                    Some((pin@, port)),
                ),
                Ok(None) => s == Ok::<Option<(Seq<char>, u16)>, Seq<char>>(None),
                Err(e) => s == Err::<Option<(Seq<char>, u16)>, Seq<char>>(arg_error_text(e)),
            }
        }),
{
    let ghost va = args.deep_view();
    let mut pin: Option<String> = None;
    let mut port: Option<u16> = None;
    let n = args.len();
    let mut idx: usize = 0;
    while idx < n
        invariant
            0 <= idx <= n,
            n == args@.len(),
            va == args.deep_view(),
            va.len() == n,
            forall|j: int| 0 <= j < va.len() ==> va[j] == args@[j]@,
            spec_connect_scan(va, 0, None, None) == spec_connect_scan(
                va,
                idx as int,
                match pin {
                    Some(p) => Some(p@),
                    None => None,
                },
                port,
            ),
        decreases n - idx,
    {
        if str_eq(args[idx].as_str(), "--shell-connect") {
            if idx + 1 < n {
                pin = Some(args[idx + 1].clone());
                idx += 2;
            } else {
                return Err(ArgError::MissingConnectValue);
            }
        } else if str_eq(args[idx].as_str(), "--port") {
            if idx + 1 < n {
                match parse_u16(args[idx + 1].as_str()) {
                    Some(p) => {
                        port = Some(p);
                        idx += 2;
                    },
                    None => {
                        return Err(ArgError::InvalidPortValue(args[idx + 1].clone()));
                    },
                }
            } else {
                return Err(ArgError::MissingPortValue);
            }
        } else {
            idx += 1;
        }
    }
    match (pin, port) {
        (Some(pin), Some(port)) => Ok(Some((pin, port))),
        (None, None) => Ok(None),
        (Some(_), None) => Err(ArgError::ConnectWithoutPort),
        (None, Some(_)) => Err(ArgError::PortWithoutConnect),
    }
}

/// The scan for `--shell <mode>`: the first occurrence decides, External is
/// the default, errors as message text.
pub open spec fn spec_shell_mode_scan(args: Seq<Seq<char>>, i: int) -> Result<
    ShellMode,
    Seq<char>,
>
    decreases args.len() - i,
{
    if i < 0 || i >= args.len() {
        Ok(ShellMode::External)
    } else if args[i] == "--shell"@ {
        if i + 1 < args.len() {
            let v = lower_seq(trim_spec(args[i + 1]));
            if v == "embedded"@ {
                Ok(ShellMode::Embedded)
            } else if v == "external"@ {
                Ok(ShellMode::External)
            } else {
                Err("invalid --shell value '"@ + args[i + 1] + "'; expected embedded|external"@)
            }
        } else {
            Err("missing value for --shell (expected embedded|external)"@)
        }
    } else {
        spec_shell_mode_scan(args, i + 1)
    }
}

/// Reads the initial shell mode from `--shell <mode>`; External by default.
pub fn parse_shell_mode(args: &Vec<String>) -> (r: Result<ShellMode, ArgError>)
    ensures
        ({
            let s = spec_shell_mode_scan(args.deep_view(), 0);
            match r {
                Ok(mode) => s == Ok::<ShellMode, Seq<char>>(mode),
                Err(e) => s == Err::<ShellMode, Seq<char>>(arg_error_text(e)),
            }
        }),
{
    let ghost va = args.deep_view();
    let n = args.len();
    let mut idx: usize = 0;
    while idx < n
        invariant
            0 <= idx <= n,
            n == args@.len(),
            va == args.deep_view(),
            va.len() == n,
            forall|j: int| 0 <= j < va.len() ==> va[j] == args@[j]@,
            spec_shell_mode_scan(va, 0) == spec_shell_mode_scan(va, idx as int),
        decreases n - idx,
    {
        if str_eq(args[idx].as_str(), "--shell") {
            if idx + 1 < n {
                match ShellMode::parse(args[idx + 1].as_str()) {
                    Some(mode) => {
                        return Ok(mode);
                    },
                    None => {
                        return Err(ArgError::InvalidShellValue(args[idx + 1].clone()));
                    },
                }
            }
            return Err(ArgError::MissingShellValue);
        }
        idx += 1;
    }
    Ok(ShellMode::External)
}

/// The scan for `--terminal <name>`: the first occurrence decides, even when
/// it has no value; otherwise the first free-standing argument.
pub open spec fn spec_terminal_override(args: Seq<Seq<char>>, i: int) -> Option<Seq<char>>
    decreases args.len() - i,
{
    if i < 0 || i >= args.len() {
        spec_positional_terminal(args, 0, false)
    } else if args[i] == "--terminal"@ {
        if i + 1 < args.len() {
            Some(args[i + 1])
        } else {
            None
        }
    } else {
        spec_terminal_override(args, i + 1)
    }
}

/// The fallback scan: the first argument that is no flag, no flag's value
/// and does not start with a dash.
pub open spec fn spec_positional_terminal(args: Seq<Seq<char>>, i: int, skip: bool) -> Option<
    Seq<char>,
>
    decreases args.len() - i,
{
    if i < 0 || i >= args.len() {
        None
    } else if skip {
        spec_positional_terminal(args, i + 1, false)
    } else if args[i] == "--shell"@ || args[i] == "--terminal"@ || args[i] == "--shell-connect"@
        || args[i] == "--port"@ {
        spec_positional_terminal(args, i + 1, true)
    } else if args[i].len() > 0 && args[i][0] == '-' {
        spec_positional_terminal(args, i + 1, false)
    } else {
        Some(args[i])
    }
}

/// Reads the terminal-executable override: `--terminal <name>`, or the first
/// free-standing argument.
pub fn parse_terminal_override(args: &Vec<String>) -> (r: Option<String>)
    ensures
        ({
            let s = spec_terminal_override(args.deep_view(), 0);
            match r {
                Some(t) => s == Some(t@),
                None => s is None,
            }
        }),
{
    let ghost va = args.deep_view();
    let n = args.len();
    let mut idx: usize = 0;
    while idx < n
        invariant
            0 <= idx <= n,
            n == args@.len(),
            va == args.deep_view(),
            va.len() == n,
            forall|j: int| 0 <= j < va.len() ==> va[j] == args@[j]@,
            spec_terminal_override(va, 0) == spec_terminal_override(va, idx as int),
        decreases n - idx,
    {
        if str_eq(args[idx].as_str(), "--terminal") {
            if idx + 1 < n {
                return Some(args[idx + 1].clone());
            }
            return None;
        }
        idx += 1;
    }
    parse_positional_terminal(args)
}

/// Reads a bare terminal name given without the `--terminal` flag.
pub fn parse_positional_terminal(args: &Vec<String>) -> (r: Option<String>)
    ensures
        ({
            let s = spec_positional_terminal(args.deep_view(), 0, false);
            match r {
                Some(t) => s == Some(t@),
                None => s is None,
            }
        }),
{
    let ghost va = args.deep_view();
    let n = args.len();
    let mut skip_next = false;
    let mut idx: usize = 0;
    while idx < n
        invariant
            0 <= idx <= n,
            n == args@.len(),
            va == args.deep_view(),
            va.len() == n,
            forall|j: int| 0 <= j < va.len() ==> va[j] == args@[j]@,
            spec_positional_terminal(va, 0, false) == spec_positional_terminal(
                va,
                idx as int,
                skip_next,
            ),
        decreases n - idx,
    {
        if skip_next {
            skip_next = false;
        } else if str_eq(args[idx].as_str(), "--shell") || str_eq(args[idx].as_str(), "--terminal")
            || str_eq(args[idx].as_str(), "--shell-connect") || str_eq(
            args[idx].as_str(),
            "--port",
        ) {
            skip_next = true;
        } else if starts_with_str(args[idx].as_str(), "-") {
            proof {
                reveal_strlit("-");
                let s = va[idx as int];
                assert("-"@.len() == 1);
                assert(s.subrange(0, 1) == "-"@);
                assert(s.subrange(0, 1)[0] == s[0]);
                assert(s[0] == '-');
            }
        } else {
            proof {
                reveal_strlit("-");
                let s = va[idx as int];
                if s.len() > 0 && s[0] == '-' {
                    assert(s.subrange(0, 1) =~= "-"@);
                }
            }
            return Some(args[idx].clone());
        }
        idx += 1;
    }
    None
}

/// Keeps only the newest `max` lines of the output log.
pub fn trim_output(output_log: &mut Vec<String>, max: usize)
    ensures
        old(output_log)@.len() <= max ==> final(output_log)@ == old(output_log)@,
        old(output_log)@.len() > max ==> final(output_log)@ == old(output_log)@.skip(
            old(output_log)@.len() - max as int,
        ),
{
    if output_log.len() > max {
        let drop = output_log.len() - max;
        let tail = output_log.split_off(drop);
        *output_log = tail;
    }
}

} // verus!
