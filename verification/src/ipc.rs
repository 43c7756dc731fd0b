//! The control plane: how a command travels from a client to the daemon, how
//! the daemon's listening endpoint comes to be, and what can go wrong.
//!
//! A command travels as one CBOR text string that holds the command's name.
//! The CBOR reading and writing is `serde_cbor`'s; which text means which
//! command, and what a payload that is no command leads to, is decided here.

use crate::cmd::{lemma_name_round_trip, lemma_names_are_short_ascii, Cmd};
use vstd::prelude::*;
use vstd::string::StringExecFns;
use vstd::string::StringSliceAdditionalSpecFns;
use vstd::utf8::{decode_utf8, encode_utf8, valid_utf8};
use vstd::utf8::{encode_utf8_decode_utf8, encode_utf8_valid_utf8, is_ascii_chars_encode_utf8};

verus! {

/// How long the daemon waits for a connected client to send its command.
pub const ACCEPT_TIMEOUT_MILLIS: u64 = 100;

/// What went wrong on the control plane. Each kind carries the text of its
/// cause.
#[derive(Debug, PartialEq, Eq)]
pub enum Error {
    /// No daemon could be reached.
    Connect { source: String },
    /// Reading from or listening on the socket failed.
    Io { source: String },
    /// Another daemon holds the instance lock.
    AlreadyRunning { source: String },
    /// The directory of the socket could not be created.
    Mkdir { source: String },
    /// A command could not be written to or read from its payload.
    Cbor { source: String },
}

impl Error {
    /// The text of the cause.
    pub open spec fn cause(self) -> Seq<char> {
        match self {
            Error::Connect { source } => source@,
            Error::Io { source } => source@,
            Error::AlreadyRunning { source } => source@,
            Error::Mkdir { source } => source@,
            Error::Cbor { source } => source@,
        }
    }

    /// What the kind of error says before it names the cause.
    pub open spec fn preamble(self) -> Seq<char> {
        match self {
            Error::Connect { .. } => "Can't connect to server: "@,
            Error::Io { .. } => "IO error while doing ipc: "@,
            Error::AlreadyRunning { .. } => "transparentd already running "@,
            Error::Mkdir { .. } => "Can't create socket dir: "@,
            Error::Cbor { .. } => "Failed to serialize/deserialize cbor: "@,
        }
    }

    /// The message shown to the user.
    pub open spec fn text(self) -> Seq<char> {
        self.preamble() + self.cause()
    }

    /// The message shown to the user: what kind of error it is, then its
    /// cause.
    pub fn message(&self) -> (r: String)
        ensures
            r@ == self.text(),
    {
        match self {
            Error::Connect { source } => String::from_str("Can't connect to server: ").concat(
                source.as_str(),
            ),
            Error::Io { source } => String::from_str("IO error while doing ipc: ").concat(
                source.as_str(),
            ),
            Error::AlreadyRunning { source } => String::from_str(
                "transparentd already running ",
            ).concat(source.as_str()),
            Error::Mkdir { source } => String::from_str("Can't create socket dir: ").concat(
                source.as_str(),
            ),
            Error::Cbor { source } => String::from_str(
                "Failed to serialize/deserialize cbor: ",
            ).concat(source.as_str()),
        }
    }
}

/// The bytes of a text made of ASCII characters only.
pub open spec fn ascii_bytes(text: Seq<char>) -> Seq<u8> {
    Seq::new(text.len(), |i: int| text[i] as u8)
}

/// The payload of a command: the head byte of a CBOR text string, which
/// holds the length of the name, and then the name.
pub open spec fn wire_bytes(cmd: Cmd) -> Seq<u8> {
    seq![(0x60 + cmd.spec_name().len()) as u8] + ascii_bytes(cmd.spec_name())
}

/// The payload begins with the head byte of a CBOR text string of fewer than
/// 24 bytes.
pub open spec fn short_text_head(bytes: Seq<u8>) -> bool {
    bytes.len() > 0 && 0x60 <= bytes[0] <= 0x77
}

/// A payload with such a head byte is a well-formed text string when exactly
/// as many bytes follow as the head byte says, and they are UTF-8.
pub open spec fn short_text_well_formed(bytes: Seq<u8>) -> bool {
    short_text_head(bytes) && bytes.len() == 1 + (bytes[0] - 0x60) && valid_utf8(bytes.skip(1))
}

/// What `serde_cbor::from_slice` reads out of a payload when asked for a
/// `String`: the text, or `None` where it reports an error.
pub uninterp spec fn cbor_text(bytes: Seq<u8>) -> Option<Seq<char>>;

/// Calls `serde_cbor::from_slice` for a `String`, and hands back its error
/// as text. Whether it succeeds and the text it reads are a function of the
/// payload, named `cbor_text`. Of that function the contract claims: an
/// empty payload is an error; and a payload whose first byte is the head of
/// a text string of fewer than 24 bytes is read as that text when exactly
/// that many bytes of UTF-8 follow, and is an error otherwise.
#[verifier::external_body]
fn cbor_to_text(bytes: &[u8]) -> (r: Result<String, String>)
    ensures
        r is Ok ==> cbor_text(bytes@) == Some(r->Ok_0@),
        r is Err ==> cbor_text(bytes@) is None,
        bytes@.len() == 0 ==> r is Err,
        short_text_head(bytes@) ==> (r is Ok <==> short_text_well_formed(bytes@)),
        short_text_well_formed(bytes@) ==> r is Ok && r->Ok_0@ == decode_utf8(bytes@.skip(1)),
{
    match serde_cbor::from_slice::<String>(bytes) {
        Ok(text) => Ok(text),
        Err(error) => Err(error.to_string()),
    }
}

/// Calls `serde_cbor::to_vec` on a text of fewer than 24 bytes, and hands
/// back its error as text. The contract claims that it succeeds, a vector
/// being a sink that takes every write, and that the result is one head
/// byte, `0x60` plus the number of bytes, and then the text's UTF-8 bytes.
#[verifier::external_body]
fn cbor_from_text(text: &str) -> (r: Result<Vec<u8>, String>)
    requires
        text.spec_bytes().len() <= 23,
    ensures
        r is Ok,
        r->Ok_0@ == seq![(0x60 + text.spec_bytes().len()) as u8] + text.spec_bytes(),
{
    match serde_cbor::to_vec(&text) {
        Ok(bytes) => Ok(bytes),
        Err(error) => Err(error.to_string()),
    }
}

/// What is said of a text that names no command.
pub open spec fn unknown_variant(text: Seq<char>) -> Seq<char> {
    "unknown variant `"@ + text
        + "`, expected one of `Disable`, `Enable`, `Toggle`, `FocusBlacklist`, `FocusBlacklistRemove`"@
}

/// The command that a text names. A text that names none is an error of the
/// payload.
pub fn cmd_from_text(text: &str) -> (r: Result<Cmd, Error>)
    ensures
        match Cmd::named(text@) {
            Some(cmd) => r == Ok::<Cmd, Error>(cmd),
            None => r matches Err(Error::Cbor { source }) && source@ == unknown_variant(text@),
        },
{
    match Cmd::from_name(text) {
        Some(cmd) => Ok(cmd),
        None => {
            let source = String::from_str("unknown variant `").concat(text).concat(
                "`, expected one of `Disable`, `Enable`, `Toggle`, `FocusBlacklist`, `FocusBlacklistRemove`",
            );
            Err(Error::Cbor { source })
        },
    }
}

/// The payload of a command is a well-formed short text string that holds
/// the command's name.
pub proof fn lemma_wire_bytes_hold_name(cmd: Cmd)
    ensures
        short_text_well_formed(wire_bytes(cmd)),
        wire_bytes(cmd).len() == 1 + cmd.spec_name().len(),
        wire_bytes(cmd).skip(1) == encode_utf8(cmd.spec_name()),
        decode_utf8(wire_bytes(cmd).skip(1)) == cmd.spec_name(),
{
    let name = cmd.spec_name();
    lemma_names_are_short_ascii(cmd);
    is_ascii_chars_encode_utf8(name);
    encode_utf8_valid_utf8(name);
    encode_utf8_decode_utf8(name);
    assert(wire_bytes(cmd).skip(1) =~= ascii_bytes(name));
    assert(ascii_bytes(name) =~= encode_utf8(name));
}

/// What a client writes for a command names that command and no other:
/// read as a text string, the payload holds a name, and the name leads back
/// to the command.
pub proof fn lemma_payload_names_its_command(cmd: Cmd)
    ensures
        short_text_well_formed(wire_bytes(cmd)),
        Cmd::named(decode_utf8(wire_bytes(cmd).skip(1))) == Some(cmd),
{
    lemma_wire_bytes_hold_name(cmd);
    lemma_name_round_trip(cmd);
}

/// Two commands never share a payload.
pub proof fn lemma_payloads_differ(a: Cmd, b: Cmd)
    requires
        wire_bytes(a) == wire_bytes(b),
    ensures
        a == b,
{
    lemma_payload_names_its_command(a);
    lemma_payload_names_its_command(b);
}

/// The payload that carries a command to the daemon.
pub fn encode_cmd(cmd: Cmd) -> (r: Result<Vec<u8>, Error>)
    ensures
        r matches Ok(bytes) && bytes@ == wire_bytes(cmd),
{
    let name = cmd.name();
    proof {
        lemma_wire_bytes_hold_name(cmd);
    }
    match cbor_from_text(name) {
        Ok(bytes) => Ok(bytes),
        Err(source) => Err(Error::Cbor { source }),
    }
}

/// What a client writes to the socket once its attempt to connect has ended.
/// `connection` is how the attempt went, a failure being given as its text.
/// A daemon that could not be reached is reported as such, apart from
/// anything that goes wrong with the payload.
pub fn send_cmd(cmd: Cmd, connection: Result<(), String>) -> (r: Result<Vec<u8>, Error>)
    ensures
        match connection {
            Err(source) => r == Err::<Vec<u8>, Error>(Error::Connect { source }),
            Ok(()) => r matches Ok(bytes) && bytes@ == wire_bytes(cmd),
        },
{
    match connection {
        Err(source) => Err(Error::Connect { source }),
        Ok(()) => encode_cmd(cmd),
    }
}

/// Reads the command out of a payload.
///
/// The payload is read as CBOR text and the text as a command name. What a
/// client encodes is read back as the same command. An empty payload, a
/// payload cut short, and a text that names no command are errors of the
/// payload, which the caller can report and leave behind.
pub fn decode_cmd(bytes: &[u8]) -> (r: Result<Cmd, Error>)
    ensures
        match cbor_text(bytes@) {
            Some(text) => match Cmd::named(text) {
                Some(cmd) => r == Ok::<Cmd, Error>(cmd),
                None => r matches Err(Error::Cbor { source }) && source@ == unknown_variant(text),
            },
            None => r matches Err(Error::Cbor { .. }),
        },
        forall|cmd: Cmd| bytes@ == wire_bytes(cmd) ==> r == Ok::<Cmd, Error>(cmd),
        forall|cmd: Cmd, n: int|
            0 <= n < wire_bytes(cmd).len() && bytes@ == #[trigger] wire_bytes(cmd).take(n) ==> r
                matches Err(Error::Cbor { .. }),
{
    let parsed = cbor_to_text(bytes);
    proof {
        assert forall|cmd: Cmd| bytes@ == wire_bytes(cmd) implies cbor_text(bytes@) == Some(
            cmd.spec_name(),
        ) by {
            lemma_wire_bytes_hold_name(cmd);
        }
    }
    match parsed {
        Ok(text) => cmd_from_text(text.as_str()),
        Err(source) => Err(Error::Cbor { source }),
    }
}

/// The name of the socket file inside the runtime directory.
pub fn socket_file_name() -> (r: &'static str)
    ensures
        r@ == "ipc.sock"@,
{
    "ipc.sock"
}

/// The name of the lock file inside the runtime directory.
pub fn lock_file_name() -> (r: &'static str)
    ensures
        r@ == ".lockfile"@,
{
    ".lockfile"
}

/// One step on the way to a listening endpoint.
#[derive(Clone, Copy, Debug, PartialEq, Eq, Structural)]
pub enum SetupStep {
    /// Create the directory of the socket, with its parents.
    CreateDirectory,
    /// Take the instance lock, without waiting for it.
    AcquireLock,
    /// Remove the socket file that an earlier daemon may have left.
    RemoveStaleSocket,
    /// Bind the socket and listen on it.
    Bind,
}

impl SetupStep {
    /// The step that follows, or `None` after the last.
    pub open spec fn following(self) -> Option<SetupStep> {
        match self {
            SetupStep::CreateDirectory => Some(SetupStep::AcquireLock),
            SetupStep::AcquireLock => Some(SetupStep::RemoveStaleSocket),
            SetupStep::RemoveStaleSocket => Some(SetupStep::Bind),
            SetupStep::Bind => None,
        }
    }

    /// Whether the failure of the step ends the setup. Only the removal of
    /// a stale socket may fail: there may be none to remove.
    pub open spec fn must_succeed(self) -> bool {
        self != SetupStep::RemoveStaleSocket
    }

    /// The error that the failure of the step is reported as.
    pub open spec fn failure(self, source: String) -> Error {
        match self {
            SetupStep::CreateDirectory => Error::Mkdir { source },
            SetupStep::AcquireLock => Error::AlreadyRunning { source },
            _ => Error::Io { source },
        }
    }
}

/// The daemon's end of the control socket, from its setup to its listening.
///
/// The caller performs each step that `pending` names and reports how it went
/// to `advance`; the server listens once no step is pending.
#[derive(Debug, PartialEq, Eq)]
pub struct IpcServer {
    timeout_millis: u64,
    pending: Option<SetupStep>,
}

/// What a listening server reads its connections with.
#[derive(Clone, Copy, Debug, PartialEq, Eq, Structural)]
pub struct Incoming {
    timeout_millis: u64,
}

impl IpcServer {
    /// The step to perform next, or `None` once the server listens.
    pub closed spec fn spec_pending(self) -> Option<SetupStep> {
        self.pending
    }

    /// The time allowed to each client, in milliseconds.
    pub closed spec fn spec_timeout_millis(self) -> u64 {
        self.timeout_millis
    }

    /// A server with its whole setup before it.
    pub fn new(timeout_millis: u64) -> (r: IpcServer)
        ensures
            r.spec_pending() == Some(SetupStep::CreateDirectory),
            r.spec_timeout_millis() == timeout_millis,
    {
        IpcServer { timeout_millis, pending: Some(SetupStep::CreateDirectory) }
    }

    /// The step to perform next, or `None` once the server listens.
    pub fn pending(&self) -> (r: Option<SetupStep>)
        ensures
            r == self.spec_pending(),
    {
        self.pending
    }

    /// Takes the outcome of the pending step, an error being given as its
    /// text. A failure that ends the setup is returned as the error of its
    /// step and leaves the step pending; anything else moves on to the step
    /// that follows. A listening server ignores the call.
    pub fn advance(&mut self, outcome: Result<(), String>) -> (r: Result<(), Error>)
        ensures
            final(self).spec_timeout_millis() == old(self).spec_timeout_millis(),
            match old(self).spec_pending() {
                Some(step) => match outcome {
                    Err(source) if step.must_succeed() => r == Err::<(), Error>(
                        step.failure(source),
                    ) && final(self).spec_pending() == Some(step),
                    _ => r is Ok && final(self).spec_pending() == step.following(),
                },
                None => r is Ok && final(self).spec_pending() is None,
            },
    {
        match self.pending {
            None => Ok(()),
            Some(SetupStep::CreateDirectory) => match outcome {
                Err(source) => Err(Error::Mkdir { source }),
                Ok(()) => {
                    self.pending = Some(SetupStep::AcquireLock);
                    Ok(())
                },
            },
            Some(SetupStep::AcquireLock) => match outcome {
                Err(source) => Err(Error::AlreadyRunning { source }),
                Ok(()) => {
                    self.pending = Some(SetupStep::RemoveStaleSocket);
                    Ok(())
                },
            },
            Some(SetupStep::RemoveStaleSocket) => {
                self.pending = Some(SetupStep::Bind);
                Ok(())
            },
            Some(SetupStep::Bind) => match outcome {
                Err(source) => Err(Error::Io { source }),
                Ok(()) => {
                    self.pending = None;
                    Ok(())
                },
            },
        }
    }

    /// What the server reads its connections with, once it listens.
    pub fn incoming(&self) -> (r: Option<Incoming>)
        ensures
            r is Some <==> self.spec_pending() is None,
            r matches Some(incoming) ==> incoming.spec_timeout_millis()
                == self.spec_timeout_millis(),
    {
        match self.pending {
            None => Some(Incoming { timeout_millis: self.timeout_millis }),
            Some(_) => None,
        }
    }
}

impl Incoming {
    /// The time allowed to each client, in milliseconds.
    pub closed spec fn spec_timeout_millis(self) -> u64 {
        self.timeout_millis
    }

    /// The time allowed to each client, in milliseconds.
    pub fn timeout_millis(&self) -> (r: u64)
        ensures
            r == self.spec_timeout_millis(),
    {
        self.timeout_millis
    }

    /// What one connection yields. `connection` is what was read from the
    /// client until it closed its end, or the text of the error that accepting
    /// it or reading from it met. Such an error is an error of the socket;
    /// what was read is decoded as `decode_cmd` does.
    pub fn accept(&self, connection: Result<Vec<u8>, String>) -> (r: Result<Cmd, Error>)
        ensures
            match connection {
                Err(source) => r == Err::<Cmd, Error>(Error::Io { source }),
                Ok(bytes) => match cbor_text(bytes@) {
                    Some(text) => match Cmd::named(text) {
                        Some(cmd) => r == Ok::<Cmd, Error>(cmd),
                        None => r matches Err(Error::Cbor { source }) && source@
                            == unknown_variant(text),
                    },
                    None => r matches Err(Error::Cbor { .. }),
                },
            },
            forall|cmd: Cmd|
                connection matches Ok(bytes) && bytes@ == wire_bytes(cmd) ==> r == Ok::<
                    Cmd,
                    Error,
                >(cmd),
    {
        match connection {
            Err(source) => Err(Error::Io { source }),
            Ok(bytes) => decode_cmd(bytes.as_slice()),
        }
    }
}

/// What the acceptor does with what a connection yielded.
#[derive(Debug, PartialEq, Eq)]
pub enum Delivery {
    /// Hand the command to the event loop.
    Forward(Cmd),
    /// Log the warning and go on with the next client.
    Warn(String),
}

/// What the acceptor warns of when a connection yields an error.
pub open spec fn warning(error: Error) -> Seq<char> {
    "Error while reading cmd: "@ + error.text()
}

/// A command goes to the event loop; an error is warned of and costs the
/// daemon nothing but that one connection.
pub fn deliver(received: Result<Cmd, Error>) -> (r: Delivery)
    ensures
        match received {
            Ok(cmd) => r == Delivery::Forward(cmd),
            Err(error) => r matches Delivery::Warn(text) && text@ == warning(error),
        },
{
    match received {
        Ok(cmd) => Delivery::Forward(cmd),
        Err(error) => {
            let message = error.message();
            Delivery::Warn(String::from_str("Error while reading cmd: ").concat(message.as_str()))
        },
    }
}

/// The steps of a setup all of whose outcomes so far were `outcomes`,
/// `true` standing for success: the step pending after them, or `None` for
/// a listening server, given that none of them ended the setup.
pub open spec fn pending_after(outcomes: Seq<bool>) -> Option<SetupStep>
    decreases outcomes.len(),
{
    if outcomes.len() == 0 {
        Some(SetupStep::CreateDirectory)
    } else {
        match pending_after(outcomes.drop_last()) {
            Some(step) => if !outcomes.last() && step.must_succeed() {
                Some(step)
            } else {
                step.following()
            },
            None => None,
        }
    }
}

/// A server listens only after the directory was made, the lock was taken
/// and the socket was bound, in that order, with the removal of a stale
/// socket between the last two.
pub proof fn lemma_listening_means_locked(outcomes: Seq<bool>)
    requires
        pending_after(outcomes) is None,
    ensures
        exists|d: int, l: int, u: int, b: int|
            0 <= d < l < u < b < outcomes.len() && outcomes[d] && outcomes[l] && outcomes[b]
                && pending_after(#[trigger] outcomes.take(d)) == Some(SetupStep::CreateDirectory)
                && pending_after(#[trigger] outcomes.take(l)) == Some(SetupStep::AcquireLock)
                && pending_after(#[trigger] outcomes.take(u)) == Some(
                SetupStep::RemoveStaleSocket,
            ) && pending_after(#[trigger] outcomes.take(b)) == Some(SetupStep::Bind),
{
    let b = lemma_first_reach(outcomes, None);
    let u = lemma_first_reach(outcomes.take(b), Some(SetupStep::Bind));
    assert(outcomes.take(b).take(u) =~= outcomes.take(u));
    let l = lemma_first_reach(outcomes.take(u), Some(SetupStep::RemoveStaleSocket));
    assert(outcomes.take(u).take(l) =~= outcomes.take(l));
    let d = lemma_first_reach(outcomes.take(l), Some(SetupStep::AcquireLock));
    assert(outcomes.take(l).take(d) =~= outcomes.take(d));
}

/// The step before `target` in the order of the setup.
pub open spec fn preceding(target: Option<SetupStep>) -> SetupStep {
    match target {
        None => SetupStep::Bind,
        Some(SetupStep::Bind) => SetupStep::RemoveStaleSocket,
        Some(SetupStep::RemoveStaleSocket) => SetupStep::AcquireLock,
        _ => SetupStep::CreateDirectory,
    }
}

/// A setup that stands at `target`, which is not its first step, got there
/// by an outcome of the step before; that outcome was a success wherever
/// the step had to succeed.
proof fn lemma_first_reach(outcomes: Seq<bool>, target: Option<SetupStep>) -> (i: int)
    requires
        pending_after(outcomes) == target,
        target != Some(SetupStep::CreateDirectory),
    ensures
        0 <= i < outcomes.len(),
        pending_after(outcomes.take(i)) == Some(preceding(target)),
        preceding(target).must_succeed() ==> outcomes[i],
    decreases outcomes.len(),
{
    let earlier = outcomes.drop_last();
    if pending_after(earlier) == target {
        let i = lemma_first_reach(earlier, target);
        assert(earlier.take(i) =~= outcomes.take(i));
        i
    } else {
        outcomes.len() - 1
    }
}

} // verus!
