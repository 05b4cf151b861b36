//! The single-slot command mailbox and the control-channel protocol.
//!
//! The control channel delivers fixed ASCII datagrams; four payloads are
//! recognized and each recognized payload is answered with a two-byte
//! acknowledgment. Three of them latch a pending command into a one-slot,
//! overwrite-latest cell that the scheduler drains once per tick; `PING`
//! only elicits the acknowledgment. Anything else is ignored silently.

use vstd::prelude::*;

use crate::bytes::bytes_eq;

verus! {

/// A pending remediation command, at most one of which is latched at a
/// time. `Idle` is the explicit empty slot.
#[derive(Clone, Copy, Debug, PartialEq, Eq, Structural)]
pub enum ServerCmd {
    Idle,
    RestartADB,
    KillADB,
    RestartSERVER,
}

impl ServerCmd {
    /// The slot encoding of this command.
    pub open spec fn as_code(self) -> u8 {
        match self {
            ServerCmd::Idle => 0,
            ServerCmd::RestartADB => 1,
            ServerCmd::KillADB => 2,
            ServerCmd::RestartSERVER => 3,
        }
    }

    /// The command a slot byte decodes to; an unknown byte reads as the
    /// empty slot.
    pub open spec fn from_code(code: u8) -> ServerCmd {
        if code == 1 {
            ServerCmd::RestartADB
        } else if code == 2 {
            ServerCmd::KillADB
        } else if code == 3 {
            ServerCmd::RestartSERVER
        } else {
            ServerCmd::Idle
        }
    }

    /// Latches this command into the mailbox slot, overwriting whatever
    /// was pending.
    pub fn store(&self, slot: &mut u8)
        ensures
            *final(slot) == self.as_code(),
    {
        *slot = match self {
            ServerCmd::Idle => 0,
            ServerCmd::RestartADB => 1,
            ServerCmd::KillADB => 2,
            ServerCmd::RestartSERVER => 3,
        };
    }

    /// Reads the command pending in the mailbox slot.
    pub fn load(slot: &u8) -> (c: ServerCmd)
        ensures
            c == ServerCmd::from_code(*slot),
    {
        match *slot {
            1 => ServerCmd::RestartADB,
            2 => ServerCmd::KillADB,
            3 => ServerCmd::RestartSERVER,
            _ => ServerCmd::Idle,
        }
    }
}

/// Decoding a slot byte undoes the encoding: a stored command is read back
/// unchanged.
pub proof fn lemma_code_round_trip(cmd: ServerCmd)
    ensures
        ServerCmd::from_code(cmd.as_code()) == cmd,
{
}

/// The bytes of the `RESTART_ADBD` payload.
pub open spec fn restart_adbd_signal() -> Seq<u8> {
    seq![82u8, 69u8, 83u8, 84u8, 65u8, 82u8, 84u8, 95u8, 65u8, 68u8, 66u8, 68u8]
}

/// The bytes of the `KILL_ADBD` payload.
pub open spec fn kill_adbd_signal() -> Seq<u8> {
    seq![75u8, 73u8, 76u8, 76u8, 95u8, 65u8, 68u8, 66u8, 68u8]
}

/// The bytes of the `RESTART_SERVER` payload.
pub open spec fn restart_server_signal() -> Seq<u8> {
    seq![82u8, 69u8, 83u8, 84u8, 65u8, 82u8, 84u8, 95u8, 83u8, 69u8, 82u8, 86u8, 69u8, 82u8]
}

/// The bytes of the `PING` payload.
pub open spec fn ping_signal() -> Seq<u8> {
    seq![80u8, 73u8, 78u8, 71u8]
}

/// The two-byte `OK` acknowledgment.
pub open spec fn ack_payload() -> Seq<u8> {
    seq![79u8, 75u8]
}

/// Builds the `RESTART_ADBD` payload bytes.
pub fn restart_adbd_bytes() -> (v: Vec<u8>)
    ensures
        v@ == restart_adbd_signal(),
{
    let mut v: Vec<u8> = Vec::new();
    v.push(82);
    v.push(69);
    v.push(83);
    v.push(84);
    v.push(65);
    v.push(82);
    v.push(84);
    v.push(95);
    v.push(65);
    v.push(68);
    v.push(66);
    v.push(68);
    proof {
        assert(v@ =~= restart_adbd_signal());
    }
    v
}

/// Builds the `KILL_ADBD` payload bytes.
pub fn kill_adbd_bytes() -> (v: Vec<u8>)
    ensures
        v@ == kill_adbd_signal(),
{
    let mut v: Vec<u8> = Vec::new();
    v.push(75);
    v.push(73);
    v.push(76);
    v.push(76);
    v.push(95);
    v.push(65);
    v.push(68);
    v.push(66);
    v.push(68);
    proof {
        assert(v@ =~= kill_adbd_signal());
    }
    v
}

/// Builds the `RESTART_SERVER` payload bytes.
pub fn restart_server_bytes() -> (v: Vec<u8>)
    ensures
        v@ == restart_server_signal(),
{
    let mut v: Vec<u8> = Vec::new();
    v.push(82);
    v.push(69);
    v.push(83);
    v.push(84);
    v.push(65);
    v.push(82);
    v.push(84);
    v.push(95);
    v.push(83);
    v.push(69);
    v.push(82);
    v.push(86);
    v.push(69);
    v.push(82);
    proof {
        assert(v@ =~= restart_server_signal());
    }
    v
}

/// Builds the `PING` payload bytes.
pub fn ping_bytes() -> (v: Vec<u8>)
    ensures
        v@ == ping_signal(),
{
    let mut v: Vec<u8> = Vec::new();
    v.push(80);
    v.push(73);
    v.push(78);
    v.push(71);
    proof {
        assert(v@ =~= ping_signal());
    }
    v
}

/// Builds the two-byte `OK` acknowledgment to echo back to a sender.
pub fn ack_bytes() -> (v: Vec<u8>)
    ensures
        v@ == ack_payload(),
{
    let mut v: Vec<u8> = Vec::new();
    v.push(79);
    v.push(75);
    proof {
        assert(v@ =~= ack_payload());
    }
    v
}

/// What a recognized control datagram asks for.
#[derive(Clone, Copy, Debug, PartialEq, Eq, Structural)]
pub enum Signal {
    RestartAdbd,
    KillAdbd,
    RestartServer,
    Ping,
}

/// The signal a datagram payload carries, if any. Only the four exact
/// payloads are recognized; every other payload is ignored.
pub open spec fn classify_signal_spec(p: Seq<u8>) -> Option<Signal> {
    if p == restart_adbd_signal() {
        Some(Signal::RestartAdbd)
    } else if p == kill_adbd_signal() {
        Some(Signal::KillAdbd)
    } else if p == restart_server_signal() {
        Some(Signal::RestartServer)
    } else if p == ping_signal() {
        Some(Signal::Ping)
    } else {
        None
    }
}

/// Classifies a control datagram; see [`classify_signal_spec`].
pub fn classify_signal(payload: &[u8]) -> (r: Option<Signal>)
    ensures
        r == classify_signal_spec(payload@),
{
    if bytes_eq(payload, restart_adbd_bytes().as_slice()) {
        Some(Signal::RestartAdbd)
    } else if bytes_eq(payload, kill_adbd_bytes().as_slice()) {
        Some(Signal::KillAdbd)
    } else if bytes_eq(payload, restart_server_bytes().as_slice()) {
        Some(Signal::RestartServer)
    } else if bytes_eq(payload, ping_bytes().as_slice()) {
        Some(Signal::Ping)
    } else {
        None
    }
}

} // verus!
