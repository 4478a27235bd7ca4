//! The handshake record and its single-line rendering.
//!
//! The host discovers the service by reading exactly one line from the
//! service's standard output: the record's fields joined by `|`. The line
//! must carry the address the listener is actually bound to, so the
//! record is only built once binding has completed.

use vstd::prelude::*;

verus! {

/// The character a decimal digit renders as.
pub open spec fn dec_digit_char(d: nat) -> char {
    if d == 0 {
        '0'
    } else if d == 1 {
        '1'
    } else if d == 2 {
        '2'
    } else if d == 3 {
        '3'
    } else if d == 4 {
        '4'
    } else if d == 5 {
        '5'
    } else if d == 6 {
        '6'
    } else if d == 7 {
        '7'
    } else if d == 8 {
        '8'
    } else {
        '9'
    }
}

/// The decimal rendering of a natural number, most significant digit
/// first, with no leading zeros (a lone zero for 0).
pub open spec fn dec_rep(n: nat) -> Seq<char>
    decreases n,
{
    if n < 10 {
        seq![dec_digit_char(n)]
    } else {
        dec_rep(n / 10) + seq![dec_digit_char(n % 10)]
    }
}

/// The transport the listener was bound on.
#[derive(Clone, Copy, Debug, PartialEq, Eq, Structural)]
pub enum NetworkType {
    Tcp,
    Unix,
}

impl NetworkType {
    /// The name of the transport as it appears in the handshake line.
    pub open spec fn spec_name(self) -> Seq<char> {
        match self {
            NetworkType::Tcp => seq!['t', 'c', 'p'],
            NetworkType::Unix => seq!['u', 'n', 'i', 'x'],
        }
    }

    /// Renders the transport name.
    pub fn name(&self) -> (s: &'static str)
        ensures
            s@ == self.spec_name(),
    {
        match self {
            NetworkType::Tcp => {
                let s = "tcp";
                proof {
                    reveal_strlit("tcp");
                    assert(s@ =~= self.spec_name());
                }
                s
            },
            NetworkType::Unix => {
                let s = "unix";
                proof {
                    reveal_strlit("unix");
                    assert(s@ =~= self.spec_name());
                }
                s
            },
        }
    }
}

/// The handshake line for the given fields: the five fields joined by `|`.
pub open spec fn spec_handshake_line(
    core_version: nat,
    app_version: nat,
    network: NetworkType,
    address: Seq<char>,
    rpc_protocol: Seq<char>,
) -> Seq<char> {
    dec_rep(core_version) + seq!['|'] + dec_rep(app_version) + seq!['|'] + network.spec_name()
        + seq!['|'] + address + seq!['|'] + rpc_protocol
}

/// What the service announces on standard output, once, after binding:
/// the protocol versions agreed with the host, the transport, the exact
/// dialable address, and the name of the RPC framing in use.
pub struct HandshakeRecord {
    pub core_protocol_version: u64,
    pub app_protocol_version: u64,
    pub network: NetworkType,
    pub address: String,
    pub rpc_protocol: String,
}

impl HandshakeRecord {
    /// The line this record renders as.
    pub open spec fn spec_line(&self) -> Seq<char> {
        spec_handshake_line(
            self.core_protocol_version as nat,
            self.app_protocol_version as nat,
            self.network,
            self.address@,
            self.rpc_protocol@,
        )
    }

    /// Renders the handshake line: the record's fields joined by `|`,
    /// with the address byte-identical to the record's address field.
    pub fn format_line(&self) -> (line: String)
        ensures
            line@ == self.spec_line(),
    {
        let mut line = u64_to_dec_string(self.core_protocol_version);
        let sep = "|";
        proof {
            reveal_strlit("|");
            assert(sep@ =~= seq!['|']);
        }
        line.append(sep);
        let app = u64_to_dec_string(self.app_protocol_version);
        line.append(app.as_str());
        line.append(sep);
        line.append(self.network.name());
        line.append(sep);
        line.append(self.address.as_str());
        line.append(sep);
        line.append(self.rpc_protocol.as_str());
        proof {
            assert(line@ =~= self.spec_line());
        }
        line
    }
}

/// Renders one decimal digit.
fn digit_str(d: u64) -> (s: &'static str)
    requires
        d < 10,
    ensures
        s@ == seq![dec_digit_char(d as nat)],
{
    let s = match d {
        0 => "0",
        1 => "1",
        2 => "2",
        3 => "3",
        4 => "4",
        5 => "5",
        6 => "6",
        7 => "7",
        8 => "8",
        _ => "9",
    };
    proof {
        reveal_strlit("0");
        reveal_strlit("1");
        reveal_strlit("2");
        reveal_strlit("3");
        reveal_strlit("4");
        reveal_strlit("5");
        reveal_strlit("6");
        reveal_strlit("7");
        reveal_strlit("8");
        reveal_strlit("9");
        assert(s@ =~= seq![dec_digit_char(d as nat)]);
    }
    s
}

/// Renders a number in decimal, most significant digit first.
pub fn u64_to_dec_string(n: u64) -> (s: String)
    ensures
        s@ == dec_rep(n as nat),
    decreases n,
{
    if n < 10 {
        let mut s = String::new();
        s.append(digit_str(n));
        proof {
            assert(s@ =~= dec_rep(n as nat));
        }
        s
    } else {
        let mut s = u64_to_dec_string(n / 10);
        s.append(digit_str(n % 10));
        proof {
            assert(s@ =~= dec_rep(n as nat));
        }
        s
    }
}

} // verus!
