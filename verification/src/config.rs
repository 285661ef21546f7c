//! The service's settings and what is derived from them.

use vstd::prelude::*;

verus! {

/// The settings the service starts with.
#[derive(Debug)]
pub struct Config {
    /// How much the service logs.
    pub log_level: String,
    /// The port the service listens on.
    pub http_port: u16,
    /// The prefix the cell is created with.
    pub say: String,
    /// The name the service describes itself with.
    pub package_name: String,
    /// The version the service describes itself with.
    pub package_version: String,
}

/// The character of one decimal digit.
pub open spec fn digit(d: nat) -> char
    recommends
        d < 10,
{
    seq!['0', '1', '2', '3', '4', '5', '6', '7', '8', '9'][d as int]
}

/// A number in decimal notation, without leading zeros.
pub open spec fn decimal(n: nat) -> Seq<char>
    decreases n,
{
    if n < 10 {
        seq![digit(n)]
    } else {
        decimal(n / 10) + seq![digit(n % 10)]
    }
}

/// The address that stands for every interface of the machine, with the
/// colon that precedes the port.
pub open spec fn any_interface() -> Seq<char> {
    seq!['0', '.', '0', '.', '0', '.', '0', ':']
}

/// The address a service with this port listens on.
pub open spec fn bind_address_of(port: u16) -> Seq<char> {
    any_interface() + decimal(port as nat)
}

fn digit_text(d: u16) -> (text: &'static str)
    requires
        d < 10,
    ensures
        text@ == seq![digit(d as nat)],
{
    proof {
        reveal_strlit("0");
        reveal_strlit("1");
        reveal_strlit("2");
        reveal_strlit("3");
        reveal_strlit("4");
        reveal_strlit("5");
        reveal_strlit("6");
        reveal_strlit("7");
        reveal_strlit("8");
        reveal_strlit("9");
    }
    let text = match d {
        0 => "0",
        1 => "1",
        2 => "2",
        3 => "3",
        4 => "4",
        5 => "5",
        6 => "6",
        7 => "7",
        8 => "8",
        _ => "9",
    };
    assert(text@ =~= seq![digit(d as nat)]);
    text
}

fn decimal_text(n: u16) -> (text: String)
    ensures
        text@ == decimal(n as nat),
    decreases n,
{
    if n < 10 {
        digit_text(n).to_owned()
    } else {
        let mut text = decimal_text(n / 10);
        text.append(digit_text(n % 10));
        text
    }
}

impl Config {
    /// The address the service listens on: every interface, at the
    /// configured port.
    pub fn bind_address(&self) -> (address: String)
        ensures
            address@ == bind_address_of(self.http_port),
    {
        proof {
            reveal_strlit("0.0.0.0:");
        }
        assert("0.0.0.0:"@ =~= any_interface());
        let mut address = "0.0.0.0:".to_owned();
        let port = decimal_text(self.http_port);
        address.append(port.as_str());
        address
    }
}

} // verus!
