use vstd::prelude::*;
use crate::types::{TcpError, invalid_address_detail};

verus! {

/// The character of a decimal digit.
pub open spec fn digit_char(d: nat) -> char {
    if d == 0 {
        '0'
    } else if d == 1 {
        '1'
    } else if d == 2 {
        '2'
    } else if d == 3 {
        '3'
    } else if d == 4 {
        '4'
    } else if d == 5 {
        '5'
    } else if d == 6 {
        '6'
    } else if d == 7 {
        '7'
    } else if d == 8 {
        '8'
    } else {
        '9'
    }
}

/// The decimal notation of a natural number, without leading zeros.
pub open spec fn decimal(n: nat) -> Seq<char>
    decreases n,
{
    if n < 10 {
        seq![digit_char(n)]
    } else {
        decimal(n / 10).push(digit_char(n % 10))
    }
}

/// The `host:port` text of an address.
pub open spec fn address_text(host: Seq<char>, port: u16) -> Seq<char> {
    host.push(':') + decimal(port as nat)
}

/// An address is acceptable when its host is not empty and its port is not zero.
pub open spec fn valid_address(host: Seq<char>, port: u16) -> bool {
    host.len() > 0 && port != 0
}

fn digit_text(d: u16) -> (r: &'static str)
    requires
        d < 10,
    ensures
        r@ == seq![digit_char(d as nat)],
{
    let r = match d {
        0 => "0",
        1 => "1",
        2 => "2",
        3 => "3",
        4 => "4",
        5 => "5",
        6 => "6",
        7 => "7",
        8 => "8",
        _ => "9",
    };
    proof {
        reveal_strlit("0");
        reveal_strlit("1");
        reveal_strlit("2");
        reveal_strlit("3");
        reveal_strlit("4");
        reveal_strlit("5");
        reveal_strlit("6");
        reveal_strlit("7");
        reveal_strlit("8");
        reveal_strlit("9");
    }
    assert(r@ =~= seq![digit_char(d as nat)]);
    r
}

fn append_decimal(s: &mut String, n: u16)
    ensures
        final(s)@ == old(s)@ + decimal(n as nat),
    decreases n,
{
    if n >= 10 {
        append_decimal(s, n / 10);
    }
    s.append(digit_text(n % 10));
    assert(final(s)@ =~= old(s)@ + decimal(n as nat));
}

/// The decimal text of a port number.
pub fn port_text(port: u16) -> (r: String)
    ensures
        r@ == decimal(port as nat),
{
    let mut s = String::new();
    append_decimal(&mut s, port);
    assert(s@ =~= decimal(port as nat));
    s
}

/// The `host:port` text of an address.
pub fn address_of(host: &str, port: u16) -> (r: String)
    ensures
        r@ == address_text(host@, port),
{
    proof {
        reveal_strlit(":");
    }
    let mut s = String::from_str(host);
    s.append(":");
    append_decimal(&mut s, port);
    assert(s@ =~= address_text(host@, port));
    s
}

/// Checks a host and port before any connection attempt, and gives the
/// `host:port` text to connect to.
pub fn validate_address(host: &str, port: u16) -> (r: Result<String, TcpError>)
    ensures
        r is Ok <==> valid_address(host@, port),
        r matches Ok(a) ==> a@ == address_text(host@, port),
        r matches Err(e) ==> e is InvalidAddress && e->InvalidAddress_0@ == invalid_address_detail(),
{
    if host.is_empty() || port == 0 {
        Err(TcpError::invalid_address())
    } else {
        Ok(address_of(host, port))
    }
}

} // verus!
