//! Where the broker listens: an IPv4 address and a TCP port.
use vstd::prelude::*;

verus! {

/// The decimal digit `d` as a character.
pub open spec fn digit_char(d: int) -> char {
    if d == 0 {
        '0'
    } else if d == 1 {
        '1'
    } else if d == 2 {
        '2'
    } else if d == 3 {
        '3'
    } else if d == 4 {
        '4'
    } else if d == 5 {
        '5'
    } else if d == 6 {
        '6'
    } else if d == 7 {
        '7'
    } else if d == 8 {
        '8'
    } else {
        '9'
    }
}

/// `n` written in decimal, without leading zeros.
pub open spec fn decimal(n: nat) -> Seq<char>
    decreases n,
{
    if n < 10 {
        seq![digit_char(n as int)]
    } else {
        decimal(n / 10) + seq![digit_char((n % 10) as int)]
    }
}

/// `a.b.c.d:port`, each number in decimal.
pub open spec fn socket_string(host: Seq<u8>, port: u16) -> Seq<char> {
    decimal(host[0] as nat) + seq!['.'] + decimal(host[1] as nat) + seq!['.'] + decimal(
        host[2] as nat,
    ) + seq!['.'] + decimal(host[3] as nat) + seq![':'] + decimal(port as nat)
}

/// The listening address of the broker.
pub struct Config {
    host_addr: [u8; 4],
    port: u16,
}

/// The one-character string of the decimal digit `d`.
fn digit_str(d: u32) -> (r: &'static str)
    requires
        d < 10,
    ensures
        r@ == seq![digit_char(d as int)],
{
    match d {
        0 => {
            proof {
                reveal_strlit("0");
            }
            "0"
        },
        1 => {
            proof {
                reveal_strlit("1");
            }
            "1"
        },
        2 => {
            proof {
                reveal_strlit("2");
            }
            "2"
        },
        3 => {
            proof {
                reveal_strlit("3");
            }
            "3"
        },
        4 => {
            proof {
                reveal_strlit("4");
            }
            "4"
        },
        5 => {
            proof {
                reveal_strlit("5");
            }
            "5"
        },
        6 => {
            proof {
                reveal_strlit("6");
            }
            "6"
        },
        7 => {
            proof {
                reveal_strlit("7");
            }
            "7"
        },
        8 => {
            proof {
                reveal_strlit("8");
            }
            "8"
        },
        _ => {
            proof {
                reveal_strlit("9");
            }
            "9"
        },
    }
}

/// Appends `n` in decimal to `s`.
fn push_decimal(s: &mut String, n: u32)
    ensures
        final(s)@ == old(s)@ + decimal(n as nat),
    decreases n,
{
    if n >= 10 {
        push_decimal(s, n / 10);
    }
    s.append(digit_str(n % 10));
    assert(final(s)@ =~= old(s)@ + decimal(n as nat));
}

impl Config {
    /// The four octets of the address.
    pub closed spec fn host_spec(&self) -> Seq<u8> {
        self.host_addr@
    }

    /// The TCP port.
    pub closed spec fn port_spec(&self) -> u16 {
        self.port
    }

    /// The address `host_addr`, port `port`.
    pub fn new(host_addr: [u8; 4], port: u16) -> (r: Self)
        ensures
            r.host_spec() == host_addr@,
            r.port_spec() == port,
    {
        Config { host_addr, port }
    }

    /// The conventional broker address, 127.0.0.1:9092.
    pub fn default() -> (r: Self)
        ensures
            r.host_spec() == seq![127u8, 0u8, 0u8, 1u8],
            r.port_spec() == 9092,
    {
        let r = Config { host_addr: [127, 0, 0, 1], port: 9092 };
        assert(r.host_addr@ =~= seq![127u8, 0u8, 0u8, 1u8]);
        r
    }

    /// The address as `a.b.c.d:port`, ready to bind.
    pub fn to_socket_string(&self) -> (r: String)
        ensures
            r@ == socket_string(self.host_spec(), self.port_spec()),
    {
        let mut s = String::new();
        proof {
            reveal_strlit(".");
            reveal_strlit(":");
        }
        push_decimal(&mut s, self.host_addr[0] as u32);
        s.append(".");
        push_decimal(&mut s, self.host_addr[1] as u32);
        s.append(".");
        push_decimal(&mut s, self.host_addr[2] as u32);
        s.append(".");
        push_decimal(&mut s, self.host_addr[3] as u32);
        s.append(":");
        push_decimal(&mut s, self.port as u32);
        assert(s@ =~= socket_string(self.host_addr@, self.port));
        s
    }
}

} // verus!
