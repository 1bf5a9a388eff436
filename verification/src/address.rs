//! IPv4 addresses, the portal's socket address, and their text forms.

use vstd::arithmetic::div_mod::lemma_fundamental_div_mod_converse;
use vstd::prelude::*;
use vstd::string::*;

verus! {

/// The TCP port on which the portal listens.
pub const PORTAL_PORT: u16 = 3000;

/// An IPv4 address as its four octets, first octet first.
#[derive(Clone, Copy, Debug, PartialEq, Eq, Structural)]
pub struct Ipv4Address {
    pub a: u8,
    pub b: u8,
    pub c: u8,
    pub d: u8,
}

/// The address and port on which the portal is reached.
#[derive(Clone, Copy, Debug, PartialEq, Eq, Structural)]
pub struct PortalAddress {
    pub ip: Ipv4Address,
    pub port: u16,
}

/// The character of a decimal digit.
pub open spec fn digit(d: nat) -> char {
    if d == 0 {
        '0'
    } else if d == 1 {
        '1'
    } else if d == 2 {
        '2'
    } else if d == 3 {
        '3'
    } else if d == 4 {
        '4'
    } else if d == 5 {
        '5'
    } else if d == 6 {
        '6'
    } else if d == 7 {
        '7'
    } else if d == 8 {
        '8'
    } else {
        '9'
    }
}

/// The decimal numeral of `n`, without leading zeros.
pub open spec fn decimal(n: nat) -> Seq<char>
    decreases n,
{
    if n < 10 {
        seq![digit(n)]
    } else {
        decimal(n / 10).push(digit(n % 10))
    }
}

/// The 32-bit number whose bytes are those of `bits` in reverse order.
pub open spec fn swap_bytes(bits: u32) -> u32 {
    ((bits % 0x100) * 0x100_0000 + ((bits / 0x100) % 0x100) * 0x1_0000 + ((bits / 0x1_0000)
        % 0x100) * 0x100 + bits / 0x100_0000) as u32
}

fn digit_text(d: u32) -> (text: &'static str)
    requires
        d < 10,
    ensures
        text@ == seq![digit(d as nat)],
{
    proof {
        reveal_strlit("0");
        reveal_strlit("1");
        reveal_strlit("2");
        reveal_strlit("3");
        reveal_strlit("4");
        reveal_strlit("5");
        reveal_strlit("6");
        reveal_strlit("7");
        reveal_strlit("8");
        reveal_strlit("9");
    }
    let text = if d == 0 {
        "0"
    } else if d == 1 {
        "1"
    } else if d == 2 {
        "2"
    } else if d == 3 {
        "3"
    } else if d == 4 {
        "4"
    } else if d == 5 {
        "5"
    } else if d == 6 {
        "6"
    } else if d == 7 {
        "7"
    } else if d == 8 {
        "8"
    } else {
        "9"
    };
    assert(text@ =~= seq![digit(d as nat)]);
    text
}

fn decimal_text(n: u32) -> (text: String)
    ensures
        text@ == decimal(n as nat),
    decreases n,
{
    if n < 10 {
        digit_text(n).to_owned()
    } else {
        let mut text = decimal_text(n / 10);
        text.append(digit_text(n % 10));
        text
    }
}

/// `u32::to_be` of std gives the number whose bytes in memory, lowest address
/// first, run from the most significant byte of the result to the least. It
/// hands `word` back as it is on a big-endian machine and with its bytes
/// reversed on a little-endian one; the contract says no more than that it is
/// one of the two.
#[verifier::external_body]
fn to_big_endian(word: u32) -> (bits: u32)
    ensures
        bits == word || bits == swap_bytes(word),
{
    word.to_be()
}

/// Reading the byte-swapped number gives the octets in reverse order.
proof fn lemma_swap_reverses(bits: u32)
    ensures
        Ipv4Address::of_bits(swap_bytes(bits)) == Ipv4Address::of_bits(bits).reversed(),
{
    let b0: int = bits as int % 0x100;
    let b1: int = (bits as int / 0x100) % 0x100;
    let b2: int = (bits as int / 0x1_0000) % 0x100;
    let b3: int = bits as int / 0x100_0000;
    let swapped: int = b0 * 0x100_0000 + b1 * 0x1_0000 + b2 * 0x100 + b3;
    assert(0 <= b0 < 0x100 && 0 <= b1 < 0x100 && 0 <= b2 < 0x100 && 0 <= b3 < 0x100);
    assert(swap_bytes(bits) as int == swapped);
    lemma_fundamental_div_mod_converse(
        swapped,
        0x100_0000,
        b0,
        b1 * 0x1_0000 + b2 * 0x100 + b3,
    );
    lemma_fundamental_div_mod_converse(swapped, 0x1_0000, b0 * 0x100 + b1, b2 * 0x100 + b3);
    lemma_fundamental_div_mod_converse(b0 * 0x100 + b1, 0x100, b0, b1);
    lemma_fundamental_div_mod_converse(swapped, 0x100, b0 * 0x1_0000 + b1 * 0x100 + b2, b3);
    lemma_fundamental_div_mod_converse(b0 * 0x1_0000 + b1 * 0x100 + b2, 0x100, b0 * 0x100 + b1, b2);
}

impl Ipv4Address {
    /// The address whose octets are the bytes of `bits`, most significant first.
    pub open spec fn of_bits(bits: u32) -> Ipv4Address {
        Ipv4Address {
            a: (bits / 0x100_0000) as u8,
            b: ((bits / 0x1_0000) % 0x100) as u8,
            c: ((bits / 0x100) % 0x100) as u8,
            d: (bits % 0x100) as u8,
        }
    }

    /// The same octets in reverse order.
    pub open spec fn reversed(self) -> Ipv4Address {
        Ipv4Address { a: self.d, b: self.c, c: self.b, d: self.a }
    }

    /// The dotted-decimal form, such as `192.168.4.1`.
    pub open spec fn text(self) -> Seq<char> {
        decimal(self.a as nat) + seq!['.'] + decimal(self.b as nat) + seq!['.'] + decimal(
            self.c as nat,
        ) + seq!['.'] + decimal(self.d as nat)
    }

    /// The address with the given octets.
    pub fn new(a: u8, b: u8, c: u8, d: u8) -> (address: Ipv4Address)
        ensures
            address == (Ipv4Address { a, b, c, d }),
    {
        Ipv4Address { a, b, c, d }
    }

    /// Reads a 32-bit number as an address, most significant byte first.
    pub fn from_bits(bits: u32) -> (address: Ipv4Address)
        ensures
            address == Ipv4Address::of_bits(bits),
    {
        Ipv4Address {
            a: (bits / 0x100_0000) as u8,
            b: ((bits / 0x1_0000) % 0x100) as u8,
            c: ((bits / 0x100) % 0x100) as u8,
            d: (bits % 0x100) as u8,
        }
    }

    /// Reads a word that holds an address in network byte order, as the network
    /// manager reports it: the word's bytes in memory are the octets. Which
    /// arithmetic byte comes first in memory is the machine's choice, so the
    /// result is `of_bits(word)` on a big-endian machine and its reverse on a
    /// little-endian one.
    pub fn from_network_word(word: u32) -> (address: Ipv4Address)
        ensures
            address == Ipv4Address::of_bits(word) || address == Ipv4Address::of_bits(
                word,
            ).reversed(),
    {
        let bits = to_big_endian(word);
        proof {
            lemma_swap_reverses(word);
        }
        Ipv4Address::from_bits(bits)
    }

    /// Writes the address in dotted-decimal form.
    pub fn to_text(&self) -> (text: String)
        ensures
            text@ == self.text(),
    {
        proof {
            reveal_strlit(".");
        }
        let mut text = decimal_text(self.a as u32);
        text.append(".");
        text.append(decimal_text(self.b as u32).as_str());
        text.append(".");
        text.append(decimal_text(self.c as u32).as_str());
        text.append(".");
        text.append(decimal_text(self.d as u32).as_str());
        assert(text@ =~= self.text());
        text
    }
}

impl PortalAddress {
    /// The form `address:port`, which clients send as their `Host` header when
    /// they address the portal itself.
    pub open spec fn text(self) -> Seq<char> {
        self.ip.text() + seq![':'] + decimal(self.port as nat)
    }

    /// The portal's address on the access point with the given address.
    pub fn new(ip: Ipv4Address, port: u16) -> (address: PortalAddress)
        ensures
            address == (PortalAddress { ip, port }),
    {
        PortalAddress { ip, port }
    }

    /// Writes the address as `address:port`.
    pub fn to_text(&self) -> (text: String)
        ensures
            text@ == self.text(),
    {
        proof {
            reveal_strlit(":");
        }
        let mut text = self.ip.to_text();
        text.append(":");
        text.append(decimal_text(self.port as u32).as_str());
        assert(text@ =~= self.text());
        text
    }
}

} // verus!
