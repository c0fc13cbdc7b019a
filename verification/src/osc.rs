//! OSC addressing: where input messages are sent, which socket addresses
//! the program uses, and in which order the start-up initialises its parts.
use vstd::prelude::*;

verus! {

/// The OSC address under which every avatar input lives.
pub const DEFAULT_BASE_ADDR: &'static str = "/input";

/// The part of the address between the base and the input's own path.
pub const DEFAULT_ADDR: &'static str = "";

/// The host both sockets use.
pub const DEFAULT_IP_ADDR: &'static str = "127.0.0.1";

/// The port on which VRChat receives OSC messages.
pub const DEFAULT_RECEIVER_OSC_PORT: usize = 9000;

/// The port on which this program binds its socket.
pub const DEFAULT_SENDER_OSC_PORT: usize = 9001;

/// The full OSC address of an input path: the base address, the middle part
/// and the path, one after the other.
pub open spec fn full_address(path: Seq<char>) -> Seq<char> {
    DEFAULT_BASE_ADDR@ + DEFAULT_ADDR@ + path
}

/// Returns the full OSC address of the input at `path`.
pub fn osc_address(path: &str) -> (addr: String)
    ensures
        addr@ == full_address(path@),
        addr@ == seq!['/', 'i', 'n', 'p', 'u', 't'] + path@,
{
    proof {
        lemma_full_address_is_input_then_path(path@);
    }
    let mut addr = String::from_str(DEFAULT_BASE_ADDR);
    addr.append(DEFAULT_ADDR);
    addr.append(path);
    addr
}

/// The character of the decimal digit `d`.
pub open spec fn digit_char(d: int) -> char {
    (48 + d) as char
}

/// The decimal notation of `n`: its digits, most significant first, with no
/// leading zero.
pub open spec fn decimal(n: nat) -> Seq<char>
    decreases n,
{
    if n < 10 {
        seq![digit_char(n as int)]
    } else {
        decimal(n / 10).push(digit_char((n % 10) as int))
    }
}

/// The number that a string of decimal digits denotes.
pub open spec fn decimal_value(s: Seq<char>) -> int
    decreases s.len(),
{
    if s.len() == 0 {
        0
    } else {
        decimal_value(s.drop_last()) * 10 + (s.last() as int - 48)
    }
}

/// Whether every character of `s` is a decimal digit.
pub open spec fn all_digits(s: Seq<char>) -> bool {
    forall|i: int| 0 <= i < s.len() ==> '0' <= #[trigger] s[i] <= '9'
}

fn digit_str(d: usize) -> (s: &'static str)
    requires
        d < 10,
    ensures
        s@ == seq![digit_char(d as int)],
{
    proof {
        reveal_strlit("0");
        reveal_strlit("1");
        reveal_strlit("2");
        reveal_strlit("3");
        reveal_strlit("4");
        reveal_strlit("5");
        reveal_strlit("6");
        reveal_strlit("7");
        reveal_strlit("8");
        reveal_strlit("9");
    }
    let s = if d == 0 {
        "0"
    } else if d == 1 {
        "1"
    } else if d == 2 {
        "2"
    } else if d == 3 {
        "3"
    } else if d == 4 {
        "4"
    } else if d == 5 {
        "5"
    } else if d == 6 {
        "6"
    } else if d == 7 {
        "7"
    } else if d == 8 {
        "8"
    } else {
        "9"
    };
    assert(s@ =~= seq![digit_char(d as int)]);
    s
}

/// Returns the decimal notation of `n`.
pub fn decimal_string(n: usize) -> (s: String)
    ensures
        s@ == decimal(n as nat),
    decreases n,
{
    if n < 10 {
        String::from_str(digit_str(n))
    } else {
        let mut s = decimal_string(n / 10);
        s.append(digit_str(n % 10));
        s
    }
}

/// Returns the socket address `host:port`.
pub fn endpoint(host: &str, port: usize) -> (addr: String)
    ensures
        addr@ == host@ + seq![':'] + decimal(port as nat),
{
    proof {
        reveal_strlit(":");
    }
    let mut addr = String::from_str(host);
    addr.append(":");
    let digits = decimal_string(port);
    addr.append(digits.as_str());
    addr
}

/// Returns the address on which the program binds its socket.
pub fn sender_endpoint() -> (addr: String)
    ensures
        addr@ == DEFAULT_IP_ADDR@ + seq![':'] + decimal(DEFAULT_SENDER_OSC_PORT as nat),
{
    endpoint(DEFAULT_IP_ADDR, DEFAULT_SENDER_OSC_PORT)
}

/// Returns the address to which the program sends its messages.
pub fn receiver_endpoint() -> (addr: String)
    ensures
        addr@ == DEFAULT_IP_ADDR@ + seq![':'] + decimal(DEFAULT_RECEIVER_OSC_PORT as nat),
{
    endpoint(DEFAULT_IP_ADDR, DEFAULT_RECEIVER_OSC_PORT)
}

/// The parts that starting the OSC connection initialises.
#[derive(Clone, Copy, Debug, PartialEq, Eq, Structural)]
pub enum StartStage {
    /// The socket that sends the messages.
    OscHandler,
    /// The handler that holds the pending input.
    InputHandler,
}

/// One step of starting the OSC connection. `initialized` is how many
/// initialisations have been tried so far and `last_ok` whether the last
/// of them succeeded. The socket comes first, then the input handler; a
/// failed initialisation ends the start-up, and once both parts are up
/// nothing is left to do.
pub fn start_osc(initialized: usize, last_ok: bool) -> (next: Option<StartStage>)
    ensures
        initialized == 0 ==> next == Some(StartStage::OscHandler),
        initialized == 1 && last_ok ==> next == Some(StartStage::InputHandler),
        initialized >= 1 && !last_ok ==> next is None,
        initialized >= 2 ==> next is None,
{
    if initialized == 0 {
        Some(StartStage::OscHandler)
    } else if initialized == 1 && last_ok {
        Some(StartStage::InputHandler)
    } else {
        None
    }
}

#[verifier::external_type_specification]
#[verifier::external_body]
pub struct ExOscPacket(rosc::OscPacket);

#[verifier::external_type_specification]
#[verifier::external_body]
pub struct ExOscError(rosc::OscError);

/// Whether `bytes` hold a well-formed OSC packet, as `rosc`'s UDP decoder
/// judges it.
pub uninterp spec fn osc_decodes(bytes: Seq<u8>) -> bool;

/// The packet that `rosc`'s UDP decoder reads from the start of `bytes`,
/// where they hold one.
pub uninterp spec fn osc_packet_of(bytes: Seq<u8>) -> rosc::OscPacket;

/// Calls `rosc::decoder::decode_udp`, which parses one OSC packet from the
/// start of the bytes. The contract claims that it succeeds exactly on the
/// byte strings named well-formed and that the packet it returns is the one
/// named for those bytes, the decoder reading nothing but them. The bytes
/// left after the packet are dropped here.
#[verifier::external_body]
fn decode_udp(bytes: &[u8]) -> (r: Result<rosc::OscPacket, rosc::OscError>)
    ensures
        r is Ok <==> osc_decodes(bytes@),
        r matches Ok(p) ==> p == osc_packet_of(bytes@),
{
    match rosc::decoder::decode_udp(bytes) {
        Ok((_rest, packet)) => Ok(packet),
        Err(e) => Err(e),
    }
}

/// A datagram that does not hold a well-formed OSC packet; it carries the
/// decoder's account of what was wrong.
#[derive(Debug)]
pub struct DecodeError(pub rosc::OscError);

/// Decodes the OSC packet that a received datagram holds.
pub fn decode_datagram(datagram: &[u8]) -> (r: Result<rosc::OscPacket, DecodeError>)
    ensures
        r is Ok <==> osc_decodes(datagram@),
        r matches Ok(p) ==> p == osc_packet_of(datagram@),
{
    match decode_udp(datagram) {
        Ok(packet) => Ok(packet),
        Err(e) => Err(DecodeError(e)),
    }
}

/// The decimal notation of a number is made of digits, has no leading zero,
/// and denotes the number again.
pub proof fn lemma_decimal_round_trip(n: nat)
    ensures
        all_digits(decimal(n)),
        decimal(n).len() >= 1,
        decimal(n).len() > 1 ==> decimal(n)[0] != '0',
        decimal_value(decimal(n)) == n,
    decreases n,
{
    if n < 10 {
        let s = decimal(n);
        assert(s.drop_last() =~= Seq::<char>::empty());
        assert(decimal_value(s.drop_last()) == 0);
        assert(s.last() as int == 48 + n);
    } else {
        lemma_decimal_round_trip(n / 10);
        let s = decimal(n);
        assert(s.drop_last() =~= decimal(n / 10));
        assert(s.last() == digit_char((n % 10) as int));
        assert forall|i: int| 0 <= i < s.len() implies '0' <= #[trigger] s[i] <= '9' by {
            if i < s.len() - 1 {
                assert(s[i] == decimal(n / 10)[i]);
            }
        }
        if decimal(n / 10).len() == 1 {
            assert(n / 10 < 10) by {
                if n / 10 >= 10 {
                    assert(decimal(n / 10).len() == decimal(n / 10 / 10).len() + 1);
                }
            }
        }
    }
}

/// Different numbers have different decimal notations.
pub proof fn lemma_decimal_injective(m: nat, n: nat)
    requires
        decimal(m) == decimal(n),
    ensures
        m == n,
{
    lemma_decimal_round_trip(m);
    lemma_decimal_round_trip(n);
}

/// Every input address lies under the input base address.
pub proof fn lemma_full_address_under_base(path: Seq<char>)
    ensures
        full_address(path).subrange(0, DEFAULT_BASE_ADDR@.len() as int) == DEFAULT_BASE_ADDR@,
        full_address(path).len() == DEFAULT_BASE_ADDR@.len() + DEFAULT_ADDR@.len() + path.len(),
{
    assert(full_address(path).subrange(0, DEFAULT_BASE_ADDR@.len() as int) =~= DEFAULT_BASE_ADDR@);
}

/// The full address of an input is `/input` followed by the input's path,
/// character for character: nothing is added, dropped or changed.
pub proof fn lemma_full_address_is_input_then_path(path: Seq<char>)
    ensures
        full_address(path) == seq!['/', 'i', 'n', 'p', 'u', 't'] + path,
        full_address(path).subrange(6, full_address(path).len() as int) == path,
        full_address(path).len() == path.len() + 6,
{
    reveal_strlit("/input");
    reveal_strlit("");
    assert(DEFAULT_BASE_ADDR@ =~= seq!['/', 'i', 'n', 'p', 'u', 't']);
    assert(DEFAULT_ADDR@ =~= Seq::<char>::empty());
    assert(full_address(path) =~= seq!['/', 'i', 'n', 'p', 'u', 't'] + path);
    assert(full_address(path).subrange(6, full_address(path).len() as int) =~= path);
}

} // verus!
