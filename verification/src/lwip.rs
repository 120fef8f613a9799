//! The decisions around the socket calls of the network stack: the judgement
//! of their return values, the socket address in network byte order, and the
//! retry of a transmission that ran out of memory.

use vstd::prelude::*;
use crate::esp_idf::{EspError, ENOMEM};

verus! {

/// Descriptor of a socket.
pub type Socket = i32;

/// An address of the internet protocol, version 4.
#[derive(Copy, Clone, Debug, PartialEq, Eq, Structural)]
pub struct Ip4Addr {
    /// The address, in network byte order.
    pub addr: u32,
}

/// The address part of a socket address.
#[derive(Copy, Clone, Debug, PartialEq, Eq, Structural)]
pub struct InAddr {
    /// The address, in network byte order.
    pub s_addr: u32,
}

impl From<InAddr> for Ip4Addr {
    fn from(item: InAddr) -> (address: Ip4Addr) {
        Ip4Addr { addr: item.s_addr }
    }
}

impl vstd::std_specs::convert::FromSpecImpl<InAddr> for Ip4Addr {
    open spec fn obeys_from_spec() -> bool {
        true
    }

    open spec fn from_spec(item: InAddr) -> Ip4Addr {
        Ip4Addr { addr: item.s_addr }
    }
}

/// A socket address of the internet protocol, version 4.
#[derive(Copy, Clone, Debug, PartialEq, Eq, Structural)]
pub struct SockAddrIn {
    /// The address, in network byte order.
    pub sin_addr: InAddr,
    /// The address family.
    pub sin_family: u8,
    /// The port, in network byte order.
    pub sin_port: u16,
}

/// A 16-bit value with its two bytes exchanged.
pub open spec fn htons_spec(value: u16) -> u16 {
    ((value % 256) * 256 + value / 256) as u16
}

/// A 32-bit value with the order of its four bytes reversed.
pub open spec fn htonl_spec(value: u32) -> u32 {
    ((value % 256) * 0x100_0000 + (value / 0x100 % 256) * 0x1_0000 + (value / 0x1_0000 % 256)
        * 0x100 + value / 0x100_0000) as u32
}

/// Converts a 16-bit value from the byte order of this little-endian host
/// to network byte order.
pub fn htons(value: u16) -> (swapped: u16)
    ensures
        swapped == htons_spec(value),
{
    let swapped: u16 = (value << 8) | (value >> 8);
    assert(swapped == ((value % 256) * 256 + value / 256) as u16) by (bit_vector)
        requires
            swapped == (value << 8) | (value >> 8),
    ;
    swapped
}

/// Converts a 32-bit value from the byte order of this little-endian host
/// to network byte order.
pub fn htonl(value: u32) -> (swapped: u32)
    ensures
        swapped == htonl_spec(value),
{
    let swapped: u32 = (value << 24) | ((value & 0xff00) << 8) | ((value >> 8) & 0xff00) | (value
        >> 24);
    assert(swapped == ((value % 256) * 0x100_0000 + (value / 0x100 % 256) * 0x1_0000 + (value
        / 0x1_0000 % 256) * 0x100 + value / 0x100_0000) as u32) by (bit_vector)
        requires
            swapped == (value << 24) | ((value & 0xff00) << 8) | ((value >> 8) & 0xff00) | (value
                >> 24),
    ;
    swapped
}

/// Exchanging the bytes twice gives the value back.
pub proof fn lemma_htons_involution(value: u16)
    ensures
        htons_spec(htons_spec(value)) == value,
{
}

/// Reversing the bytes twice gives the value back.
pub proof fn lemma_htonl_involution(value: u32)
    ensures
        htonl_spec(htonl_spec(value)) == value,
{
    assert(htonl_spec(htonl_spec(value)) == value) by (bit_vector);
}

/// What the creation of a socket amounts to: the descriptor that the stack
/// `returned`, or the error number `errno` when it is negative.
pub fn socket(returned: i32, errno: i32) -> (result: Result<Socket, EspError>)
    ensures
        returned >= 0 ==> result == Ok::<Socket, EspError>(returned),
        returned < 0 ==> result == Err::<Socket, EspError>(EspError(errno)),
{
    if returned < 0 {
        return Err(EspError(errno));
    }
    Ok(returned)
}

/// The socket address to bind to: `address` and `port` in network byte
/// order, and the low byte of `family`.
pub fn bind(address: u32, family: u32, port: u16) -> (dest_addr: SockAddrIn)
    ensures
        dest_addr == (SockAddrIn {
            sin_addr: InAddr { s_addr: htonl_spec(address) },
            sin_family: (family % 256) as u8,
            sin_port: htons_spec(port),
        }),
{
    let sin_family = (family & 0xff) as u8;
    assert(family & 0xff == family % 256) by (bit_vector);
    SockAddrIn { sin_addr: InAddr { s_addr: htonl(address) }, sin_family, sin_port: htons(port) }
}

/// What a call that returns a count or a negative value amounts to: the
/// error number `errno` when `returned` is negative, else success.
pub fn check(returned: i32, errno: i32) -> (result: Result<(), EspError>)
    ensures
        returned >= 0 ==> result is Ok,
        returned < 0 ==> result == Err::<(), EspError>(EspError(errno)),
{
    if returned < 0 {
        return Err(EspError(errno));
    }
    Ok(())
}

/// What a reception amounts to: the number of bytes received, or the error
/// number `errno` when the stack returned a negative length.
pub fn recvfrom(len: isize, errno: i32) -> (result: Result<usize, EspError>)
    ensures
        len >= 0 ==> result == Ok::<usize, EspError>(len as usize),
        len < 0 ==> result == Err::<usize, EspError>(EspError(errno)),
{
    if len < 0 {
        return Err(EspError(errno));
    }
    Ok(len as usize)
}

/// The socket address to send to: `address` as it is, `port` in network
/// byte order, and the low byte of `family`.
pub fn destination(address: u32, family: u32, port: u16) -> (dest_addr: SockAddrIn)
    ensures
        dest_addr == (SockAddrIn {
            sin_addr: InAddr { s_addr: address },
            sin_family: (family % 256) as u8,
            sin_port: htons_spec(port),
        }),
{
    let sin_family = (family & 0xff) as u8;
    assert(family & 0xff == family % 256) by (bit_vector);
    SockAddrIn { sin_addr: InAddr { s_addr: address }, sin_family, sin_port: htons(port) }
}

/// Most retries of one transmission.
pub const MAX_RETRY: u32 = 10;

/// What follows an attempt to send.
#[derive(Copy, Clone, Debug, PartialEq, Eq, Structural)]
pub enum Sent {
    /// The transmission is over; this is its result.
    Done(isize),
    /// Yield for a tick, then send the same bytes again.
    Retry,
}

/// What follows an attempt to send that returned `bytes_sent` and left the
/// error number `error_number`, after `attempts` retries.
///
/// An attempt that sent nothing is sent again only when the stack was out
/// of memory, and only while fewer than `MAX_RETRY` retries were made. In
/// every other case the transmission is over and what the attempt returned
/// is its result: with bytes sent, with any other error, and when the
/// retries are used up.
pub open spec fn sendto_spec(attempts: u32, bytes_sent: isize, error_number: u32) -> Sent {
    if bytes_sent < 1 && error_number == ENOMEM && attempts < MAX_RETRY {
        Sent::Retry
    } else {
        Sent::Done(bytes_sent)
    }
}

/// Decides what follows an attempt to send.
pub fn sendto(attempts: u32, bytes_sent: isize, error_number: u32) -> (sent: Sent)
    ensures
        sent == sendto_spec(attempts, bytes_sent, error_number),
{
    if bytes_sent < 1 {
        if error_number == ENOMEM && attempts < MAX_RETRY {
            return Sent::Retry;
        }
    }
    Sent::Done(bytes_sent)
}

/// The number of retries after which a transmission is over, when the
/// attempt after `n` retries ends as `outcomes(n)` tells and `attempts`
/// retries were made so far.
pub open spec fn retries(outcomes: spec_fn(int) -> (isize, u32), attempts: u32) -> u32
    decreases MAX_RETRY - attempts,
{
    if attempts < MAX_RETRY && sendto_spec(
        attempts,
        outcomes(attempts as int).0,
        outcomes(attempts as int).1,
    ) is Retry {
        retries(outcomes, (attempts + 1) as u32)
    } else {
        attempts
    }
}

/// A transmission is over after at most `MAX_RETRY` retries, however its
/// attempts end; every attempt before the last sent nothing for want of
/// memory, and the result is what the last attempt returned.
pub proof fn lemma_retries_bounded(outcomes: spec_fn(int) -> (isize, u32), attempts: u32)
    requires
        attempts <= MAX_RETRY,
    ensures
        attempts <= retries(outcomes, attempts) <= MAX_RETRY,
        sendto_spec(
            retries(outcomes, attempts),
            outcomes(retries(outcomes, attempts) as int).0,
            outcomes(retries(outcomes, attempts) as int).1,
        ) == Sent::Done(outcomes(retries(outcomes, attempts) as int).0),
        forall|n: int|
            attempts <= n < retries(outcomes, attempts) ==> (#[trigger] outcomes(n)).0 < 1
                && outcomes(n).1 == ENOMEM,
    decreases MAX_RETRY - attempts,
{
    if attempts < MAX_RETRY && sendto_spec(
        attempts,
        outcomes(attempts as int).0,
        outcomes(attempts as int).1,
    ) is Retry {
        lemma_retries_bounded(outcomes, (attempts + 1) as u32);
    }
}

} // verus!
