//! Joining a wireless network: the credentials in the fixed-size fields of
//! the station configuration, and the reaction to the events of the
//! connection.

use vstd::prelude::*;

verus! {

/// Size of the network name field.
pub const SSID_LEN: usize = 32;

/// Size of the password field.
pub const PASSWORD_LEN: usize = 64;

/// Connection attempts after which a lost connection is given up.
pub const MAX_RETRY: u32 = 10;

/// A field of `len` bytes that holds the leading bytes of `source` and is
/// padded with zeros.
pub open spec fn field_spec(source: Seq<u8>, len: nat) -> Seq<u8> {
    Seq::new(len, |i: int| if i < source.len() { source[i] } else { 0u8 })
}

/// The network name field for `ssid`: a name longer than the field is cut.
pub fn ssid_field(ssid: &[u8]) -> (field: [u8; 32])
    ensures
        field@ == field_spec(ssid@, SSID_LEN as nat),
{
    let mut field = [0u8;32];
    let mut i: usize = 0;
    while i < SSID_LEN && i < ssid.len()
        invariant
            i <= SSID_LEN,
            i <= ssid@.len(),
            field@.len() == SSID_LEN,
            forall|j: int| 0 <= j < i ==> field@[j] == ssid@[j],
            forall|j: int| i <= j < SSID_LEN ==> field@[j] == 0u8,
        decreases SSID_LEN - i,
    {
        field[i] = ssid[i];
        i += 1;
    }
    assert(field@ =~= field_spec(ssid@, SSID_LEN as nat));
    field
}

/// The password field for `password`: a password longer than the field is
/// cut.
pub fn password_field(password: &[u8]) -> (field: [u8; 64])
    ensures
        field@ == field_spec(password@, PASSWORD_LEN as nat),
{
    let mut field = [0u8;64];
    let mut i: usize = 0;
    while i < PASSWORD_LEN && i < password.len()
        invariant
            i <= PASSWORD_LEN,
            i <= password@.len(),
            field@.len() == PASSWORD_LEN,
            forall|j: int| 0 <= j < i ==> field@[j] == password@[j],
            forall|j: int| i <= j < PASSWORD_LEN ==> field@[j] == 0u8,
        decreases PASSWORD_LEN - i,
    {
        field[i] = password[i];
        i += 1;
    }
    assert(field@ =~= field_spec(password@, PASSWORD_LEN as nat));
    field
}

/// An event of the connection.
#[derive(Copy, Clone, Debug, PartialEq, Eq, Structural)]
pub enum Event {
    /// The station has started.
    StaStart,
    /// The station has lost, or failed to get, its connection.
    StaDisconnected,
    /// Another event of the wireless driver.
    WifiOther,
    /// The station has got its address.
    StaGotIp,
    /// Another event of the internet protocol.
    IpOther,
    /// An event of another source.
    Unknown,
}

/// What an event calls for.
#[derive(Copy, Clone, Debug, PartialEq, Eq, Structural)]
pub enum Reaction {
    /// Connect to the access point.
    Connect,
    /// Clear the connected flag and connect again.
    Reconnect,
    /// Set the connected flag.
    Connected,
    /// The connection is given up.
    GiveUp,
    /// Nothing to do.
    Ignore,
}

/// The reaction to `event` and the count of connection attempts after it,
/// when `retry_count` attempts were made since the station last got an
/// address.
///
/// A lost connection is tried again until ten attempts were made in a row;
/// an address obtained starts the count anew.
pub open spec fn event_handler_spec(retry_count: u32, event: Event) -> (Reaction, u32) {
    match event {
        Event::StaStart => (Reaction::Connect, retry_count),
        Event::StaDisconnected => if retry_count < MAX_RETRY {
            (Reaction::Reconnect, (retry_count + 1) as u32)
        } else {
            (Reaction::GiveUp, retry_count)
        },
        Event::StaGotIp => (Reaction::Connected, 0),
        _ => (Reaction::Ignore, retry_count),
    }
}

/// Reacts to `event` and keeps the count of connection attempts.
pub fn event_handler(retry_count: &mut u32, event: Event) -> (reaction: Reaction)
    ensures
        (reaction, *final(retry_count)) == event_handler_spec(*old(retry_count), event),
{
    match event {
        Event::StaStart => Reaction::Connect,
        Event::StaDisconnected => {
            if *retry_count < MAX_RETRY {
                *retry_count = *retry_count + 1;
                Reaction::Reconnect
            } else {
                Reaction::GiveUp
            }
        },
        Event::StaGotIp => {
            *retry_count = 0;
            Reaction::Connected
        },
        _ => Reaction::Ignore,
    }
}

/// The count of connection attempts never passes the limit once it is
/// within it.
pub proof fn lemma_retry_count_bounded(retry_count: u32, event: Event)
    requires
        retry_count <= MAX_RETRY,
    ensures
        event_handler_spec(retry_count, event).1 <= MAX_RETRY,
{
}

} // verus!
