//! The choice of the local address that a transport binds to when the user
//! names a network interface.

use vstd::prelude::*;
use vstd::string::*;
use crate::srun::error::{transport_error, ErrorView, SRUNClientError};
use crate::srun::text::same_text;

verus! {

/// One address of one network interface, as far as the choice depends on it.
#[derive(Debug, PartialEq, Eq)]
pub struct InterfaceAddress {
    pub name: String,
    pub is_ipv4: bool,
}

/// Whether address `i` belongs to `interface` and, where `ipv4` is set, is an
/// IPv4 address.
pub open spec fn serves(
    addresses: Seq<InterfaceAddress>,
    interface: Seq<char>,
    ipv4: bool,
    i: int,
) -> bool {
    0 <= i < addresses.len() && addresses[i].name@ == interface && (ipv4 ==> addresses[i].is_ipv4)
}

/// Whether `i` is the first address that serves.
pub open spec fn first_serving(
    addresses: Seq<InterfaceAddress>,
    interface: Seq<char>,
    ipv4: bool,
    i: int,
) -> bool {
    serves(addresses, interface, ipv4, i) && forall|j: int|
        0 <= j < i ==> !serves(addresses, interface, ipv4, j)
}

/// Whether no address serves.
pub open spec fn none_serving(
    addresses: Seq<InterfaceAddress>,
    interface: Seq<char>,
    ipv4: bool,
) -> bool {
    forall|j: int| 0 <= j < addresses.len() ==> !serves(addresses, interface, ipv4, j)
}

/// The error for an interface that has no address.
pub open spec fn interface_error(interface: Seq<char>) -> ErrorView {
    transport_error("Interface "@ + interface + " not found"@)
}

/// The first address of `interface` that serves, if any does.
fn find_serving(addresses: &Vec<InterfaceAddress>, interface: &str, ipv4: bool) -> (found: Option<
    usize,
>)
    ensures
        match found {
            Some(i) => first_serving(addresses@, interface@, ipv4, i as int),
            None => none_serving(addresses@, interface@, ipv4),
        },
{
    let mut i: usize = 0;
    while i < addresses.len()
        invariant
            i <= addresses.len(),
            forall|j: int| 0 <= j < i ==> !serves(addresses@, interface@, ipv4, j),
        decreases addresses.len() - i,
    {
        if same_text(addresses[i].name.as_str(), interface) && (!ipv4 || addresses[i].is_ipv4) {
            return Some(i);
        }
        i += 1;
    }
    None
}

/// Chooses the address to bind to for a named interface: its first IPv4
/// address, or its first address where it has no IPv4 address. An interface
/// without any address is an error.
pub fn pick_local_address(addresses: &Vec<InterfaceAddress>, interface: &str) -> (res: Result<
    usize,
    SRUNClientError,
>)
    ensures
        match res {
            Ok(i) => first_serving(addresses@, interface@, true, i as int) || (none_serving(
                addresses@,
                interface@,
                true,
            ) && first_serving(addresses@, interface@, false, i as int)),
            Err(e) => none_serving(addresses@, interface@, false) && e@ == interface_error(
                interface@,
            ),
        },
{
    match find_serving(addresses, interface, true) {
        Some(i) => Ok(i),
        None => match find_serving(addresses, interface, false) {
            Some(i) => Ok(i),
            None => {
                let mut message = String::from_str("Interface ");
                message.append(interface);
                message.append(" not found");
                Err(SRUNClientError::transport(message))
            },
        },
    }
}

} // verus!
