//! Internet addresses and their IPv4 class.
use vstd::prelude::*;

verus! {

/// An internet address: four octets, or an IPv6 address held as text.
pub enum IpAddr {
    V4(u8, u8, u8, u8),
    V6(String),
}

/// The class of an IPv4 address whose first octet is `first`.
pub open spec fn class_of(first: u8) -> char {
    if first <= 127 {
        'A'
    } else if first <= 191 {
        'B'
    } else if first <= 223 {
        'C'
    } else if first <= 239 {
        'D'
    } else {
        'E'
    }
}

impl IpAddr {
    /// The class of an IPv4 address, decided by its first octet; IPv6
    /// addresses have none.
    pub fn ip_class(&self) -> (r: Option<char>)
        ensures
            r == match *self {
                IpAddr::V4(a, _, _, _) => Some(class_of(a)),
                IpAddr::V6(_) => None,
            },
    {
        match self {
            IpAddr::V4(a, _, _, _) => Some(
                match *a {
                    0..=127 => 'A',
                    128..=191 => 'B',
                    192..=223 => 'C',
                    224..=239 => 'D',
                    _ => 'E',
                },
            ),
            IpAddr::V6(_) => None,
        }
    }
}

} // verus!
