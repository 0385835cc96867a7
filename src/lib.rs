//! A small deterministic tape automaton, and the classification of IPv4
//! addresses by their first octet.
pub mod ip_addr;
pub mod machine;
pub mod theorems;
