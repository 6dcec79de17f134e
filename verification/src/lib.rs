//! The verified core of an ICMP echo sweep over an IPv4 address range: the
//! packet codec, the address range producer, the round-robin dispatcher, the
//! send and receive worker decision logic, and the result records they
//! produce. The surrounding process — sockets, threads, the on-disk store,
//! the command line — lives outside and hands this library plain values.
pub mod codec;
pub mod dispatch;
pub mod filter;
pub mod range;
pub mod record;
pub mod sys;
pub mod text;
pub mod worker;
