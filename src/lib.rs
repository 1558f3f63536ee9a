//! Passive discovery of devices on a local network segment: frames are
//! dissected into identity records, de-duplicated by hardware address and
//! handed to a consumer in discovery order.

pub mod capture;
pub mod parsers;
