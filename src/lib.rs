//! A control-point client for UPnP/SOAP audio devices: typed actions, SOAP
//! envelope encoding, response cleaning and typed payload decoding.
use vstd::prelude::*;

pub mod text;
pub mod xml;
pub mod codec;
pub mod services;
pub mod parse_utils;
pub mod actions;
pub mod speaker;
pub mod control;

verus! {

} // verus!
