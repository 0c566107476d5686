//! Verified core of a bridge between the Stromer e-bike cloud API and MQTT.
use vstd::prelude::*;

pub mod text;
pub mod changes;
pub mod mqtt;
pub mod stromerapi;
pub mod bike;
pub mod hassdiscovery;
pub mod bridge;

verus! {

} // verus!
