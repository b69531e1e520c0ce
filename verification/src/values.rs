//! Values measured on processes

use vstd::prelude::*;

use crate::decimal::{decimal_string, spec_decimal};

verus! {

/// A measured value, as a number of some type, with its unit
pub trait Value {
    type ValueType;

    /// The measured value
    fn value(&self) -> Self::ValueType;

    /// The unit of the measured value
    fn unit(&self) -> String;
}

/// Metric that has a value in bits / seconds
#[derive(PartialEq, Eq, Structural, PartialOrd, Ord, Debug, Clone, Copy)]
pub struct Bitrate {
    bitrate: u32,
}

impl Bitrate {
    /// The bitrate, in bits per second
    pub closed spec fn spec_bitrate(&self) -> u32 {
        self.bitrate
    }

    /// Returns a `Bitrate`
    /// # Arguments
    ///  * `bitrate` A positive value indicating a bitrate in bits/second
    pub fn new(bitrate: u32) -> (b: Bitrate)
        ensures
            b.spec_bitrate() == bitrate,
    {
        Bitrate { bitrate }
    }

    /// The bitrate as text: the number of bits per second, in base 10
    pub fn to_string(&self) -> (s: String)
        ensures
            s@ == spec_decimal(self.spec_bitrate() as nat),
    {
        decimal_string(self.bitrate as u64)
    }

    /// Is `self` a lower bitrate than `other`?
    pub fn is_less_than(&self, other: &Bitrate) -> (b: bool)
        ensures
            b == (self.spec_bitrate() < other.spec_bitrate()),
    {
        self.bitrate < other.bitrate
    }
}

impl Value for Bitrate {
    type ValueType = u32;

    fn value(&self) -> (v: u32)
        ensures
            v == self.spec_bitrate(),
    {
        self.bitrate
    }

    fn unit(&self) -> (u: String)
        ensures
            u@ == "bps"@,
    {
        String::from_str("bps")
    }
}

/// Metric that has a value in bits / seconds, displayed with its unit
#[derive(PartialEq, Eq, Structural, PartialOrd, Ord, Debug, Clone, Copy)]
pub struct BitrateValue {
    bitrate: u32,
}

impl BitrateValue {
    /// The bitrate, in bits per second
    pub closed spec fn spec_bitrate(&self) -> u32 {
        self.bitrate
    }

    /// Returns a `BitrateValue`
    /// # Arguments
    ///  * `bitrate` A positive value indicating a bitrate in bits/second
    pub fn new(bitrate: u32) -> (b: BitrateValue)
        ensures
            b.spec_bitrate() == bitrate,
    {
        BitrateValue { bitrate }
    }

    /// The bitrate as text: the number of bits per second in base 10, then `" b/s"`
    pub fn to_string(&self) -> (s: String)
        ensures
            s@ == spec_decimal(self.spec_bitrate() as nat) + " b/s"@,
    {
        let mut s = decimal_string(self.bitrate as u64);
        s.append(" b/s");
        s
    }

    /// Is `self` a lower bitrate than `other`?
    pub fn is_less_than(&self, other: &BitrateValue) -> (b: bool)
        ensures
            b == (self.spec_bitrate() < other.spec_bitrate()),
    {
        self.bitrate < other.bitrate
    }
}

impl Value for BitrateValue {
    type ValueType = u32;

    fn value(&self) -> (v: u32)
        ensures
            v == self.spec_bitrate(),
    {
        self.bitrate
    }

    fn unit(&self) -> (u: String)
        ensures
            u@ == "b/s"@,
    {
        String::from_str("b/s")
    }
}

} // verus!
