//! Metrics made of integer components

use vstd::prelude::*;

use crate::error::Error;

verus! {

/// Metric representing input / output bitrates (e.g. network throughput) in bytes/sec
#[derive(PartialEq, Eq, Structural, Debug, Copy, Clone)]
pub struct IOMetric {
    input: usize,
    output: usize,
}

impl IOMetric {
    /// The input rate
    pub closed spec fn spec_input(&self) -> usize {
        self.input
    }

    /// The output rate
    pub closed spec fn spec_output(&self) -> usize {
        self.output
    }

    /// The greater of the two rates
    pub open spec fn spec_max_value(&self) -> usize {
        if self.spec_input() >= self.spec_output() {
            self.spec_input()
        } else {
            self.spec_output()
        }
    }

    pub fn new(input: usize, output: usize) -> (m: Self)
        ensures
            m.spec_input() == input,
            m.spec_output() == output,
    {
        Self { input, output }
    }

    /// Returns 2, as a IOMetric is composed of two elements: the input and the output values
    pub fn cardinality(&self) -> (c: usize)
        ensures
            c == 2,
    {
        2
    }

    /// The component `index` of the metric: 0 is the input, 1 is the output; any other index
    /// is an error
    pub fn component(&self, index: usize) -> (r: Result<usize, Error>)
        ensures
            index == 0 ==> r == Ok::<usize, Error>(self.spec_input()),
            index == 1 ==> r == Ok::<usize, Error>(self.spec_output()),
            index >= 2 ==> (r matches Err(Error::RawMetricAccessError(i, c)) && i == index && c == 2),
    {
        match index {
            0 => Ok(self.input),
            1 => Ok(self.output),
            _ => Err(Error::RawMetricAccessError(index, self.cardinality())),
        }
    }

    /// Returns the highest component of the metric
    pub fn max_value(&self) -> (v: usize)
        ensures
            v == self.spec_max_value(),
    {
        if self.input >= self.output {
            self.input
        } else {
            self.output
        }
    }

    /// The unit of both components
    pub fn unit(&self) -> (u: &'static str)
        ensures
            u@ == "B/s"@,
    {
        "B/s"
    }

    /// Compares two metrics by their highest component
    pub fn is_less_than(&self, other: &IOMetric) -> (b: bool)
        ensures
            b == (self.spec_max_value() < other.spec_max_value()),
    {
        self.max_value() < other.max_value()
    }
}

impl Default for IOMetric {
    fn default() -> (m: Self)
        ensures
            m.spec_input() == 0,
            m.spec_output() == 0,
    {
        IOMetric::new(0, 0)
    }
}

} // verus!
