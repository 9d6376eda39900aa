//! Property-change events and the metric points built from them.
use vstd::prelude::*;

use crate::normalize::{normalize, reading_of, Reading};

verus! {

/// A property of a device took a new value, or reported its first one.
pub struct PropertyChange<F> {
    pub device_id: String,
    pub node_id: String,
    pub property_id: String,
    /// The value as the device reported it.
    pub value: String,
    /// `value` read as a number, where it reads as one.
    pub parsed: Option<F>,
    /// Whether this is the first value reported since subscribing.
    pub fresh: bool,
}

/// One normalized value with the device, node and property it belongs to.
pub struct MetricPoint<F> {
    pub value: Reading<F>,
    pub device_id: String,
    pub node_id: String,
    pub property_id: String,
}

/// The point that a property change gives.
pub open spec fn point_of<F>(c: PropertyChange<F>) -> MetricPoint<F> {
    MetricPoint {
        value: reading_of(c.value@, c.parsed),
        device_id: c.device_id,
        node_id: c.node_id,
        property_id: c.property_id,
    }
}

/// Assembles a point from a value and its three dimensions, empty ones included.
pub fn build_point<F>(value: Reading<F>, device_id: String, node_id: String, property_id: String) -> (r: MetricPoint<F>)
    ensures
        r == (MetricPoint { value, device_id, node_id, property_id }),
{
    MetricPoint { value, device_id, node_id, property_id }
}

impl<F: Copy> MetricPoint<F> {
    /// A copy of the point.
    pub fn duplicate(&self) -> (r: MetricPoint<F>)
        ensures
            r == *self,
    {
        build_point(self.value.duplicate(), self.device_id.clone(), self.node_id.clone(), self.property_id.clone())
    }
}

/// Normalizes the value of a property change and builds its point.
pub fn point_for<F: Copy>(change: &PropertyChange<F>) -> (r: MetricPoint<F>)
    ensures
        r == point_of(*change),
{
    let value = normalize(change.value.as_str(), change.parsed);
    build_point(value, change.device_id.clone(), change.node_id.clone(), change.property_id.clone())
}

/// One point per property change, in order, each keeping the identifiers of its change.
pub fn build_points<F: Copy>(changes: &Vec<PropertyChange<F>>) -> (r: Vec<MetricPoint<F>>)
    ensures
        r@.len() == changes@.len(),
        forall|i: int| 0 <= i < changes@.len() ==> r@[i] == point_of(#[trigger] changes@[i]),
{
    let mut points: Vec<MetricPoint<F>> = Vec::new();
    let mut i: usize = 0;
    while i < changes.len()
        invariant
            i <= changes@.len(),
            points@.len() == i,
            forall|j: int| 0 <= j < i ==> points@[j] == point_of(#[trigger] changes@[j]),
        decreases changes@.len() - i,
    {
        points.push(point_for(&changes[i]));
        i = i + 1;
    }
    points
}

} // verus!
