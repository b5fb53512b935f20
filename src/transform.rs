//! The closed set of transforms and the dispatch that reduces one to a scalar.
use vstd::prelude::*;

verus! {

/// A plain two-dimensional point.
#[derive(Clone, Copy, Debug, PartialEq)]
pub struct Point2D<T> {
    pub x: T,
    pub y: T,
}

/// A tagged union of four shapes, each with its own payload.
#[derive(Clone, Copy, Debug, PartialEq)]
pub enum Transform<T> {
    NoChange,
    RigidChange { cosa: T, sina: T, offset: Point2D<T> },
    Scale { multiplier: T },
    ExtraVertex { insertion_idx: u64, vertex: Point2D<T> },
}

impl<T> Transform<T> {
    /// The position of the variant in the declaration: 0 for `NoChange`
    /// up to 3 for `ExtraVertex`.
    pub open spec fn kind(self) -> nat {
        match self {
            Transform::NoChange => 0,
            Transform::RigidChange { .. } => 1,
            Transform::Scale { .. } => 2,
            Transform::ExtraVertex { .. } => 3,
        }
    }

    /// The scalar that dispatch reads from the transform, where `unit` is the
    /// scalar one: `unit` for `NoChange`, the cosine of a rigid change, the
    /// multiplier of a scale, and the x coordinate of an extra vertex.
    pub open spec fn reading(self, unit: T) -> T {
        match self {
            Transform::NoChange => unit,
            Transform::RigidChange { cosa, .. } => cosa,
            Transform::Scale { multiplier } => multiplier,
            Transform::ExtraVertex { vertex, .. } => vertex.x,
        }
    }
}

/// Reduces a transform to one scalar by branching on its variant; `unit` is
/// the value of the scalar one, which stands for `NoChange`.
pub fn calc_with_match<T: Copy>(transform: &Transform<T>, unit: T) -> (r: T)
    ensures
        r == transform.reading(unit),
{
    match transform {
        Transform::NoChange => unit,
        Transform::RigidChange { cosa, sina: _, offset: _ } => *cosa,
        Transform::Scale { multiplier } => *multiplier,
        Transform::ExtraVertex { insertion_idx: _, vertex } => vertex.x,
    }
}

/// Dispatch is a function of its arguments: equal transforms give equal
/// readings.
pub proof fn lemma_reading_is_deterministic<T>(a: Transform<T>, b: Transform<T>, unit: T)
    requires
        a == b,
    ensures
        a.reading(unit) == b.reading(unit),
{
}

/// `NoChange` always reads as the scalar one.
pub proof fn lemma_no_change_reads_unit<T>(t: Transform<T>, unit: T)
    requires
        (t is NoChange),
    ensures
        t.reading(unit) == unit,
{
}

/// A rigid change reads as its cosine alone: two rigid changes with the same
/// cosine read the same, whatever their sines and offsets.
pub proof fn lemma_rigid_change_reads_cosine<T>(a: Transform<T>, b: Transform<T>, unit: T)
    requires
        (a is RigidChange),
        (b is RigidChange),
        a->cosa == b->cosa,
    ensures
        a.reading(unit) == a->cosa,
        a.reading(unit) == b.reading(unit),
{
}

/// An extra vertex reads as the x coordinate of its vertex alone: two extra
/// vertices whose vertices share x read the same, whatever their insertion
/// indices and y coordinates.
pub proof fn lemma_extra_vertex_reads_x<T>(a: Transform<T>, b: Transform<T>, unit: T)
    requires
        (a is ExtraVertex),
        (b is ExtraVertex),
        a->vertex.x == b->vertex.x,
    ensures
        a.reading(unit) == a->vertex.x,
        a.reading(unit) == b.reading(unit),
{
}

} // verus!
