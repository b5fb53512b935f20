//! The deterministic generator of the benchmark's sequence of transforms.
use vstd::prelude::*;

use crate::transform::{Point2D, Transform};

verus! {

/// The scalars that the generator derives from one index `i` of a run of
/// `size` indices: `cosa = i / size`, `sina = sqrt(1 - cosa * cosa)`,
/// `x = 10 * cosa`, `y = i`, and `multiplier = 2 * cosa`.
#[derive(Clone, Copy, Debug, PartialEq)]
pub struct Sample<T> {
    pub cosa: T,
    pub sina: T,
    pub x: T,
    pub y: T,
    pub multiplier: T,
}

/// The transforms appended for index `i`, in this order: `NoChange` unless
/// `i % 4 == 0`, `RigidChange` unless `i % 4 == 1`, `Scale` unless
/// `i % 4 == 2`, and `ExtraVertex` unless `i % 4 == 3`.
pub open spec fn block<T>(i: int, s: Sample<T>) -> Seq<Transform<T>> {
    let m = i % 4;
    (if m != 0 {
        seq![Transform::NoChange]
    } else {
        Seq::empty()
    }) + (if m != 1 {
        seq![Transform::RigidChange { cosa: s.cosa, sina: s.sina, offset: Point2D { x: s.x, y: s.y } }]
    } else {
        Seq::empty()
    }) + (if m != 2 {
        seq![Transform::Scale { multiplier: s.multiplier }]
    } else {
        Seq::empty()
    }) + (if m != 3 {
        seq![Transform::ExtraVertex { insertion_idx: i as u64, vertex: Point2D { x: s.y, y: s.x } }]
    } else {
        Seq::empty()
    })
}

/// The whole generated sequence: the blocks of the indices `0, 1, ...`, one
/// after the other.
pub open spec fn generated<T>(samples: Seq<Sample<T>>) -> Seq<Transform<T>>
    decreases samples.len(),
{
    if samples.len() == 0 {
        Seq::empty()
    } else {
        let n = samples.len() - 1;
        generated(samples.take(n)) + block(n, samples[n])
    }
}

/// Each index contributes three transforms.
pub proof fn lemma_block_len<T>(i: int, s: Sample<T>)
    ensures
        block(i, s).len() == 3,
{
}

/// The generated sequence holds three transforms per index.
pub proof fn lemma_generated_len<T>(samples: Seq<Sample<T>>)
    ensures
        generated(samples).len() == 3 * samples.len(),
    decreases samples.len(),
{
    if samples.len() > 0 {
        let n = samples.len() - 1;
        lemma_generated_len(samples.take(n));
        lemma_block_len(n, samples[n]);
    }
}

/// For every index `i`, the three transforms at positions `3 * i .. 3 * i + 3`
/// are the block of `i`, built from the scalars of index `i`: of the four
/// variants exactly one is left out, the one whose position in the
/// declaration equals `i % 4`, and the other three come in declaration order.
pub proof fn lemma_one_variant_skipped_per_index<T>(samples: Seq<Sample<T>>, i: int)
    requires
        0 <= i < samples.len(),
    ensures
        generated(samples).subrange(3 * i, 3 * i + 3) == block(i, samples[i]),
        forall|j: int|
            #![trigger generated(samples)[3 * i + j]]
            0 <= j < 3 ==> generated(samples)[3 * i + j].kind() == (if j < i % 4 {
                j
            } else {
                j + 1
            }),
        forall|j: int|
            #![trigger generated(samples)[3 * i + j]]
            0 <= j < 3 ==> generated(samples)[3 * i + j].kind() != i % 4,
    decreases samples.len(),
{
    let n = samples.len() - 1;
    let prefix = samples.take(n);
    lemma_generated_len(prefix);
    lemma_block_len(n, samples[n]);
    let whole = generated(samples);
    if i == n {
        assert(whole.subrange(3 * i, 3 * i + 3) =~= block(i, samples[i]));
    } else {
        lemma_one_variant_skipped_per_index(prefix, i);
        assert(whole.subrange(3 * i, 3 * i + 3) =~= generated(prefix).subrange(3 * i, 3 * i + 3));
    }
    let b = block(i, samples[i]);
    assert forall|j: int| 0 <= j < 3 implies whole[3 * i + j] == b[j] by {
        assert(whole.subrange(3 * i, 3 * i + 3)[j] == whole[3 * i + j]);
    }
}

/// Builds the benchmark's sequence from the scalars of each index in turn:
/// the blocks of the indices `0, 1, ...`, three transforms per index.
pub fn create_test_data<T: Copy>(samples: &Vec<Sample<T>>) -> (r: Vec<Transform<T>>)
    ensures
        r@ == generated(samples@),
        r@.len() == 3 * samples@.len(),
{
    let mut data: Vec<Transform<T>> = Vec::new();
    let mut i: usize = 0;
    while i < samples.len()
        invariant
            i <= samples@.len(),
            data@ == generated(samples@.take(i as int)),
        decreases samples@.len() - i,
    {
        let s = samples[i];
        let ghost before = data@;
        if i % 4 != 0 {
            data.push(Transform::NoChange);
        }
        if i % 4 != 1 {
            data.push(
                Transform::RigidChange { cosa: s.cosa, sina: s.sina, offset: Point2D { x: s.x, y: s.y } },
            );
        }
        if i % 4 != 2 {
            data.push(Transform::Scale { multiplier: s.multiplier });
        }
        if i % 4 != 3 {
            data.push(
                Transform::ExtraVertex { insertion_idx: i as u64, vertex: Point2D { x: s.y, y: s.x } },
            );
        }
        proof {
            assert(data@ =~= before + block(i as int, s));
            assert(samples@.take(i + 1).take(i as int) =~= samples@.take(i as int));
        }
        i += 1;
    }
    proof {
        assert(samples@.take(i as int) =~= samples@);
        lemma_generated_len(samples@);
    }
    data
}

} // verus!
