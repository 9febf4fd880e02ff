//! Fixed histogram bucket boundaries. They are part of the registry's
//! contract: set at construction, never mutated.

use vstd::prelude::*;

verus! {

/// Duration bucket upper bounds, in milliseconds.
pub open spec fn spec_duration_boundaries_ms() -> Seq<int> {
    seq![0, 5, 10, 25, 50, 75, 100, 250, 500, 750, 1000, 2500, 5000, 7500, 10000]
}

/// Size bucket upper bounds, in bytes: 1 KB, 2 KB, 5 KB, 10 KB, 100 KB,
/// 500 KB, 1 MB, 2.5 MB, 5 MB and 10 MB.
pub open spec fn spec_size_boundaries_bytes() -> Seq<int> {
    seq![
        1024,
        2048,
        5120,
        10240,
        102400,
        512000,
        1048576,
        2621440,
        5242880,
        10485760,
    ]
}

/// The duration bucket boundaries, in milliseconds.
pub fn duration_boundaries_ms() -> (v: Vec<u32>)
    ensures
        v@.map_values(|b: u32| b as int) == spec_duration_boundaries_ms(),
{
    let v = vec![
        0u32,
        5u32,
        10u32,
        25u32,
        50u32,
        75u32,
        100u32,
        250u32,
        500u32,
        750u32,
        1000u32,
        2500u32,
        5000u32,
        7500u32,
        10000u32,
    ];
    proof {
        assert(v@.map_values(|b: u32| b as int) =~= spec_duration_boundaries_ms());
    }
    v
}

/// The size bucket boundaries, in bytes.
pub fn size_boundaries_bytes() -> (v: Vec<u32>)
    ensures
        v@.map_values(|b: u32| b as int) == spec_size_boundaries_bytes(),
{
    let v = vec![
        1024u32,
        2048u32,
        5120u32,
        10240u32,
        102400u32,
        512000u32,
        1048576u32,
        2621440u32,
        5242880u32,
        10485760u32,
    ];
    proof {
        assert(v@.map_values(|b: u32| b as int) =~= spec_size_boundaries_bytes());
    }
    v
}

/// The index of the bucket a value falls into: the first boundary that is
/// at least the value, or one past the last bucket for larger values.
pub open spec fn spec_bucket_index(bounds: Seq<int>, v: int) -> int
    decreases bounds.len(),
{
    if bounds.len() == 0 {
        0
    } else if v <= bounds[0] {
        0
    } else {
        1 + spec_bucket_index(bounds.drop_first(), v)
    }
}

/// The bucket index is the count of boundaries below the value.
pub proof fn lemma_bucket_index_is(bounds: Seq<int>, v: int, i: int)
    requires
        0 <= i <= bounds.len(),
        forall|j: int| 0 <= j < i ==> bounds[j] < v,
        i < bounds.len() ==> v <= bounds[i],
    ensures
        spec_bucket_index(bounds, v) == i,
    decreases i,
{
    if bounds.len() == 0 {
    } else if i == 0 {
    } else {
        assert(bounds[0] < v);
        let rest = bounds.drop_first();
        assert(forall|j: int| 0 <= j < i - 1 ==> rest[j] == bounds[j + 1]);
        assert(i - 1 < rest.len() ==> v <= rest[i - 1]);
        lemma_bucket_index_is(rest, v, i - 1);
    }
}

/// Finds the bucket a value falls into.
pub fn bucket_index(bounds: &Vec<u32>, v: u64) -> (i: usize)
    ensures
        i == spec_bucket_index(bounds@.map_values(|b: u32| b as int), v as int),
{
    let ghost bs = bounds@.map_values(|b: u32| b as int);
    let mut i: usize = 0;
    while i < bounds.len() && (bounds[i] as u64) < v
        invariant
            0 <= i <= bounds@.len(),
            bs == bounds@.map_values(|b: u32| b as int),
            forall|j: int| 0 <= j < i ==> bs[j] < v,
        decreases bounds@.len() - i,
    {
        i = i + 1;
    }
    proof {
        lemma_bucket_index_is(bs, v as int, i as int);
    }
    i
}

/// A 120 ms observation falls into the bucket bounded by 100 ms below and
/// 250 ms above.
pub proof fn lemma_120ms_falls_in_100_250_bucket()
    ensures
        spec_duration_boundaries_ms()[6] == 100,
        spec_duration_boundaries_ms()[7] == 250,
        spec_bucket_index(spec_duration_boundaries_ms(), 120) == 7,
{
    lemma_bucket_index_is(spec_duration_boundaries_ms(), 120, 7);
}

} // verus!
