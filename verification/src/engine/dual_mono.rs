use vstd::prelude::*;

verus! {

/// `out` is `data` with every right sample of an interleaved stereo block
/// replaced by its left sample; a trailing sample without a partner stays.
pub open spec fn dual_mono_of<T>(data: Seq<T>) -> Seq<T> {
    Seq::new(
        data.len(),
        |i: int|
            if i % 2 == 1 {
                data[i - 1]
            } else {
                data[i]
            },
    )
}

/// Copies the left channel of an interleaved stereo block onto the right one:
/// in each pair of samples the second becomes the first. A trailing sample
/// without a partner is left as it is.
pub fn make_dual_mono<T: Copy>(data: &mut [T])
    ensures
        final(data)@ == dual_mono_of(old(data)@),
{
    let n = data.len();
    let mut i: usize = 0;
    while i + 1 < n
        invariant
            n == data@.len(),
            n == old(data)@.len(),
            i % 2 == 0,
            i <= n,
            forall|j: int| 0 <= j < i ==> #[trigger] data@[j] == dual_mono_of(old(data)@)[j],
            forall|j: int| i <= j < n ==> #[trigger] data@[j] == old(data)@[j],
        decreases n - i,
    {
        let left = data[i];
        data[i + 1] = left;
        i = i + 2;
    }
    assert(data@ =~= dual_mono_of(old(data)@));
}

/// Doing it twice changes nothing more than doing it once.
pub proof fn lemma_dual_mono_idempotent<T>(data: Seq<T>)
    ensures
        dual_mono_of(dual_mono_of(data)) == dual_mono_of(data),
{
    assert(dual_mono_of(dual_mono_of(data)) =~= dual_mono_of(data));
}

/// After it, each pair holds the same sample twice, and the left samples are
/// the ones the block had.
pub proof fn lemma_dual_mono_pairs<T>(data: Seq<T>, k: int)
    requires
        0 <= k,
        2 * k + 1 < data.len(),
    ensures
        dual_mono_of(data)[2 * k] == data[2 * k],
        dual_mono_of(data)[2 * k + 1] == data[2 * k],
{
}

} // verus!
