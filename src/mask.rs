use vstd::prelude::*;

verus! {

/// The mask as a sequence of per-segment boolean sequences.
pub open spec fn mask_view(mask: Seq<Vec<bool>>) -> Seq<Seq<bool>> {
    mask.map_values(|seg: Vec<bool>| seg@)
}

/// Positions `(segment, index)` of the true entries of one segment, in ascending index order.
pub open spec fn segment_positions(s: int, seg: Seq<bool>) -> Seq<(int, int)>
    decreases seg.len(),
{
    if seg.len() == 0 {
        Seq::empty()
    } else {
        let prev = segment_positions(s, seg.drop_last());
        if seg.last() {
            prev.push((s, seg.len() - 1))
        } else {
            prev
        }
    }
}

/// Positions of all true entries of the mask: segment-major, then index-ascending.
pub open spec fn valid_positions(mask: Seq<Seq<bool>>) -> Seq<(int, int)>
    decreases mask.len(),
{
    if mask.len() == 0 {
        Seq::empty()
    } else {
        valid_positions(mask.drop_last()) + segment_positions(mask.len() - 1, mask.last())
    }
}

/// Number of true entries in one segment.
pub open spec fn segment_count(seg: Seq<bool>) -> nat
    decreases seg.len(),
{
    if seg.len() == 0 {
        0
    } else {
        segment_count(seg.drop_last()) + if seg.last() { 1nat } else { 0nat }
    }
}

/// Number of true entries over all segments.
pub open spec fn valid_count(mask: Seq<Seq<bool>>) -> nat
    decreases mask.len(),
{
    if mask.len() == 0 {
        0
    } else {
        valid_count(mask.drop_last()) + segment_count(mask.last())
    }
}

/// The frame values that the mask selects. Within a segment, a true entry at
/// index `j` selects the frame value at index `j`.
pub open spec fn valid_values<T>(frame: Seq<T>, mask: Seq<Seq<bool>>) -> Seq<T> {
    valid_positions(mask).map_values(|p: (int, int)| frame[p.1])
}

/// Every true entry of the mask indexes into a frame of length `len`.
pub open spec fn mask_fits(len: nat, mask: Seq<Seq<bool>>) -> bool {
    forall|s: int, j: int|
        0 <= s < mask.len() && 0 <= j < mask[s].len() && #[trigger] mask[s][j] ==> j < len
}

proof fn lemma_segment_positions(s: int, seg: Seq<bool>)
    ensures
        segment_positions(s, seg).len() == segment_count(seg),
        forall|i: int|
            0 <= i < segment_positions(s, seg).len() ==> {
                let p = #[trigger] segment_positions(s, seg)[i];
                p.0 == s && 0 <= p.1 < seg.len() && seg[p.1]
            },
        forall|i: int, k: int|
            0 <= i < k < segment_positions(s, seg).len() ==> #[trigger] segment_positions(s, seg)[i].1
                < #[trigger] segment_positions(s, seg)[k].1,
    decreases seg.len(),
{
    if seg.len() > 0 {
        lemma_segment_positions(s, seg.drop_last());
    }
}

/// Lexicographic order on `(segment, index)` positions.
pub open spec fn position_before(a: (int, int), b: (int, int)) -> bool {
    a.0 < b.0 || (a.0 == b.0 && a.1 < b.1)
}

/// The extractor's positions: there are as many as true entries, each names a
/// true entry of the mask, and they come in strictly increasing segment-major,
/// then index-ascending order. So the `i`-th output is the `i`-th true entry.
pub proof fn lemma_valid_positions(mask: Seq<Seq<bool>>)
    ensures
        valid_positions(mask).len() == valid_count(mask),
        forall|i: int|
            0 <= i < valid_positions(mask).len() ==> {
                let p = #[trigger] valid_positions(mask)[i];
                0 <= p.0 < mask.len() && 0 <= p.1 < mask[p.0].len() && mask[p.0][p.1]
            },
        forall|i: int, k: int|
            0 <= i < k < valid_positions(mask).len() ==> position_before(
                #[trigger] valid_positions(mask)[i],
                #[trigger] valid_positions(mask)[k],
            ),
    decreases mask.len(),
{
    if mask.len() > 0 {
        let init = mask.drop_last();
        lemma_valid_positions(init);
        lemma_segment_positions(mask.len() - 1, mask.last());
        let a = valid_positions(init);
        let b = segment_positions(mask.len() - 1, mask.last());
        assert(valid_positions(mask) == a + b);
        assert forall|i: int|
            0 <= i < valid_positions(mask).len() implies {
                let p = #[trigger] valid_positions(mask)[i];
                0 <= p.0 < mask.len() && 0 <= p.1 < mask[p.0].len() && mask[p.0][p.1]
            } by {
            if i < a.len() {
                assert(valid_positions(mask)[i] == a[i]);
                assert(mask[a[i].0] == init[a[i].0]);
            } else {
                assert(valid_positions(mask)[i] == b[i - a.len()]);
            }
        }
        assert forall|i: int, k: int|
            0 <= i < k < valid_positions(mask).len() implies position_before(
                #[trigger] valid_positions(mask)[i],
                #[trigger] valid_positions(mask)[k],
            ) by {
            if k < a.len() {
                assert(valid_positions(mask)[i] == a[i]);
                assert(valid_positions(mask)[k] == a[k]);
            } else if i < a.len() {
                assert(valid_positions(mask)[i] == a[i]);
                assert(valid_positions(mask)[k] == b[k - a.len()]);
            } else {
                assert(valid_positions(mask)[i] == b[i - a.len()]);
                assert(valid_positions(mask)[k] == b[k - a.len()]);
            }
        }
    }
}

/// The extractor's output has one entry per true mask entry, and its `i`-th
/// entry is the frame value at the index of the `i`-th true entry.
pub proof fn lemma_valid_values<T>(frame: Seq<T>, mask: Seq<Seq<bool>>)
    ensures
        valid_values(frame, mask).len() == valid_count(mask),
        forall|i: int|
            0 <= i < valid_count(mask) ==> #[trigger] valid_values(frame, mask)[i]
                == frame[valid_positions(mask)[i].1],
{
    lemma_valid_positions(mask);
}

/// Whether every true entry of the mask indexes into a frame of length `len`.
pub fn mask_fits_frame(mask: &Vec<Vec<bool>>, len: usize) -> (r: bool)
    ensures
        r == mask_fits(len as nat, mask_view(mask@)),
{
    let mut s: usize = 0;
    while s < mask.len()
        invariant
            s <= mask@.len(),
            forall|t: int, j: int|
                0 <= t < s && 0 <= j < mask@[t]@.len() && #[trigger] mask@[t]@[j] ==> j < len,
        decreases mask@.len() - s,
    {
        let seg = &mask[s];
        let mut j: usize = 0;
        while j < seg.len()
            invariant
                j <= seg@.len(),
                s < mask@.len(),
                *seg == mask@[s as int],
                forall|t: int, k: int|
                    0 <= t < s && 0 <= k < mask@[t]@.len() && #[trigger] mask@[t]@[k] ==> k < len,
                forall|k: int| 0 <= k < j && #[trigger] seg@[k] ==> k < len,
            decreases seg@.len() - j,
        {
            if seg[j] && j >= len {
                assert(mask_view(mask@)[s as int] == seg@);
                assert(mask_view(mask@)[s as int][j as int]);
                return false;
            }
            j += 1;
        }
        s += 1;
    }
    assert forall|t: int, j: int|
        0 <= t < mask_view(mask@).len() && 0 <= j < mask_view(mask@)[t].len()
            && #[trigger] mask_view(mask@)[t][j] implies j < len by {
        assert(mask_view(mask@)[t] == mask@[t]@);
    }
    true
}

/// Compacts a frame into the values that the mask marks valid: segments in
/// mask order, and within a segment the frame values at the true indices, in
/// ascending order.
pub fn extract_valid<T: Copy>(frame: &Vec<T>, mask: &Vec<Vec<bool>>) -> (r: Vec<T>)
    requires
        mask_fits(frame@.len(), mask_view(mask@)),
    ensures
        r@ == valid_values(frame@, mask_view(mask@)),
        r@.len() == valid_count(mask_view(mask@)),
{
    let ghost mv = mask_view(mask@);
    let mut r: Vec<T> = Vec::new();
    let mut s: usize = 0;
    while s < mask.len()
        invariant
            s <= mask@.len(),
            mv == mask_view(mask@),
            mask_fits(frame@.len(), mv),
            r@.len() == valid_positions(mv.take(s as int)).len(),
            forall|i: int|
                0 <= i < r@.len() ==> #[trigger] r@[i] == frame@[valid_positions(
                    mv.take(s as int),
                )[i].1],
        decreases mask@.len() - s,
    {
        let seg = &mask[s];
        assert(mv[s as int] == seg@);
        let ghost base = valid_positions(mv.take(s as int));
        let mut j: usize = 0;
        while j < seg.len()
            invariant
                j <= seg@.len(),
                s < mask@.len(),
                mv == mask_view(mask@),
                mv[s as int] == seg@,
                mask_fits(frame@.len(), mv),
                base == valid_positions(mv.take(s as int)),
                r@.len() == (base + segment_positions(s as int, seg@.take(j as int))).len(),
                forall|i: int|
                    0 <= i < r@.len() ==> #[trigger] r@[i] == frame@[(base + segment_positions(
                        s as int,
                        seg@.take(j as int),
                    ))[i].1],
            decreases seg@.len() - j,
        {
            let ghost prev = segment_positions(s as int, seg@.take(j as int));
            assert(seg@.take(j + 1).drop_last() =~= seg@.take(j as int));
            if seg[j] {
                assert(mv[s as int][j as int]);
                r.push(frame[j]);
                assert(segment_positions(s as int, seg@.take(j + 1)) == prev.push((s as int, j as int)));
                assert((base + prev.push((s as int, j as int))) =~= (base + prev).push((s as int, j as int)));
            } else {
                assert(segment_positions(s as int, seg@.take(j + 1)) == prev);
            }
            j += 1;
        }
        assert(seg@.take(seg@.len() as int) =~= seg@);
        assert(mv.take(s + 1).drop_last() =~= mv.take(s as int));
        assert(valid_positions(mv.take(s + 1)) == base + segment_positions(s as int, seg@));
        s += 1;
    }
    assert(mv.take(mask@.len() as int) =~= mv);
    proof {
        lemma_valid_positions(mv);
    }
    assert(r@ =~= valid_values(frame@, mv));
    r
}

} // verus!
