use vstd::prelude::*;
use vstd::set_lib::set_int_range;

verus! {

/// Index ordering convention of the transfer matrix columns. It decides which
/// pair of columns holds the rotational (Rz) degree of freedom that the
/// constraint system leaves out.
#[derive(Clone, Copy, Debug, PartialEq, Eq, Structural)]
pub enum Ordering {
    EndToEnd,
    Legacy,
}

impl Ordering {
    /// The convention that the dataset's end-to-end ordering flag selects.
    pub fn from_end_to_end_flag(end_to_end: bool) -> (r: Ordering)
        ensures
            r == (if end_to_end { Ordering::EndToEnd } else { Ordering::Legacy }),
    {
        if end_to_end {
            Ordering::EndToEnd
        } else {
            Ordering::Legacy
        }
    }
}

/// Columns of the transposed transfer matrix that are removed, under each
/// convention; `n_bm` is the number of bending modes.
pub open spec fn removed_columns(ordering: Ordering, n_bm: nat) -> (int, int) {
    match ordering {
        Ordering::EndToEnd => (41int, 82int + 1),
        Ordering::Legacy => ((12 + n_bm as int) * 6 + 5, (12 + n_bm as int) * 6 + 10 + 1),
    }
}

/// Columns of an `ncols`-column matrix that remain after removing the pair.
pub open spec fn kept_columns(ncols: int, pair: (int, int)) -> Set<int> {
    set_int_range(0, ncols).remove(pair.0).remove(pair.1)
}

/// A configured removal index that does not address a column of the matrix.
#[derive(Clone, Copy, Debug, PartialEq, Eq, Structural)]
pub struct RemovalOutOfRange {
    pub index: usize,
    pub ncols: usize,
}

/// The pair of columns to remove from a transposed transfer matrix with
/// `ncols` columns, or an error when the pair does not lie within them.
pub fn removal_pair(ordering: Ordering, n_bm: usize, ncols: usize) -> (r: Result<
    (usize, usize),
    RemovalOutOfRange,
>)
    ensures
        match r {
            Ok(p) => p.0 == removed_columns(ordering, n_bm as nat).0 && p.1 == removed_columns(
                ordering,
                n_bm as nat,
            ).1 && p.1 < ncols,
            Err(e) => removed_columns(ordering, n_bm as nat).1 >= ncols && e.ncols == ncols
                && e.index as int == (if removed_columns(ordering, n_bm as nat).1 <= usize::MAX {
                removed_columns(ordering, n_bm as nat).1
            } else {
                usize::MAX as int
            }),
        },
{
    match ordering {
        Ordering::EndToEnd => {
            let first: usize = 41;
            let second: usize = 82 + 1;
            if second < ncols {
                Ok((first, second))
            } else {
                Err(RemovalOutOfRange { index: second, ncols })
            }
        },
        Ordering::Legacy => {
            if n_bm > (usize::MAX - 11) / 6 - 12 {
                assert((12 + n_bm) * 6 + 10 + 1 > usize::MAX) by (nonlinear_arith)
                    requires
                        n_bm > (usize::MAX - 11) / 6 - 12,
                ;
                Err(RemovalOutOfRange { index: usize::MAX, ncols })
            } else {
                assert((12 + n_bm) * 6 + 10 + 1 <= usize::MAX) by (nonlinear_arith)
                    requires
                        n_bm <= (usize::MAX - 11) / 6 - 12,
                ;
                let base: usize = (12 + n_bm) * 6;
                let first: usize = base + 5;
                let second: usize = base + 10 + 1;
                if second < ncols {
                    Ok((first, second))
                } else {
                    Err(RemovalOutOfRange { index: second, ncols })
                }
            }
        },
    }
}

/// Under either convention and any number of bending modes, the removal pair
/// holds two distinct columns, the first before the second; removing it from a
/// matrix whose columns include the second leaves exactly two columns fewer.
pub proof fn lemma_removal_leaves_two_fewer(ordering: Ordering, n_bm: nat, ncols: int)
    requires
        removed_columns(ordering, n_bm).1 < ncols,
    ensures
        0 <= removed_columns(ordering, n_bm).0 < removed_columns(ordering, n_bm).1,
        kept_columns(ncols, removed_columns(ordering, n_bm)).finite(),
        kept_columns(ncols, removed_columns(ordering, n_bm)).len() == ncols - 2,
{
    let p = removed_columns(ordering, n_bm);
    let all = set_int_range(0, ncols);
    vstd::set_lib::lemma_int_range(0, ncols);
    assert(all.contains(p.0));
    assert(all.remove(p.0).contains(p.1));
}

} // verus!
