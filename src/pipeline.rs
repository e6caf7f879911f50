use vstd::prelude::*;

use crate::constraint::{removal_pair, removed_columns, Ordering, RemovalOutOfRange};
use crate::mask::{extract_valid, mask_fits, mask_fits_frame, mask_view, valid_count, valid_values};

verus! {

/// A fault that ends one solve.
#[derive(Clone, Copy, Debug, PartialEq, Eq, Structural)]
pub enum PipelineError {
    /// The command-space dimension is zero.
    EmptyCommandSpace,
    /// The interaction matrix's length is no multiple of the command dimension.
    InteractionShape { len: usize, nc: usize },
    /// A weighting matrix is not `nc × nc`.
    WeightShape { len: usize, nc: usize },
    /// The transfer matrix's length disagrees with its stated shape.
    TransferShape { len: usize, rows: usize, cols: usize },
    /// A removal index lies outside the transposed transfer matrix.
    RemovalOutOfRange { index: usize, ncols: usize },
    /// The constraint matrix's column count differs from the command dimension.
    ConstraintWidth { cols: usize, nc: usize },
    /// A bound vector's length differs from the constraint matrix's row count.
    BoundLength { len: usize, rows: usize },
    /// The mask selects an index beyond the end of the frame.
    MaskExceedsFrame { frame_len: usize },
    /// The number of valid measurements differs from the interaction matrix's row count.
    MeasurementCount { expected: usize, found: usize },
    /// The solver refused to set the problem up.
    SolverSetup,
    /// The solver returned no solution.
    SolverFailed,
    /// The solver's command vector has the wrong length.
    SolutionLength { len: usize, nc: usize },
}

/// Lengths and shapes of the calibration dataset's tensors, as loaded.
#[derive(Clone, Copy, Debug, PartialEq, Eq, Structural)]
pub struct DatasetSizes {
    /// Command-space dimension.
    pub nc: usize,
    /// Length of the flat interaction matrix (column-major `nc × ns`).
    pub d_len: usize,
    pub w2_len: usize,
    pub w3_len: usize,
    /// Stored shape of the transfer matrix, before transposition.
    pub tu_rows: usize,
    pub tu_cols: usize,
    pub tu_len: usize,
    pub umin_len: usize,
    pub umax_len: usize,
}

/// Configuration of the assembly. `remove_mean_slopes` and `update_rho3` are
/// accepted and not acted on: no stage reads them.
#[derive(Clone, Copy, Debug, PartialEq, Eq, Structural)]
pub struct AssemblyConfig {
    pub ordering: Ordering,
    /// Number of bending modes, used by the legacy ordering.
    pub n_bm: usize,
    pub remove_mean_slopes: bool,
    pub update_rho3: bool,
}

/// The validated shape of the quadratic program.
#[derive(Clone, Copy, Debug, PartialEq, Eq, Structural)]
pub struct ProblemPlan {
    /// Command-space dimension.
    pub nc: usize,
    /// Number of valid measurements, the interaction matrix's row count.
    pub ns: usize,
    /// Shape of the constraint matrix: the transposed transfer matrix less two columns.
    pub a_rows: usize,
    pub a_cols: usize,
    /// Columns removed from the transposed transfer matrix, in ascending order.
    pub removed_first: usize,
    pub removed_second: usize,
}

/// What planning gives on the given sizes: the first failing check, in the
/// order interaction matrix, weights, transfer matrix, removal pair,
/// constraint width, bounds; or the plan.
pub open spec fn plan_spec(sizes: DatasetSizes, config: AssemblyConfig) -> Result<ProblemPlan, PipelineError> {
    let nc = sizes.nc as int;
    let pair = removed_columns(config.ordering, config.n_bm as nat);
    if nc == 0 {
        Err(PipelineError::EmptyCommandSpace)
    } else if sizes.d_len as int % nc != 0 {
        Err(PipelineError::InteractionShape { len: sizes.d_len, nc: sizes.nc })
    } else if sizes.w2_len as int != nc * nc {
        Err(PipelineError::WeightShape { len: sizes.w2_len, nc: sizes.nc })
    } else if sizes.w3_len as int != nc * nc {
        Err(PipelineError::WeightShape { len: sizes.w3_len, nc: sizes.nc })
    } else if sizes.tu_len as int != sizes.tu_rows as int * sizes.tu_cols as int {
        Err(PipelineError::TransferShape { len: sizes.tu_len, rows: sizes.tu_rows, cols: sizes.tu_cols })
    } else if pair.1 >= sizes.tu_rows {
        Err(
            PipelineError::RemovalOutOfRange {
                index: if pair.1 <= usize::MAX { pair.1 as usize } else { usize::MAX },
                ncols: sizes.tu_rows,
            },
        )
    } else if sizes.tu_rows - 2 != nc {
        Err(PipelineError::ConstraintWidth { cols: (sizes.tu_rows - 2) as usize, nc: sizes.nc })
    } else if sizes.umin_len != sizes.tu_cols {
        Err(PipelineError::BoundLength { len: sizes.umin_len, rows: sizes.tu_cols })
    } else if sizes.umax_len != sizes.tu_cols {
        Err(PipelineError::BoundLength { len: sizes.umax_len, rows: sizes.tu_cols })
    } else {
        Ok(
            ProblemPlan {
                nc: sizes.nc,
                ns: (sizes.d_len as int / nc) as usize,
                a_rows: sizes.tu_cols,
                a_cols: sizes.nc,
                removed_first: pair.0 as usize,
                removed_second: pair.1 as usize,
            },
        )
    }
}

/// Whether `len == a * b`, without overflow.
fn is_product(len: usize, a: usize, b: usize) -> (r: bool)
    ensures
        r == (len as int == a as int * b as int),
{
    if a == 0 {
        assert(a as int * b as int == 0);
        len == 0
    } else {
        let q = len / a;
        let m = len % a;
        proof {
            vstd::arithmetic::div_mod::lemma_fundamental_div_mod(len as int, a as int);
            if len as int == a as int * b as int {
                vstd::arithmetic::div_mod::lemma_div_multiples_vanish(b as int, a as int);
                vstd::arithmetic::mul::lemma_mul_is_commutative(a as int, b as int);
                vstd::arithmetic::div_mod::lemma_mod_multiples_basic(b as int, a as int);
            }
        }
        m == 0 && q == b
    }
}

/// Checks the dataset's tensor shapes against each other and the
/// configuration, and gives the shape of the quadratic program.
pub fn plan_problem(sizes: DatasetSizes, config: AssemblyConfig) -> (r: Result<ProblemPlan, PipelineError>)
    ensures
        r == plan_spec(sizes, config),
{
    let nc = sizes.nc;
    if nc == 0 {
        return Err(PipelineError::EmptyCommandSpace);
    }
    if sizes.d_len % nc != 0 {
        return Err(PipelineError::InteractionShape { len: sizes.d_len, nc });
    }
    if !is_product(sizes.w2_len, nc, nc) {
        return Err(PipelineError::WeightShape { len: sizes.w2_len, nc });
    }
    if !is_product(sizes.w3_len, nc, nc) {
        return Err(PipelineError::WeightShape { len: sizes.w3_len, nc });
    }
    if !is_product(sizes.tu_len, sizes.tu_rows, sizes.tu_cols) {
        return Err(
            PipelineError::TransferShape { len: sizes.tu_len, rows: sizes.tu_rows, cols: sizes.tu_cols },
        );
    }
    let pair = match removal_pair(config.ordering, config.n_bm, sizes.tu_rows) {
        Ok(p) => p,
        Err(e) => {
            return Err(PipelineError::RemovalOutOfRange { index: e.index, ncols: e.ncols });
        },
    };
    if sizes.tu_rows - 2 != nc {
        return Err(PipelineError::ConstraintWidth { cols: sizes.tu_rows - 2, nc });
    }
    if sizes.umin_len != sizes.tu_cols {
        return Err(PipelineError::BoundLength { len: sizes.umin_len, rows: sizes.tu_cols });
    }
    if sizes.umax_len != sizes.tu_cols {
        return Err(PipelineError::BoundLength { len: sizes.umax_len, rows: sizes.tu_cols });
    }
    Ok(ProblemPlan { nc, ns: sizes.d_len / nc, a_rows: sizes.tu_cols, a_cols: nc,
        removed_first: pair.0,
        removed_second: pair.1,
    })
}

/// Planning keeps no state: the same sizes and configuration give the same
/// plan, or the same error, every time.
pub proof fn lemma_plan_deterministic(
    sizes: DatasetSizes,
    config: AssemblyConfig,
    sizes2: DatasetSizes,
    config2: AssemblyConfig,
)
    requires
        sizes == sizes2,
        config == config2,
    ensures
        plan_spec(sizes, config) == plan_spec(sizes2, config2),
{
}

/// Compacts one frame through the mask and checks the number of valid
/// measurements against `ns`, the interaction matrix's row count.
pub fn extract_measurements<T: Copy>(frame: &Vec<T>, mask: &Vec<Vec<bool>>, ns: usize) -> (r: Result<
    Vec<T>,
    PipelineError,
>)
    ensures
        !mask_fits(frame@.len(), mask_view(mask@)) ==> r == Err::<Vec<T>, PipelineError>(
            PipelineError::MaskExceedsFrame { frame_len: frame@.len() as usize },
        ),
        mask_fits(frame@.len(), mask_view(mask@)) && valid_count(mask_view(mask@)) != ns ==> r
            is Err && r->Err_0 == (PipelineError::MeasurementCount {
                expected: ns,
                found: valid_count(mask_view(mask@)) as usize,
            }),
        mask_fits(frame@.len(), mask_view(mask@)) && valid_count(mask_view(mask@)) == ns ==> r
            is Ok && r->Ok_0@ == valid_values(frame@, mask_view(mask@)),
{
    if !mask_fits_frame(mask, frame.len()) {
        return Err(PipelineError::MaskExceedsFrame { frame_len: frame.len() });
    }
    let y = extract_valid(frame, mask);
    if y.len() != ns {
        return Err(PipelineError::MeasurementCount { expected: ns, found: y.len() });
    }
    Ok(y)
}

/// Turns the solver's outcome into the command vector: a solution of length
/// `nc`, or a failure.
pub fn accept_solution<T>(x: Option<Vec<T>>, nc: usize) -> (r: Result<Vec<T>, PipelineError>)
    ensures
        x is None ==> r == Err::<Vec<T>, PipelineError>(PipelineError::SolverFailed),
        x is Some && x->0@.len() != nc ==> r == Err::<Vec<T>, PipelineError>(
            PipelineError::SolutionLength { len: x->0@.len() as usize, nc },
        ),
        x is Some && x->0@.len() == nc ==> r is Ok && r->Ok_0@ == x->0@,
{
    match x {
        None => Err(PipelineError::SolverFailed),
        Some(u) => {
            if u.len() == nc {
                Ok(u)
            } else {
                Err(PipelineError::SolutionLength { len: u.len(), nc })
            }
        },
    }
}

/// The solver's iteration cap, `per_dim` iterations for each command
/// dimension, when it fits the solver's counter.
pub fn iteration_cap(nc: usize, per_dim: u32) -> (r: Option<u32>)
    ensures
        r is Some <==> nc as int * per_dim as int <= u32::MAX,
        r is Some ==> r->0 as int == nc as int * per_dim as int,
{
    if per_dim == 0 {
        assert(nc as int * per_dim as int == 0);
        return Some(0);
    }
    if nc as u64 > (u32::MAX / per_dim) as u64 {
        assert(nc as int * per_dim as int > u32::MAX) by (nonlinear_arith)
            requires
                nc as int > u32::MAX as int / per_dim as int,
                per_dim > 0,
        ;
        None
    } else {
        assert(nc as int * per_dim as int <= u32::MAX) by (nonlinear_arith)
            requires
                nc as int <= u32::MAX as int / per_dim as int,
                per_dim > 0,
        ;
        Some(nc as u32 * per_dim)
    }
}

} // verus!
