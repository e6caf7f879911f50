use aco_qp::constraint::Ordering;
use aco_qp::pipeline::{
    accept_solution, iteration_cap, plan_problem, AssemblyConfig, DatasetSizes, PipelineError,
    ProblemPlan,
};

fn full_sizes() -> DatasetSizes {
    DatasetSizes {
        nc: 271,
        d_len: 271 * 7360,
        w2_len: 271 * 271,
        w3_len: 271 * 271,
        tu_rows: 273,
        tu_cols: 1228,
        tu_len: 273 * 1228,
        umin_len: 1228,
        umax_len: 1228,
    }
}

fn config(ordering: Ordering) -> AssemblyConfig {
    AssemblyConfig { ordering, n_bm: 27, remove_mean_slopes: false, update_rho3: false }
}

#[test]
fn full_dataset_plan() {
    let plan = plan_problem(full_sizes(), config(Ordering::EndToEnd)).unwrap();
    assert_eq!(
        plan,
        ProblemPlan {
            nc: 271,
            ns: 7360,
            a_rows: 1228,
            a_cols: 271,
            removed_first: 41,
            removed_second: 83
        }
    );
    let legacy = plan_problem(full_sizes(), config(Ordering::Legacy)).unwrap();
    assert_eq!((legacy.removed_first, legacy.removed_second), (239, 245));
    assert_eq!(legacy.a_cols, 273 - 2);
}

#[test]
fn unused_flags_do_not_change_the_plan() {
    let mut c = config(Ordering::EndToEnd);
    let a = plan_problem(full_sizes(), c);
    c.remove_mean_slopes = true;
    c.update_rho3 = true;
    assert_eq!(plan_problem(full_sizes(), c), a);
}

#[test]
fn planning_is_repeatable() {
    let a = plan_problem(full_sizes(), config(Ordering::Legacy));
    let b = plan_problem(full_sizes(), config(Ordering::Legacy));
    assert_eq!(a, b);
}

#[test]
fn small_dataset_cannot_hold_removal_pair() {
    let sizes = DatasetSizes {
        nc: 2,
        d_len: 4,
        w2_len: 4,
        w3_len: 4,
        tu_rows: 273,
        tu_cols: 1,
        tu_len: 273,
        umin_len: 1,
        umax_len: 1,
    };
    let err = plan_problem(sizes, config(Ordering::EndToEnd));
    assert_eq!(err, Err(PipelineError::ConstraintWidth { cols: 271, nc: 2 }));
    let sizes = DatasetSizes { tu_rows: 84, tu_len: 84, ..sizes };
    assert_eq!(
        plan_problem(sizes, config(Ordering::EndToEnd)),
        Err(PipelineError::ConstraintWidth { cols: 82, nc: 2 })
    );
}

#[test]
fn shape_errors() {
    let c = config(Ordering::EndToEnd);
    let s = full_sizes();
    assert_eq!(plan_problem(DatasetSizes { nc: 0, ..s }, c), Err(PipelineError::EmptyCommandSpace));
    assert_eq!(
        plan_problem(DatasetSizes { d_len: 271 * 7360 + 1, ..s }, c),
        Err(PipelineError::InteractionShape { len: 271 * 7360 + 1, nc: 271 })
    );
    assert_eq!(
        plan_problem(DatasetSizes { w2_len: 271 * 270, ..s }, c),
        Err(PipelineError::WeightShape { len: 271 * 270, nc: 271 })
    );
    assert_eq!(
        plan_problem(DatasetSizes { w3_len: 5, ..s }, c),
        Err(PipelineError::WeightShape { len: 5, nc: 271 })
    );
    assert_eq!(
        plan_problem(DatasetSizes { tu_len: 10, ..s }, c),
        Err(PipelineError::TransferShape { len: 10, rows: 273, cols: 1228 })
    );
    assert_eq!(
        plan_problem(DatasetSizes { tu_rows: 50, tu_len: 50 * 1228, ..s }, c),
        Err(PipelineError::RemovalOutOfRange { index: 83, ncols: 50 })
    );
    assert_eq!(
        plan_problem(DatasetSizes { umin_len: 271, ..s }, c),
        Err(PipelineError::BoundLength { len: 271, rows: 1228 })
    );
    assert_eq!(
        plan_problem(DatasetSizes { umax_len: 1227, ..s }, c),
        Err(PipelineError::BoundLength { len: 1227, rows: 1228 })
    );
}

#[test]
fn solver_outcome_translation() {
    assert_eq!(accept_solution::<f64>(None, 2), Err(PipelineError::SolverFailed));
    assert_eq!(
        accept_solution(Some(vec![1.0f64]), 2),
        Err(PipelineError::SolutionLength { len: 1, nc: 2 })
    );
    assert_eq!(accept_solution(Some(vec![1.0f64, -2.0]), 2), Ok(vec![1.0, -2.0]));
}

#[test]
fn iteration_cap_is_multiple_of_dimension() {
    assert_eq!(iteration_cap(271, 500), Some(135500));
    assert_eq!(iteration_cap(0, 500), Some(0));
    assert_eq!(iteration_cap(271, 0), Some(0));
    assert_eq!(iteration_cap(1 << 20, 1 << 12), None);
    assert_eq!(iteration_cap(1 << 20, 1 << 11), Some(u32::MAX - u32::MAX / 2));
}
