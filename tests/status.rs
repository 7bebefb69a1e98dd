use msgpass::status::{C_MPI_ERROR_INIT_THREADED, C_MPI_SUCCESS, INIT_THREADED_FAILED, THREAD_MODE_REFUSED};
use msgpass::{check_status, count_outcome, flag_outcome, init_thread_outcome};

#[test]
fn check_status_passes_only_success() {
    assert_eq!(check_status(C_MPI_SUCCESS, "MPI failed to finalize"), Ok(()));
    assert_eq!(check_status(1, "MPI failed to finalize"), Err("MPI failed to finalize"));
    assert_eq!(check_status(-3, "MPI failed to synchronize (barrier)"), Err("MPI failed to synchronize (barrier)"));
}

#[test]
fn init_thread_outcome_tells_refused_mode_apart() {
    assert_eq!(init_thread_outcome(C_MPI_SUCCESS), Ok(()));
    assert_eq!(init_thread_outcome(C_MPI_ERROR_INIT_THREADED), Err(THREAD_MODE_REFUSED));
    assert_eq!(init_thread_outcome(17), Err(INIT_THREADED_FAILED));
}

#[test]
fn flag_outcome_reads_the_flag() {
    assert_eq!(flag_outcome(C_MPI_SUCCESS, 1, "no flag"), Ok(true));
    assert_eq!(flag_outcome(C_MPI_SUCCESS, 0, "no flag"), Ok(false));
    assert_eq!(flag_outcome(C_MPI_SUCCESS, 2, "no flag"), Ok(false));
    assert_eq!(flag_outcome(5, 1, "no flag"), Err("no flag"));
}

#[test]
fn count_outcome_reads_ranks_and_sizes() {
    assert_eq!(count_outcome(C_MPI_SUCCESS, 4, "no size"), Ok(4));
    assert_eq!(count_outcome(C_MPI_SUCCESS, 0, "no rank"), Ok(0));
    assert_eq!(count_outcome(C_MPI_SUCCESS, -1, "no rank"), Err("no rank"));
    assert_eq!(count_outcome(2, 4, "no size"), Err("no size"));
}
