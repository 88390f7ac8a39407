//! Which tasks a run launches, and what it reports when they are done.

use crate::task::WriteFailure;
use vstd::prelude::*;

verus! {

/// Why a run cannot be planned.
#[derive(Clone, Copy, Debug, PartialEq, Eq, Structural)]
pub enum PlanError {
    /// The requested count is zero, which stands for no number of files.
    ZeroCount,
}

/// The indices of the tasks of a run with count `num`: from 1 up to, and
/// without, `num`. There is one fewer than the count.
pub open spec fn planned_indices(num: nat) -> Seq<usize> {
    Seq::new((num - 1) as nat, |i: int| (i + 1) as usize)
}

/// The sum of the byte counts of the successful results. Failed results
/// count for nothing.
pub open spec fn sum_written(results: Seq<Result<usize, WriteFailure>>) -> nat
    decreases results.len(),
{
    if results.len() == 0 {
        0
    } else {
        sum_written(results.drop_last()) + match results.last() {
            Ok(bytes) => bytes as nat,
            Err(_) => 0,
        }
    }
}

/// The whole megabytes in a number of bytes.
pub open spec fn megabytes_in(bytes: nat) -> nat {
    bytes / 1024 / 1024
}

/// The indices of the tasks to launch for a requested count: 1, 2, and so
/// on, ending one short of the count. A count of one launches nothing; a
/// count of zero is refused.
pub fn task_indices(num: usize) -> (plan: Result<Vec<usize>, PlanError>)
    ensures
        num == 0 ==> plan == Err::<Vec<usize>, PlanError>(PlanError::ZeroCount),
        num >= 1 ==> plan is Ok && plan->Ok_0@ == planned_indices(num as nat),
        num >= 1 ==> plan->Ok_0@.len() == num - 1,
{
    if num == 0 {
        return Err(PlanError::ZeroCount);
    }
    let mut indices: Vec<usize> = Vec::new();
    let mut next: usize = 1;
    while next < num
        invariant
            1 <= next <= num,
            indices@.len() == next - 1,
            forall|i: int| 0 <= i < indices@.len() ==> indices@[i] == i + 1,
        decreases num - next,
    {
        indices.push(next);
        next = next + 1;
    }
    assert(indices@ =~= planned_indices(num as nat));
    Ok(indices)
}

/// The total of a batch of results: the bytes of the tasks that succeeded.
pub fn total_written(results: &Vec<Result<usize, WriteFailure>>) -> (total: u128)
    ensures
        total == sum_written(results@),
{
    let mut total: u128 = 0;
    let mut i: usize = 0;
    while i < results.len()
        invariant
            i <= results@.len(),
            total == sum_written(results@.take(i as int)),
            total <= i * 0xffff_ffff_ffff_ffff,
        decreases results@.len() - i,
    {
        proof {
            assert(results@.take(i + 1).drop_last() =~= results@.take(i as int));
            assert(results@.take(i + 1).last() == results@[i as int]);
            assert((i + 1) * 0xffff_ffff_ffff_ffff <= u128::MAX) by (nonlinear_arith)
                requires
                    i < 0xffff_ffff_ffff_ffff,
            ;
            assert((i + 1) * 0xffff_ffff_ffff_ffff == i * 0xffff_ffff_ffff_ffff
                + 0xffff_ffff_ffff_ffff) by (nonlinear_arith);
        }
        match results[i] {
            Ok(bytes) => {
                total = total + bytes as u128;
            },
            Err(_) => {},
        }
        i = i + 1;
    }
    assert(results@.take(i as int) =~= results@);
    total
}

/// The whole megabytes in a number of bytes: a part of a megabyte is left
/// out.
pub fn whole_megabytes(bytes: u128) -> (megabytes: u128)
    ensures
        megabytes == megabytes_in(bytes as nat),
{
    bytes / 1024 / 1024
}

/// What a run of the generator reports: the bytes written by the tasks that
/// succeeded, and the time the run took.
#[derive(Clone, Copy, Debug, PartialEq, Eq, Structural)]
pub struct AggregateReport {
    /// Bytes written by the successful tasks.
    pub total_bytes: u128,
    /// Time from the launch of the first task to the end of the last, in
    /// nanoseconds.
    pub elapsed_nanos: u128,
}

impl AggregateReport {
    /// The total in whole megabytes.
    pub fn megabytes(&self) -> (megabytes: u128)
        ensures
            megabytes == megabytes_in(self.total_bytes as nat),
    {
        whole_megabytes(self.total_bytes)
    }
}

/// The report of a run, from what waiting for its tasks gave.
///
/// `joined` is `None` where the wait itself failed, because a task ended
/// abnormally: then there is no report, not even of the tasks that
/// succeeded. Otherwise it holds one result for each task, and the report
/// totals the successful ones.
pub fn aggregate(joined: Option<Vec<Result<usize, WriteFailure>>>, elapsed_nanos: u128) -> (report:
    Option<AggregateReport>)
    ensures
        joined is None ==> report is None,
        joined matches Some(results) ==> report == Some(
            AggregateReport { total_bytes: sum_written(results@) as u128, elapsed_nanos },
        ),
{
    match joined {
        None => None,
        Some(results) => {
            let total_bytes = total_written(&results);
            Some(AggregateReport { total_bytes, elapsed_nanos })
        },
    }
}

/// A failed result adds nothing to a total, and a successful one adds its
/// byte count.
pub proof fn lemma_sum_written_push(
    results: Seq<Result<usize, WriteFailure>>,
    last: Result<usize, WriteFailure>,
)
    ensures
        last is Err ==> sum_written(results.push(last)) == sum_written(results),
        last matches Ok(bytes) ==> sum_written(results.push(last)) == sum_written(results) + bytes,
{
    assert(results.push(last).drop_last() =~= results);
}

/// Where every task of a batch succeeded with the same byte count, the total
/// is that count times the number of tasks.
pub proof fn lemma_sum_written_uniform(results: Seq<Result<usize, WriteFailure>>, bytes: usize)
    requires
        forall|i: int| 0 <= i < results.len() ==> results[i] == Ok::<usize, WriteFailure>(bytes),
    ensures
        sum_written(results) == results.len() * bytes,
    decreases results.len(),
{
    if results.len() > 0 {
        lemma_sum_written_uniform(results.drop_last(), bytes);
        assert(results.len() * bytes == (results.len() - 1) * bytes + bytes) by (nonlinear_arith);
    }
}

/// Where every task of a batch failed, the total is zero.
pub proof fn lemma_sum_written_all_failed(results: Seq<Result<usize, WriteFailure>>)
    requires
        forall|i: int| 0 <= i < results.len() ==> results[i] is Err,
    ensures
        sum_written(results) == 0,
    decreases results.len(),
{
    if results.len() > 0 {
        lemma_sum_written_all_failed(results.drop_last());
    }
}

/// A run with a count of at least one launches one task fewer than the
/// count, with the indices from 1 on, each once.
pub proof fn lemma_plan_size(num: nat)
    requires
        1 <= num <= usize::MAX,
    ensures
        planned_indices(num).len() == num - 1,
        forall|i: int| 0 <= i < num - 1 ==> planned_indices(num)[i] == i + 1,
        forall|i: int, j: int|
            0 <= i < j < num - 1 ==> planned_indices(num)[i] != planned_indices(num)[j],
{
}

} // verus!
