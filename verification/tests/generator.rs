use filegen::naming::file_name;
use filegen::report::{aggregate, task_indices, total_written, whole_megabytes, AggregateReport, PlanError};
use filegen::task::{file_size, WriteAction, WriteEvent, WriteFailure, WriteTask, BUFFER_SIZE, BYTES_PER_MEGABYTE};
use rand::rngs::StdRng;
use rand::SeedableRng;

/// Runs a task to its end as a caller would, appending every chunk to a
/// buffer in memory, and gives the task's result, the buffer and the number
/// of chunks.
fn run_to_memory(mut task: WriteTask) -> (Result<usize, WriteFailure>, Vec<u8>, usize) {
    let mut file: Vec<u8> = Vec::new();
    let mut chunks = 0;
    let mut action = task.advance(WriteEvent::Started);
    loop {
        match action {
            WriteAction::Append(len) => {
                let chunk = task.chunk();
                assert_eq!(chunk.len(), len);
                file.extend_from_slice(chunk);
                chunks += 1;
                action = task.advance(WriteEvent::ChunkWritten);
            }
            WriteAction::Complete(total) => {
                assert_eq!(task.outcome(), Some(Ok(total)));
                return (Ok(total), file, chunks);
            }
            WriteAction::Abandon => return (task.outcome().unwrap(), file, chunks),
        }
    }
}

#[test]
fn outcome_follows_the_task() {
    let mut task = WriteTask::new(3, 1).unwrap();
    assert_eq!(task.outcome(), None);
    task.advance(WriteEvent::Started);
    assert_eq!(task.outcome(), None);
    task.advance(WriteEvent::ChunkFailed);
    assert_eq!(task.outcome(), Some(Err(WriteFailure::Storage)));
    let empty = WriteTask::new(3, 0).unwrap();
    assert_eq!(empty.outcome(), Some(Ok(0)));
}

#[test]
fn make_three_writes_two_files_of_one_megabyte() {
    let indices = task_indices(3).unwrap();
    assert_eq!(indices, vec![1, 2]);
    let names: Vec<String> = indices.iter().map(|i| file_name(*i)).collect();
    assert_eq!(names, vec!["data/0001.dat".to_string(), "data/0002.dat".to_string()]);
    let mut results = Vec::new();
    for index in indices {
        let task = WriteTask::new(index, 1).unwrap();
        let (result, file, chunks) = run_to_memory(task);
        assert_eq!(result, Ok(1_048_576));
        assert_eq!(file.len(), 1_048_576);
        assert_eq!(chunks, 1024);
        results.push(result);
    }
    let report = aggregate(Some(results), 5).unwrap();
    assert_eq!(report.total_bytes, 2_097_152);
    assert_eq!(report.megabytes(), 2);
    assert_eq!(report.elapsed_nanos, 5);
}

#[test]
fn file_length_is_size_times_one_megabyte() {
    for megabytes in [0usize, 1, 2, 3] {
        let task = WriteTask::new(9, megabytes).unwrap();
        assert_eq!(task.total_bytes(), megabytes * 1024 * 1024);
        let (result, file, chunks) = run_to_memory(task);
        assert_eq!(result, Ok(megabytes * 1024 * 1024));
        assert_eq!(file.len(), megabytes * 1024 * 1024);
        assert_eq!(chunks, megabytes * 1024);
    }
}

#[test]
fn empty_file_completes_at_once() {
    let mut task = WriteTask::new(1, 0).unwrap();
    assert!(task.is_complete());
    assert_eq!(task.advance(WriteEvent::Started), WriteAction::Complete(0));
    assert_eq!(task.chunk().len(), 0);
    assert_eq!(task.written(), 0);
}

#[test]
fn task_progress_step_by_step() {
    let mut task = WriteTask::new(42, 1).unwrap();
    assert_eq!(task.index(), 42);
    assert_eq!(task.file_name(), "data/0042.dat");
    assert_eq!(task.total_bytes(), 1_048_576);
    assert_eq!(task.remaining(), 1_048_576);
    assert_eq!(task.written(), 0);
    assert!(!task.is_complete());
    assert!(!task.has_failed());
    assert_eq!(task.chunk().len(), 0);

    assert_eq!(task.advance(WriteEvent::Started), WriteAction::Append(1024));
    assert_eq!(task.chunk().len(), 1024);
    assert_eq!(task.written(), 0);

    assert_eq!(task.advance(WriteEvent::ChunkWritten), WriteAction::Append(1024));
    assert_eq!(task.written(), 1024);
    assert_eq!(task.remaining(), 1_048_576 - 1024);

    // Nothing was appended since the last chunk: no progress.
    assert_eq!(task.advance(WriteEvent::Started), WriteAction::Append(1024));
    assert_eq!(task.written(), 1024);
}

#[test]
fn failed_chunk_abandons_the_task_for_good() {
    let mut task = WriteTask::new(1, 1).unwrap();
    assert_eq!(task.advance(WriteEvent::Started), WriteAction::Append(1024));
    assert_eq!(task.advance(WriteEvent::ChunkWritten), WriteAction::Append(1024));
    assert_eq!(task.advance(WriteEvent::ChunkFailed), WriteAction::Abandon);
    assert!(task.has_failed());
    assert!(!task.is_complete());
    assert_eq!(task.written(), 1024);
    assert_eq!(task.chunk().len(), 0);
    assert_eq!(task.advance(WriteEvent::ChunkWritten), WriteAction::Abandon);
    assert_eq!(task.advance(WriteEvent::Started), WriteAction::Abandon);
    assert_eq!(task.written(), 1024);
}

#[test]
fn complete_task_stays_complete() {
    let task = WriteTask::new(1, 1).unwrap();
    let mut file = Vec::new();
    let mut task = task;
    let mut action = task.advance(WriteEvent::Started);
    while let WriteAction::Append(_) = action {
        file.extend_from_slice(task.chunk());
        action = task.advance(WriteEvent::ChunkWritten);
    }
    assert_eq!(action, WriteAction::Complete(1_048_576));
    assert!(task.is_complete());
    assert_eq!(task.remaining(), 0);
    assert_eq!(task.written(), 1_048_576);
    assert_eq!(task.advance(WriteEvent::ChunkWritten), WriteAction::Complete(1_048_576));
    assert_eq!(task.advance(WriteEvent::Started), WriteAction::Complete(1_048_576));
    assert_eq!(task.advance(WriteEvent::ChunkFailed), WriteAction::Complete(1_048_576));
    assert!(!task.has_failed());
    assert_eq!(task.outcome(), Some(Ok(1_048_576)));
    assert_eq!(file.len(), 1_048_576);
}

#[test]
fn size_that_does_not_fit_is_refused() {
    assert!(matches!(WriteTask::new(1, usize::MAX), Err(WriteFailure::TooLarge)));
    let limit = usize::MAX / BYTES_PER_MEGABYTE;
    assert!(matches!(WriteTask::new(1, limit + 1), Err(WriteFailure::TooLarge)));
    let largest = WriteTask::new(1, limit).unwrap();
    assert_eq!(largest.total_bytes(), limit * 1_048_576);
    let generator = StdRng::seed_from_u64(3);
    assert!(matches!(
        WriteTask::with_generator(1, limit + 1, generator),
        Err(WriteFailure::TooLarge)
    ));
}

#[test]
fn chunks_come_from_the_generator() {
    let mut first = WriteTask::with_generator(1, 1, StdRng::seed_from_u64(7)).unwrap();
    let mut second = WriteTask::with_generator(2, 1, StdRng::seed_from_u64(7)).unwrap();
    let mut other = WriteTask::with_generator(1, 1, StdRng::seed_from_u64(8)).unwrap();
    first.advance(WriteEvent::Started);
    second.advance(WriteEvent::Started);
    other.advance(WriteEvent::Started);
    assert_eq!(first.chunk(), second.chunk());
    assert_ne!(first.chunk(), other.chunk());
    assert_ne!(first.chunk(), &[0u8; 1024][..]);
    let before = first.chunk().to_vec();
    first.advance(WriteEvent::ChunkWritten);
    assert_ne!(first.chunk(), &before[..]);
}

#[test]
fn two_runs_give_different_content() {
    let (_, first, _) = run_to_memory(WriteTask::new(1, 1).unwrap());
    let (_, second, _) = run_to_memory(WriteTask::new(1, 1).unwrap());
    assert_eq!(first.len(), second.len());
    assert_ne!(first, second);
    assert!(first.iter().any(|byte| *byte != 0));
}

#[test]
fn buffer_and_megabyte_sizes() {
    assert_eq!(BUFFER_SIZE, 1024);
    assert_eq!(BYTES_PER_MEGABYTE, 1024 * 1024);
}

#[test]
fn count_gives_one_file_fewer() {
    assert_eq!(task_indices(1), Ok(vec![]));
    assert_eq!(task_indices(2), Ok(vec![1]));
    let hundred = task_indices(100).unwrap();
    assert_eq!(hundred.len(), 99);
    assert_eq!(hundred[0], 1);
    assert_eq!(hundred[98], 99);
    for (place, index) in hundred.iter().enumerate() {
        assert_eq!(*index, place + 1);
    }
}

#[test]
fn count_of_zero_is_refused() {
    assert_eq!(task_indices(0), Err(PlanError::ZeroCount));
}

#[test]
fn file_names_are_padded_to_four_digits() {
    assert_eq!(file_name(0), "data/0000.dat");
    assert_eq!(file_name(1), "data/0001.dat");
    assert_eq!(file_name(9), "data/0009.dat");
    assert_eq!(file_name(10), "data/0010.dat");
    assert_eq!(file_name(99), "data/0099.dat");
    assert_eq!(file_name(100), "data/0100.dat");
    assert_eq!(file_name(999), "data/0999.dat");
    assert_eq!(file_name(1000), "data/1000.dat");
    assert_eq!(file_name(9999), "data/9999.dat");
}

#[test]
fn file_names_grow_past_four_digits() {
    assert_eq!(file_name(10000), "data/10000.dat");
    assert_eq!(file_name(1234567), "data/1234567.dat");
    assert_eq!(file_name(usize::MAX), format!("data/{:04}.dat", usize::MAX));
}

#[test]
fn file_names_match_the_standard_formatting() {
    for index in (0..20000).chain([99999, 100000, 1 << 40]) {
        assert_eq!(file_name(index), format!("data/{:04}.dat", index));
    }
}

#[test]
fn total_counts_only_successful_results() {
    let results = vec![
        Ok(1_048_576),
        Err(WriteFailure::Storage),
        Ok(2_097_152),
        Err(WriteFailure::NoEntropy),
        Err(WriteFailure::TooLarge),
    ];
    assert_eq!(total_written(&results), 3_145_728);
    let report = aggregate(Some(results), 1_000).unwrap();
    assert_eq!(report, AggregateReport { total_bytes: 3_145_728, elapsed_nanos: 1_000 });
    assert_eq!(report.megabytes(), 3);
}

#[test]
fn total_of_nothing_is_zero() {
    assert_eq!(total_written(&vec![]), 0);
    assert_eq!(total_written(&vec![Err(WriteFailure::Storage)]), 0);
    assert_eq!(aggregate(Some(vec![]), 0), Some(AggregateReport { total_bytes: 0, elapsed_nanos: 0 }));
}

#[test]
fn total_does_not_wrap() {
    let results = vec![Ok(usize::MAX), Ok(usize::MAX), Ok(1)];
    assert_eq!(total_written(&results), 2 * (usize::MAX as u128) + 1);
}

#[test]
fn failed_join_gives_no_report() {
    assert_eq!(aggregate(None, 17), None);
}

#[test]
fn megabytes_round_down() {
    assert_eq!(whole_megabytes(0), 0);
    assert_eq!(whole_megabytes(1_048_575), 0);
    assert_eq!(whole_megabytes(1_048_576), 1);
    assert_eq!(whole_megabytes(2_097_151), 1);
    assert_eq!(whole_megabytes(134_217_728), 128);
    assert_eq!(whole_megabytes(u128::MAX), u128::MAX / 1_048_576);
}

#[test]
fn file_size_in_bytes() {
    assert_eq!(file_size(0), Some(0));
    assert_eq!(file_size(1), Some(1_048_576));
    assert_eq!(file_size(128), Some(134_217_728));
    let limit = usize::MAX / 1_048_576;
    assert_eq!(file_size(limit), Some(limit * 1_048_576));
    assert_eq!(file_size(limit + 1), None);
    assert_eq!(file_size(usize::MAX), None);
}
