use concurrent_file_processor::config::ProcessingConfig;
use concurrent_file_processor::error::AppError;
use concurrent_file_processor::processor::{FileProcessor, HashProcessingStrategy};
use concurrent_file_processor::worker::{Worker, WorkerAction, WorkerEvent, WorkerState};

fn new_worker(input: &str) -> Worker {
    Worker::new(input.to_string(), "output".to_string(), &ProcessingConfig::default())
}

#[test]
fn worker_full_success_lifecycle() {
    // A file present at startup: content "hello", queue and gate idle, the
    // strategy transforms deterministically; the output directory ends up
    // with a.processed.txt and the source is deleted last.
    let processor = FileProcessor::with_strategy(ProcessingConfig::default(), HashProcessingStrategy);
    let w = new_worker("input/a.txt");

    let (w, action) = w.step(WorkerEvent::GateCleared);
    assert!(matches!(action, WorkerAction::ReadSource));

    let (w, action) = w.step(WorkerEvent::ReadCompleted { content: b"hello".to_vec() });
    let (file_name, content) = match action {
        WorkerAction::RunTransform { file_name, content } => (file_name, content),
        _ => panic!("reading must lead to the transform"),
    };
    assert_eq!(file_name, "a.txt");
    assert_eq!(content, b"hello");

    let output = processor.process_content(&file_name, &content).unwrap();
    let (w, action) = w.step(WorkerEvent::TransformCompleted { output: output.clone(), elapsed_ms: 7 });
    match &action {
        WorkerAction::WriteOutput { output_path, data } => {
            assert_eq!(output_path, "output/a.processed.txt");
            assert_eq!(data, &output);
        }
        _ => panic!("the transform must lead to the write"),
    }

    let (w, action) = w.step(WorkerEvent::WriteCompleted);
    assert!(matches!(action, WorkerAction::DeleteSource));

    let (w, action) = w.step(WorkerEvent::DeleteCompleted);
    assert!(matches!(action, WorkerAction::ReportSuccess));
    match w.state {
        WorkerState::Completed { result } => {
            assert_eq!(result.input_file, "input/a.txt");
            assert_eq!(result.output_file, "output/a.processed.txt");
            assert_eq!(result.original_size, 5);
            assert_eq!(result.processed_size, output.len());
            assert_eq!(result.processing_time_ms, 7);
            assert!(result.strategy_info.is_none());
        }
        _ => panic!("the worker must end completed"),
    }
}

#[test]
fn worker_write_failure_keeps_source() {
    // Lifecycle atomicity: when the write fails, no deletion is ever
    // requested and the task aborts.
    let w = new_worker("input/a.txt");
    let (w, _) = w.step(WorkerEvent::GateCleared);
    let (w, _) = w.step(WorkerEvent::ReadCompleted { content: b"hello".to_vec() });
    let (w, _) = w.step(WorkerEvent::TransformCompleted {
        output: "text".to_string(),
        elapsed_ms: 1,
    });
    let (w, action) = w.step(WorkerEvent::WriteFailed { message: "disk full".to_string() });
    assert!(matches!(action, WorkerAction::ReportFailure));
    match w.state {
        WorkerState::Failed { error: AppError::Io(m) } => assert_eq!(m, "disk full"),
        _ => panic!("a failed write must abort the task as an I/O failure"),
    }
}

#[test]
fn worker_gate_exhaustion_fails_task() {
    let w = new_worker("input/b.bin");
    let (w, action) = w.step(WorkerEvent::GateExhausted);
    assert!(matches!(action, WorkerAction::ReportFailure));
    match w.state {
        WorkerState::Failed { error: AppError::Processing(m) } => {
            assert_eq!(m, "File input/b.bin is not available after retries");
        }
        _ => panic!("gate exhaustion must be a domain failure"),
    }
}

#[test]
fn worker_read_failure_is_io() {
    let w = new_worker("input/a.txt");
    let (w, _) = w.step(WorkerEvent::GateCleared);
    let (w, action) = w.step(WorkerEvent::ReadFailed { message: "permission denied".to_string() });
    assert!(matches!(action, WorkerAction::ReportFailure));
    match w.state {
        WorkerState::Failed { error: AppError::Io(m) } => assert_eq!(m, "permission denied"),
        _ => panic!("a failed read must abort the task as an I/O failure"),
    }
}

#[test]
fn worker_missing_file_name_fails() {
    let w = new_worker("input/..");
    let (w, _) = w.step(WorkerEvent::GateCleared);
    let (w, action) = w.step(WorkerEvent::ReadCompleted { content: b"x".to_vec() });
    assert!(matches!(action, WorkerAction::ReportFailure));
    match w.state {
        WorkerState::Failed { error: AppError::Processing(m) } => {
            assert_eq!(m, "Could not get file name for input/..");
        }
        _ => panic!("a path without a file name must be a domain failure"),
    }
}

#[test]
fn worker_transform_failure_propagates() {
    let w = new_worker("input/a.csv");
    let (w, _) = w.step(WorkerEvent::GateCleared);
    let (w, _) = w.step(WorkerEvent::ReadCompleted { content: b"".to_vec() });
    let (w, action) = w.step(WorkerEvent::TransformFailed {
        error: AppError::Processing("CSV file is empty".to_string()),
    });
    assert!(matches!(action, WorkerAction::ReportFailure));
    match w.state {
        WorkerState::Failed { error: AppError::Processing(m) } => {
            assert_eq!(m, "CSV file is empty");
        }
        _ => panic!("a strategy failure must abort the task as a domain failure"),
    }
}

#[test]
fn worker_delete_failure_after_write() {
    // A deletion failure is reported, but the write is not rolled back:
    // the task fails only at its very last step.
    let w = new_worker("input/a.txt");
    let (w, _) = w.step(WorkerEvent::GateCleared);
    let (w, _) = w.step(WorkerEvent::ReadCompleted { content: b"hello".to_vec() });
    let (w, _) = w.step(WorkerEvent::TransformCompleted {
        output: "text".to_string(),
        elapsed_ms: 1,
    });
    let (w, action) = w.step(WorkerEvent::WriteCompleted);
    assert!(matches!(action, WorkerAction::DeleteSource));
    let (w, action) = w.step(WorkerEvent::DeleteFailed { message: "busy".to_string() });
    assert!(matches!(action, WorkerAction::ReportFailure));
    match w.state {
        WorkerState::Failed { error: AppError::Io(m) } => assert_eq!(m, "busy"),
        _ => panic!("a failed deletion must be reported as an I/O failure"),
    }
}
