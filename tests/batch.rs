use task_batch::executor::{run_task, step, TaskAction, TaskEvent};
use task_batch::scheduler::{gather_results, place_results, reassemble, run_batch};
use task_batch::table::{decimal_text, encode_results, result_header, result_row};
use task_batch::task::{Config, TaskInput, TaskOutput, TaskStatus};

fn task(id: u64, kind: &str) -> TaskInput {
    TaskInput::new(id, kind.to_string())
}

fn output(id: u64, status: TaskStatus, detail: &str) -> TaskOutput {
    TaskOutput { task_id: id, final_status: status, error_info: detail.to_string() }
}

fn instant() -> Config {
    Config::new("http://stub.invalid/get".to_string(), 0)
}

fn same(a: &TaskOutput, b: &TaskOutput) -> bool {
    a.task_id == b.task_id && a.final_status == b.final_status && a.error_info == b.error_info
}

#[test]
fn mixed_batch_with_succeeding_network() {
    let tasks = vec![task(1, "process_data"), task(2, "noop"), task(3, "process_data")];
    let fetches: Vec<Result<(), String>> = vec![Ok(()), Ok(()), Ok(())];
    let out = run_batch(&tasks, &instant(), &fetches);
    assert_eq!(out.len(), 3);
    assert!(same(&out[0], &output(1, TaskStatus::Completed, "")));
    assert!(same(&out[1], &output(2, TaskStatus::Skipped, "Unsupported task_type: noop")));
    assert!(same(&out[2], &output(3, TaskStatus::Completed, "")));
}

#[test]
fn empty_batch_gives_header_only() {
    let tasks: Vec<TaskInput> = Vec::new();
    let fetches: Vec<Result<(), String>> = Vec::new();
    let out = run_batch(&tasks, &instant(), &fetches);
    assert!(out.is_empty());
    assert!(reassemble(0, Vec::new()).is_empty());
    let bytes = encode_results(&out).unwrap();
    assert_eq!(bytes, b"task_id,final_status,error_info\n".to_vec());
}

#[test]
fn failing_network_gives_failed_row() {
    let tasks = vec![task(7, "process_data")];
    let fetches: Vec<Result<(), String>> = vec![Err("stub error".to_string())];
    let out = run_batch(&tasks, &instant(), &fetches);
    assert_eq!(out.len(), 1);
    assert!(same(&out[0], &output(7, TaskStatus::Failed, "fetch_data failed: stub error")));
}

#[test]
fn row_count_and_ids_follow_input() {
    let tasks = vec![task(10, "a"), task(4, "process_data"), task(10, "process_data"), task(0, "")];
    let fetches: Vec<Result<(), String>> =
        vec![Ok(()), Err("x".to_string()), Ok(()), Ok(())];
    let out = run_batch(&tasks, &instant(), &fetches);
    assert_eq!(out.len(), tasks.len());
    for i in 0..tasks.len() {
        assert_eq!(out[i].task_id, tasks[i].task_id);
    }
    assert!(same(&out[3], &output(0, TaskStatus::Skipped, "Unsupported task_type: ")));
}

#[test]
fn unsupported_kind_never_fetches() {
    let t = task(5, "Process_Data");
    let c = instant();
    let events = vec![
        TaskEvent::Started,
        TaskEvent::FetchSucceeded,
        TaskEvent::FetchFailed("boom".to_string()),
        TaskEvent::DelayElapsed,
    ];
    for e in events.iter() {
        match step(&t, &c, e) {
            TaskAction::Finish(o) => {
                assert!(same(&o, &output(5, TaskStatus::Skipped, "Unsupported task_type: Process_Data")))
            }
            other => panic!("unexpected action {:?}", other),
        }
    }
}

#[test]
fn supported_kind_completes_only_after_delay() {
    let t = task(8, "process_data");
    let c = Config::new("http://stub.invalid/get".to_string(), 5000);
    match step(&t, &c, &TaskEvent::Started) {
        TaskAction::Fetch(url) => assert_eq!(url, "http://stub.invalid/get"),
        other => panic!("unexpected action {:?}", other),
    }
    match step(&t, &c, &TaskEvent::FetchSucceeded) {
        TaskAction::Sleep(ms) => assert_eq!(ms, 5000),
        other => panic!("unexpected action {:?}", other),
    }
    match step(&t, &c, &TaskEvent::DelayElapsed) {
        TaskAction::Finish(o) => assert!(same(&o, &output(8, TaskStatus::Completed, ""))),
        other => panic!("unexpected action {:?}", other),
    }
}

#[test]
fn fetch_failure_detail_names_the_error() {
    let t = task(9, "process_data");
    match step(&t, &instant(), &TaskEvent::FetchFailed("dns error: no such host".to_string())) {
        TaskAction::Finish(o) => {
            assert_eq!(o.final_status, TaskStatus::Failed);
            assert!(o.error_info.contains("fetch_data failed"));
            assert_eq!(o.error_info, "fetch_data failed: dns error: no such host");
        }
        other => panic!("unexpected action {:?}", other),
    }
}

#[test]
fn run_task_covers_each_path() {
    let c = instant();
    let ok: Result<(), String> = Ok(());
    let err: Result<(), String> = Err("timed out".to_string());
    assert!(same(&run_task(&task(1, "process_data"), &c, &ok), &output(1, TaskStatus::Completed, "")));
    assert!(same(
        &run_task(&task(2, "process_data"), &c, &err),
        &output(2, TaskStatus::Failed, "fetch_data failed: timed out")
    ));
    assert!(same(&run_task(&task(3, "other"), &c, &err), &output(3, TaskStatus::Skipped, "Unsupported task_type: other")));
}

#[test]
fn rerun_gives_identical_rows() {
    let tasks = vec![task(1, "process_data"), task(2, "noop"), task(3, "process_data")];
    for fetch in [Ok(()), Err("down".to_string())] {
        let fetches: Vec<Result<(), String>> = vec![fetch.clone(), fetch.clone(), fetch.clone()];
        let a = encode_results(&run_batch(&tasks, &instant(), &fetches)).unwrap();
        let b = encode_results(&run_batch(&tasks, &instant(), &fetches)).unwrap();
        assert_eq!(a, b);
    }
}

#[test]
fn arrival_order_does_not_change_result() {
    let rows = vec![
        output(11, TaskStatus::Completed, ""),
        output(12, TaskStatus::Skipped, "Unsupported task_type: noop"),
        output(13, TaskStatus::Failed, "fetch_data failed: x"),
    ];
    let in_order: Vec<(usize, TaskOutput)> = (0..3).map(|i| (i, rows[i].clone())).collect();
    let shuffled: Vec<(usize, TaskOutput)> = vec![2, 0, 1].into_iter().map(|i| (i, rows[i].clone())).collect();
    let a = reassemble(3, in_order);
    let b = reassemble(3, shuffled);
    assert_eq!(a.len(), 3);
    assert_eq!(b.len(), 3);
    for i in 0..3 {
        assert!(same(&a[i], &rows[i]));
        assert!(same(&b[i], &rows[i]));
    }
}

#[test]
fn missing_reports_are_left_out() {
    let arrivals = vec![
        (3, output(4, TaskStatus::Completed, "")),
        (0, output(1, TaskStatus::Completed, "")),
    ];
    let out = reassemble(5, arrivals);
    assert_eq!(out.len(), 2);
    assert_eq!(out[0].task_id, 1);
    assert_eq!(out[1].task_id, 4);
}

#[test]
fn later_report_replaces_earlier_and_out_of_range_is_ignored() {
    let arrivals = vec![
        (1, output(2, TaskStatus::Failed, "fetch_data failed: first")),
        (9, output(99, TaskStatus::Completed, "")),
        (1, output(2, TaskStatus::Completed, "")),
    ];
    let slots = place_results(2, arrivals);
    assert_eq!(slots.len(), 2);
    assert!(slots[0].is_none());
    assert!(same(slots[1].as_ref().unwrap(), &output(2, TaskStatus::Completed, "")));
    let out = gather_results(&slots);
    assert_eq!(out.len(), 1);
    assert!(same(&out[0], &output(2, TaskStatus::Completed, "")));
}

#[test]
fn status_labels() {
    assert_eq!(TaskStatus::Completed.label(), "Completed");
    assert_eq!(TaskStatus::Failed.label(), "Failed");
    assert_eq!(TaskStatus::Skipped.label(), "Skipped");
}

#[test]
fn decimal_text_of_edges() {
    assert_eq!(decimal_text(0), "0");
    assert_eq!(decimal_text(9), "9");
    assert_eq!(decimal_text(10), "10");
    assert_eq!(decimal_text(120), "120");
    assert_eq!(decimal_text(u64::MAX), "18446744073709551615");
}

#[test]
fn header_and_row_fields() {
    assert_eq!(result_header(), vec!["task_id", "final_status", "error_info"]);
    assert_eq!(
        result_row(&output(42, TaskStatus::Skipped, "Unsupported task_type: x")),
        vec!["42", "Skipped", "Unsupported task_type: x"]
    );
}

#[test]
fn encoded_table_quotes_where_needed() {
    let rows = vec![
        output(1, TaskStatus::Completed, ""),
        output(2, TaskStatus::Failed, "fetch_data failed: a, b"),
    ];
    let bytes = encode_results(&rows).unwrap();
    let text = String::from_utf8(bytes).unwrap();
    assert_eq!(
        text,
        "task_id,final_status,error_info\n1,Completed,\n2,Failed,\"fetch_data failed: a, b\"\n"
    );
}

#[test]
fn standard_config() {
    let c = Config::standard();
    assert_eq!(c.endpoint, "https://httpbin.org/get");
    assert_eq!(c.delay_ms, 3000);
}
