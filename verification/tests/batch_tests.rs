use program_manager::batch::BatchRun;
use program_manager::model::{LaunchResult, ProgramItem};

fn item(id: &str, path: &str) -> ProgramItem {
    ProgramItem {
        id: id.to_string(),
        name: id.to_string(),
        path: path.to_string(),
        icon: String::new(),
        working_dir: String::new(),
        shortcut_key: String::new(),
        launch_group: None,
    }
}

#[test]
fn batch_returns_one_result_per_item_in_input_order() {
    let items = vec![
        item("a", "/bin/one"),
        item("b", "/bin/two"),
        item("c", "/bin/three"),
    ];
    let mut run = BatchRun::new(items, 0);
    let mut launched: Vec<String> = Vec::new();
    while !run.is_done() {
        launched.push(run.current_item().path.clone());
        run.record(LaunchResult::succeeded());
    }
    let results = run.finish();
    assert_eq!(launched, vec!["/bin/one", "/bin/two", "/bin/three"]);
    assert_eq!(results.len(), 3);
    let ids: Vec<&str> = results.iter().map(|r| r.id.as_str()).collect();
    assert_eq!(ids, vec!["a", "b", "c"]);
    assert!(results.iter().all(|r| r.success));
}

#[test]
fn failed_item_never_stops_the_batch() {
    let items = vec![item("first", "/bad"), item("second", "/good")];
    let mut run = BatchRun::new(items, 0);

    assert_eq!(run.current_item().id, "first");
    run.record(LaunchResult::failed("No such file or directory".to_string()));
    assert!(!run.is_done(), "the batch must proceed past a failure");

    assert_eq!(run.current_item().id, "second");
    run.record(LaunchResult::succeeded());
    assert!(run.is_done());

    let results = run.finish();
    assert_eq!(results.len(), 2);
    assert!(!results[0].success);
    assert_eq!(
        results[0].error,
        Some("No such file or directory".to_string())
    );
    assert!(!results[0].error.as_ref().unwrap().is_empty());
    assert!(results[1].success);
    assert_eq!(results[1].error, None);
}

#[test]
fn zero_delay_never_pauses() {
    let items = vec![item("a", "/1"), item("b", "/2"), item("c", "/3")];
    let mut run = BatchRun::new(items, 0);
    while !run.is_done() {
        run.record(LaunchResult::succeeded());
        assert!(!run.should_pause());
    }
}

#[test]
fn positive_delay_pauses_between_items_never_after_last() {
    let items = vec![item("a", "/1"), item("b", "/2"), item("c", "/3")];
    let mut run = BatchRun::new(items, 250);
    let mut pauses: usize = 0;
    while !run.is_done() {
        run.record(LaunchResult::succeeded());
        if run.should_pause() {
            assert_eq!(run.pause_ms(), 250);
            pauses += 1;
        }
    }
    // three items: a pause after each item but the last
    assert_eq!(pauses, 2);
    assert!(!run.should_pause());
}

#[test]
fn empty_batch_finishes_with_no_results() {
    let run = BatchRun::new(Vec::new(), 500);
    assert!(run.is_done());
    let results = run.finish();
    assert!(results.is_empty());
}
