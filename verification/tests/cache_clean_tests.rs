use depot::cache_clean::{oldest_first_order, CachedFile, CleanAction, CleanRun, CleanStage};

const DAY: i128 = 86_400 * 1_000_000_000;

fn file(path: &str, modified: i128, size: u64) -> CachedFile {
    CachedFile { path: path.to_string(), modified, size }
}

fn path_of(a: &CleanAction) -> String {
    match a {
        CleanAction::RemoveExpired(p) => format!("expired:{}", p),
        CleanAction::RemoveForSize(p) => format!("size:{}", p),
        CleanAction::Done(r) => format!("done:{}:{}", r.files_removed, r.bytes_freed),
    }
}

#[test]
fn order_is_oldest_first_and_stable() {
    let files = vec![file("a", 30, 1), file("b", 10, 1), file("c", 20, 1), file("d", 10, 1)];
    assert_eq!(oldest_first_order(&files), vec![1, 3, 2, 0]);
    assert_eq!(oldest_first_order(&Vec::new()), Vec::<usize>::new());
}

#[test]
fn clean_removes_expired_then_nothing_when_within_size() {
    let files = vec![
        file("new.rockspec", 99 * DAY, 300),
        file("old.rockspec", 10 * DAY, 100),
        file("mid.rockspec", 95 * DAY, 200),
    ];
    let mut run = CleanRun::start(files, 100 * DAY, 30, 1000);
    let a = run.next_action();
    assert_eq!(path_of(&a), "expired:old.rockspec");
    run.record_removal(true);
    let b = run.next_action();
    assert_eq!(path_of(&b), "done:1:100");
    assert_eq!(run.stage(), CleanStage::Finished);
    assert_eq!(run.result().files_removed, 1);
    assert_eq!(run.result().bytes_freed, 100);
}

#[test]
fn clean_removes_oldest_while_over_size() {
    // A size limit of 0 MB: every file goes, oldest first, once no file is expired.
    let files = vec![
        file("c", 99 * DAY, 300),
        file("a", 10 * DAY, 100),
        file("b", 95 * DAY, 200),
    ];
    let mut run = CleanRun::start(files, 100 * DAY, 30, 0);
    let mut log: Vec<String> = Vec::new();
    loop {
        let action = run.next_action();
        log.push(path_of(&action));
        match action {
            CleanAction::Done(_) => break,
            _ => run.record_removal(true),
        }
    }
    assert_eq!(log, vec!["expired:a", "size:b", "size:c", "done:3:600"]);
}

#[test]
fn failed_removal_is_not_counted() {
    let files = vec![file("a", 0, 5_000_000), file("b", DAY, 1)];
    let mut run = CleanRun::start(files, 100 * DAY, 30, 1);
    assert_eq!(path_of(&run.next_action()), "expired:a");
    run.record_removal(false);
    assert_eq!(path_of(&run.next_action()), "expired:b");
    run.record_removal(true);
    // Still over 1 MB: "a" is still there, so it is asked for again.
    assert_eq!(path_of(&run.next_action()), "size:a");
    run.record_removal(true);
    assert_eq!(path_of(&run.next_action()), "done:2:5000001");
}

#[test]
fn files_from_the_future_have_no_age() {
    let files = vec![file("later", 200 * DAY, 10)];
    let mut run = CleanRun::start(files, 100 * DAY, 0, 100);
    assert_eq!(path_of(&run.next_action()), "done:0:0");
}

#[test]
fn empty_directory_cleans_nothing() {
    let mut run = CleanRun::start(Vec::new(), 0, 30, 100);
    assert_eq!(path_of(&run.next_action()), "done:0:0");
    assert_eq!(path_of(&run.next_action()), "done:0:0");
}
