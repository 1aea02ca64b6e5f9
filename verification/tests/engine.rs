use downloader::batch::Batch;
use downloader::digest::content_digest;
use downloader::model::Stage;
use downloader::progress::{Notification, ProgressEvent, Status, Totals};
use downloader::task::DownloadTask;
use downloader::worker::{Action, Event, Outcome, Phase, Step};
use std::collections::HashMap;

fn task(url: &str, path: &str, sha1: Option<&str>) -> DownloadTask {
    DownloadTask { url: url.to_string(), path: path.to_string(), sha1: sha1.map(|s| s.to_string()) }
}

fn names(list: &[&str]) -> Vec<String> {
    list.iter().map(|s| s.to_string()).collect()
}

fn event(file: &str, status: &str, downloaded: u64, total: u64, completed: usize, files: usize, bytes: u64) -> ProgressEvent {
    ProgressEvent {
        file: file.to_string(),
        downloaded,
        total,
        status: status.to_string(),
        completed_files: completed,
        total_files: files,
        total_downloaded_bytes: bytes,
    }
}

fn deliver(batch: &mut Batch, index: usize, e: Event) -> Step {
    assert!(batch.accepts(index, &e));
    batch.deliver(index, &e)
}

/// A batch of one task that has been started and dispatched.
fn single(sha1: Option<&str>) -> Batch {
    let mut batch = Batch::new(vec![task("http://host/a.bin", "/data/a.bin", sha1)], names(&["a.bin"]), 4);
    assert_eq!(batch.start(), Some(1));
    assert_eq!(batch.dispatch(), Some(0));
    batch
}

/// A single transfer brought to the point where it awaits the next chunk.
fn receiving(length: Option<u64>) -> Batch {
    let mut batch = single(None);
    deliver(&mut batch, 0, Event::Probed(false));
    deliver(&mut batch, 0, Event::DirectoryPrepared);
    deliver(&mut batch, 0, Event::Responded(Ok(length)));
    let step = deliver(&mut batch, 0, Event::FileCreated(Ok(())));
    assert_eq!(step.next, Action::ReadChunk);
    batch
}

struct World {
    disk: HashMap<String, Vec<u8>>,
    net: HashMap<String, (Option<u64>, Vec<Vec<u8>>)>,
    requests: Vec<String>,
    sent: Vec<Notification>,
}

/// Performs the actions of one transfer against the simulated disk and
/// network until the transfer stops.
fn run_transfer(batch: &mut Batch, index: usize, world: &mut World) -> Result<(), String> {
    let url = batch.task(index).url.clone();
    let path = batch.task(index).path.clone();
    let mut body: Vec<Vec<u8>> = Vec::new();
    let mut chunk: Vec<u8> = Vec::new();
    let mut action = batch.phase(index).action();
    loop {
        let e = match action {
            Action::Probe => Event::Probed(world.disk.contains_key(&path)),
            Action::ReadExisting => Event::ExistingRead(world.disk.get(&path).cloned()),
            Action::PrepareDirectory => Event::DirectoryPrepared,
            Action::Request => {
                world.requests.push(url.clone());
                match world.net.get(&url) {
                    Some((length, chunks)) => {
                        body = chunks.clone();
                        body.reverse();
                        Event::Responded(Ok(*length))
                    }
                    None => Event::Responded(Err("no route to host".to_string())),
                }
            }
            Action::CreateFile => {
                world.disk.insert(path.clone(), Vec::new());
                Event::FileCreated(Ok(()))
            }
            Action::ReadChunk => match body.pop() {
                Some(next) => {
                    chunk = next;
                    Event::ChunkRead(Ok(Some(chunk.len())))
                }
                None => Event::ChunkRead(Ok(None)),
            },
            Action::WriteChunk => {
                world.disk.get_mut(&path).unwrap().extend_from_slice(&chunk);
                Event::ChunkWritten(Ok(()))
            }
            Action::Wait => panic!("transfer was not dispatched"),
            Action::Stop => unreachable!(),
        };
        let step = deliver(batch, index, e);
        if let Some(report) = step.emit {
            world.sent.push(Notification::Progress(report));
        }
        if step.next == Action::Stop {
            return match step.failure {
                Some(reason) => Err(reason),
                None => Ok(()),
            };
        }
        action = step.next;
    }
}

/// Runs a whole batch, one transfer after the other.
fn run_batch(batch: &mut Batch, world: &mut World) -> Vec<Result<(), String>> {
    let mut results = Vec::new();
    if let Some(total) = batch.start() {
        world.sent.push(Notification::Started(total));
    }
    while let Some(index) = batch.dispatch() {
        results.push(run_transfer(batch, index, world));
    }
    if batch.finish() {
        world.sent.push(Notification::Completed);
    }
    results
}

fn statuses(world: &World, file: &str) -> Vec<String> {
    world
        .sent
        .iter()
        .filter_map(|n| match n {
            Notification::Progress(p) if p.file == file => Some(p.status.clone()),
            _ => None,
        })
        .collect()
}

#[test]
fn end_to_end_three_tasks() {
    let old = b"already here".to_vec();
    let stale = b"stale content".to_vec();
    let fresh_a = vec![b"first ".to_vec(), b"second".to_vec()];
    let fresh_c = vec![b"new content for c".to_vec()];
    let mut world = World { disk: HashMap::new(), net: HashMap::new(), requests: vec![], sent: vec![] };
    world.disk.insert("/data/b.bin".to_string(), old.clone());
    world.disk.insert("/data/c.bin".to_string(), stale.clone());
    world.net.insert("http://host/a".to_string(), (Some(12), fresh_a));
    world.net.insert("http://host/b".to_string(), (Some(3), vec![b"bad".to_vec()]));
    world.net.insert("http://host/c".to_string(), (Some(17), fresh_c));
    let right = content_digest(&old);
    let tasks = vec![
        task("http://host/a", "/data/a.bin", None),
        task("http://host/b", "/data/b.bin", Some(&right)),
        task("http://host/c", "/data/c.bin", Some("0000000000000000000000000000000000000000")),
    ];
    let mut batch = Batch::new(tasks, names(&["a.bin", "b.bin", "c.bin"]), 3);
    let results = run_batch(&mut batch, &mut world);

    assert_eq!(results, vec![Ok(()), Ok(()), Ok(())]);
    assert_eq!(world.sent.first(), Some(&Notification::Started(3)));
    assert_eq!(world.sent.last(), Some(&Notification::Completed));
    assert_eq!(world.sent.iter().filter(|n| **n == Notification::Completed).count(), 1);
    assert_eq!(world.sent.iter().filter(|n| matches!(n, Notification::Started(_))).count(), 1);

    assert_eq!(statuses(&world, "a.bin"), vec!["Downloading", "Downloading", "Finished"]);
    assert_eq!(statuses(&world, "b.bin"), vec!["Verifying", "Skipped"]);
    assert_eq!(statuses(&world, "c.bin"), vec!["Verifying", "Downloading", "Finished"]);

    assert_eq!(world.disk["/data/a.bin"], b"first second".to_vec());
    assert_eq!(world.disk["/data/b.bin"], old);
    assert_eq!(world.disk["/data/c.bin"], b"new content for c".to_vec());
    assert_eq!(world.requests, vec!["http://host/a", "http://host/c"]);

    assert_eq!(
        world.sent,
        vec![
            Notification::Started(3),
            Notification::Progress(event("a.bin", "Downloading", 6, 12, 0, 3, 6)),
            Notification::Progress(event("a.bin", "Downloading", 12, 12, 0, 3, 12)),
            Notification::Progress(event("a.bin", "Finished", 0, 0, 1, 3, 12)),
            Notification::Progress(event("b.bin", "Verifying", 0, 0, 1, 3, 12)),
            Notification::Progress(event("b.bin", "Skipped", 0, 0, 2, 3, 12)),
            Notification::Progress(event("c.bin", "Verifying", 0, 0, 2, 3, 12)),
            Notification::Progress(event("c.bin", "Downloading", 17, 17, 2, 3, 29)),
            Notification::Progress(event("c.bin", "Finished", 0, 0, 3, 3, 29)),
            Notification::Completed,
        ]
    );
    assert_eq!(batch.totals(), Totals { completed_files: 3, total_files: 3, total_downloaded_bytes: 29 });
    assert_eq!(batch.stage(), Stage::Completed);
}

#[test]
fn second_run_makes_no_request() {
    let body = vec![b"payload ".to_vec(), b"in two chunks".to_vec()];
    let whole = b"payload in two chunks".to_vec();
    let digest = content_digest(&whole);
    let mut world = World { disk: HashMap::new(), net: HashMap::new(), requests: vec![], sent: vec![] };
    world.net.insert("http://host/f".to_string(), (Some(21), body));

    let mut first = Batch::new(vec![task("http://host/f", "/data/f", Some(&digest))], names(&["f"]), 1);
    assert_eq!(run_batch(&mut first, &mut world), vec![Ok(())]);
    assert_eq!(world.requests.len(), 1);
    assert_eq!(world.disk["/data/f"], whole);
    assert_eq!(statuses(&world, "f"), vec!["Downloading", "Downloading", "Finished"]);

    world.sent.clear();
    let mut second = Batch::new(vec![task("http://host/f", "/data/f", Some(&digest))], names(&["f"]), 1);
    assert_eq!(run_batch(&mut second, &mut world), vec![Ok(())]);
    assert_eq!(world.requests.len(), 1);
    assert_eq!(
        world.sent,
        vec![
            Notification::Started(1),
            Notification::Progress(event("f", "Verifying", 0, 0, 0, 1, 0)),
            Notification::Progress(event("f", "Skipped", 0, 0, 1, 1, 0)),
            Notification::Completed,
        ]
    );
    assert_eq!(second.phase(0), Phase::Done(Outcome::Skipped));
}

#[test]
fn wrong_digest_falls_through_to_download() {
    let mut batch = single(Some("ffffffffffffffffffffffffffffffffffffffff"));
    let step = deliver(&mut batch, 0, Event::Probed(true));
    assert_eq!(step.emit, Some(event("a.bin", "Verifying", 0, 0, 0, 1, 0)));
    assert_eq!(step.next, Action::ReadExisting);
    for payload in [b"".to_vec(), b"hello world".to_vec(), vec![0u8; 300]] {
        let mut b = single(Some("ffffffffffffffffffffffffffffffffffffffff"));
        deliver(&mut b, 0, Event::Probed(true));
        let step = deliver(&mut b, 0, Event::ExistingRead(Some(payload)));
        assert_eq!(step.emit, None);
        assert_eq!(step.failure, None);
        assert_eq!(step.next, Action::PrepareDirectory);
        assert_eq!(b.totals().completed_files, 0);
        let step = deliver(&mut b, 0, Event::DirectoryPrepared);
        assert_eq!(step.next, Action::Request);
    }
}

#[test]
fn unreadable_file_is_downloaded_again() {
    let mut batch = single(Some("2aae6c35c94fcfb415dbe95f408b9ce91ee846ed"));
    deliver(&mut batch, 0, Event::Probed(true));
    let step = deliver(&mut batch, 0, Event::ExistingRead(None));
    assert_eq!(step.emit, None);
    assert_eq!(step.next, Action::PrepareDirectory);
}

#[test]
fn existing_file_without_digest_is_downloaded_again() {
    let mut batch = single(None);
    let step = deliver(&mut batch, 0, Event::Probed(true));
    assert_eq!(step.emit, Some(event("a.bin", "Verifying", 0, 0, 0, 1, 0)));
    assert_eq!(step.next, Action::PrepareDirectory);
}

#[test]
fn missing_file_is_not_verified() {
    let mut batch = single(Some("2aae6c35c94fcfb415dbe95f408b9ce91ee846ed"));
    let step = deliver(&mut batch, 0, Event::Probed(false));
    assert_eq!(step.emit, None);
    assert_eq!(step.next, Action::PrepareDirectory);
    assert_eq!(batch.phase(0), Phase::PreparingDirectory);
}

#[test]
fn unknown_length_reports_zero_total() {
    let mut batch = receiving(None);
    assert_eq!(batch.phase(0), Phase::Receiving { total: 0, downloaded: 0 });
    let mut written = 0u64;
    let mut bytes = 0u64;
    for len in [5usize, 0, 1024, 7] {
        let step = deliver(&mut batch, 0, Event::ChunkRead(Ok(Some(len))));
        assert_eq!(step.emit, None);
        assert_eq!(step.next, Action::WriteChunk);
        let step = deliver(&mut batch, 0, Event::ChunkWritten(Ok(())));
        written += len as u64;
        bytes += len as u64;
        assert_eq!(step.emit, Some(event("a.bin", "Downloading", written, 0, 0, 1, bytes)));
        assert_eq!(step.failure, None);
        assert_eq!(step.next, Action::ReadChunk);
    }
    let step = deliver(&mut batch, 0, Event::ChunkRead(Ok(None)));
    assert_eq!(step.emit, Some(event("a.bin", "Finished", 0, 0, 1, 1, 1036)));
    assert_eq!(step.failure, None);
    assert_eq!(step.next, Action::Stop);
}

#[test]
fn declared_length_is_reported_with_each_chunk() {
    let mut batch = receiving(Some(100));
    deliver(&mut batch, 0, Event::ChunkRead(Ok(Some(40))));
    let step = deliver(&mut batch, 0, Event::ChunkWritten(Ok(())));
    assert_eq!(step.emit, Some(event("a.bin", "Downloading", 40, 100, 0, 1, 40)));
    deliver(&mut batch, 0, Event::ChunkRead(Ok(Some(60))));
    let step = deliver(&mut batch, 0, Event::ChunkWritten(Ok(())));
    assert_eq!(step.emit, Some(event("a.bin", "Downloading", 100, 100, 0, 1, 100)));
    let step = deliver(&mut batch, 0, Event::ChunkRead(Ok(None)));
    assert_eq!(step.emit, Some(event("a.bin", "Finished", 0, 0, 1, 1, 100)));
}

#[test]
fn request_failure_is_reported_to_the_driver_only() {
    let mut batch = single(None);
    deliver(&mut batch, 0, Event::Probed(false));
    deliver(&mut batch, 0, Event::DirectoryPrepared);
    let step = deliver(&mut batch, 0, Event::Responded(Err("connection refused".to_string())));
    assert_eq!(step.emit, None);
    assert_eq!(step.next, Action::Stop);
    assert_eq!(step.failure, Some("Request error: connection refused".to_string()));
    assert_eq!(batch.phase(0), Phase::Done(Outcome::Failed));
    assert_eq!(batch.totals().completed_files, 0);
}

#[test]
fn create_failure_is_reported_to_the_driver_only() {
    let mut batch = single(None);
    deliver(&mut batch, 0, Event::Probed(false));
    deliver(&mut batch, 0, Event::DirectoryPrepared);
    let step = deliver(&mut batch, 0, Event::Responded(Ok(Some(9))));
    assert_eq!(step.next, Action::CreateFile);
    let step = deliver(&mut batch, 0, Event::FileCreated(Err("permission denied".to_string())));
    assert_eq!(step.emit, None);
    assert_eq!(step.next, Action::Stop);
    assert_eq!(step.failure, Some("Create file error: permission denied".to_string()));
    assert_eq!(batch.phase(0), Phase::Done(Outcome::Failed));
}

#[test]
fn body_failure_is_reported_to_the_driver_only() {
    let mut batch = receiving(Some(10));
    deliver(&mut batch, 0, Event::ChunkRead(Ok(Some(4))));
    deliver(&mut batch, 0, Event::ChunkWritten(Ok(())));
    let step = deliver(&mut batch, 0, Event::ChunkRead(Err("connection reset".to_string())));
    assert_eq!(step.emit, None);
    assert_eq!(step.next, Action::Stop);
    assert_eq!(step.failure, Some("Download error: connection reset".to_string()));
    assert_eq!(batch.totals(), Totals { completed_files: 0, total_files: 1, total_downloaded_bytes: 4 });
}

#[test]
fn write_failure_is_reported_to_the_driver_only() {
    let mut batch = receiving(Some(10));
    deliver(&mut batch, 0, Event::ChunkRead(Ok(Some(4))));
    let step = deliver(&mut batch, 0, Event::ChunkWritten(Err("disk full".to_string())));
    assert_eq!(step.emit, None);
    assert_eq!(step.next, Action::Stop);
    assert_eq!(step.failure, Some("Write error: disk full".to_string()));
    assert_eq!(batch.totals(), Totals { completed_files: 0, total_files: 1, total_downloaded_bytes: 0 });
}

#[test]
fn failed_transfer_still_lets_the_batch_end() {
    let mut world = World { disk: HashMap::new(), net: HashMap::new(), requests: vec![], sent: vec![] };
    world.net.insert("http://host/ok".to_string(), (None, vec![b"abc".to_vec()]));
    let tasks = vec![task("http://host/missing", "/d/x", None), task("http://host/ok", "/d/y", None)];
    let mut batch = Batch::new(tasks, names(&["x", "y"]), 2);
    let results = run_batch(&mut batch, &mut world);
    assert_eq!(results, vec![Err("Request error: no route to host".to_string()), Ok(())]);
    assert_eq!(statuses(&world, "x"), Vec::<String>::new());
    assert_eq!(statuses(&world, "y"), vec!["Downloading", "Finished"]);
    assert_eq!(world.sent.last(), Some(&Notification::Completed));
    assert_eq!(batch.totals(), Totals { completed_files: 1, total_files: 2, total_downloaded_bytes: 3 });
    assert!(!world.disk.contains_key("/d/x"));
}

#[test]
fn at_most_the_permits_run_at_once() {
    let tasks: Vec<DownloadTask> = (0..5).map(|i| task(&format!("http://h/{i}"), &format!("/d/{i}"), None)).collect();
    let mut batch = Batch::new(tasks, names(&["0", "1", "2", "3", "4"]), 2);
    assert_eq!(batch.limit(), 2);
    assert_eq!(batch.dispatch(), None);
    assert_eq!(batch.start(), Some(5));
    assert_eq!(batch.dispatch(), Some(0));
    assert_eq!(batch.dispatch(), Some(1));
    assert_eq!(batch.dispatch(), None);
    assert_eq!(batch.running(), 2);
    for index in [0, 1] {
        deliver(&mut batch, index, Event::Probed(false));
        deliver(&mut batch, index, Event::DirectoryPrepared);
    }
    assert_eq!(batch.dispatch(), None);
    assert_eq!(batch.phase(2), Phase::Queued);
    deliver(&mut batch, 1, Event::Responded(Err("timeout".to_string())));
    assert_eq!(batch.running(), 1);
    assert_eq!(batch.dispatch(), Some(2));
    assert_eq!(batch.dispatch(), None);
    assert_eq!(batch.running(), 2);
    assert!(!batch.finish());
}

#[test]
fn scheduler_limit_caps_a_large_pool() {
    let tasks: Vec<DownloadTask> = (0..25).map(|i| task(&format!("http://h/{i}"), &format!("/d/{i}"), None)).collect();
    let labels: Vec<String> = (0..25).map(|i| i.to_string()).collect();
    let mut batch = Batch::new(tasks, labels, 64);
    assert_eq!(batch.limit(), 10);
    batch.start();
    let mut dispatched = Vec::new();
    while let Some(index) = batch.dispatch() {
        dispatched.push(index);
    }
    assert_eq!(dispatched, (0..10).collect::<Vec<usize>>());
    assert_eq!(batch.running(), 10);
}

#[test]
fn empty_pool_dispatches_nothing() {
    let mut batch = Batch::new(vec![task("http://h/a", "/d/a", None)], names(&["a"]), 0);
    assert_eq!(batch.limit(), 0);
    assert_eq!(batch.start(), Some(1));
    assert_eq!(batch.dispatch(), None);
    assert!(!batch.finish());
    assert_eq!(batch.stage(), Stage::Running);
}

#[test]
fn empty_batch_starts_and_ends() {
    let mut batch = Batch::new(vec![], vec![], 3);
    assert_eq!(batch.total_files(), 0);
    assert!(!batch.finish());
    assert_eq!(batch.start(), Some(0));
    assert_eq!(batch.dispatch(), None);
    assert!(batch.finish());
    assert!(!batch.finish());
    assert_eq!(batch.start(), None);
    assert_eq!(batch.stage(), Stage::Completed);
}

#[test]
fn start_is_announced_once() {
    let mut batch = Batch::new(vec![task("http://h/a", "/d/a", None)], names(&["a"]), 1);
    assert_eq!(batch.stage(), Stage::Created);
    assert_eq!(batch.start(), Some(1));
    assert_eq!(batch.start(), None);
    assert_eq!(batch.stage(), Stage::Running);
}

#[test]
fn counters_never_fall_across_interleaved_transfers() {
    let tasks: Vec<DownloadTask> = (0..3).map(|i| task(&format!("http://h/{i}"), &format!("/d/{i}"), None)).collect();
    let mut batch = Batch::new(tasks, names(&["0", "1", "2"]), 3);
    batch.start();
    while batch.dispatch().is_some() {}
    let mut reports: Vec<ProgressEvent> = Vec::new();
    for index in 0..3 {
        deliver(&mut batch, index, Event::Probed(false));
        deliver(&mut batch, index, Event::DirectoryPrepared);
        deliver(&mut batch, index, Event::Responded(Ok(Some(20))));
        deliver(&mut batch, index, Event::FileCreated(Ok(())));
    }
    for round in 0..4 {
        for index in [2usize, 0, 1] {
            deliver(&mut batch, index, Event::ChunkRead(Ok(Some(5))));
            let step = deliver(&mut batch, index, Event::ChunkWritten(Ok(())));
            let report = step.emit.unwrap();
            assert_eq!(report.downloaded, 5 * (round + 1));
            reports.push(report);
        }
    }
    for index in [1usize, 2, 0] {
        reports.push(deliver(&mut batch, index, Event::ChunkRead(Ok(None))).emit.unwrap());
    }
    for pair in reports.windows(2) {
        assert!(pair[0].completed_files <= pair[1].completed_files);
        assert!(pair[0].total_downloaded_bytes <= pair[1].total_downloaded_bytes);
        assert!(pair[1].completed_files <= pair[1].total_files);
    }
    let last = reports.last().unwrap();
    assert_eq!(last.completed_files, 3);
    assert_eq!(last.total_downloaded_bytes, 60);
    assert_eq!(batch.totals(), Totals { completed_files: 3, total_files: 3, total_downloaded_bytes: 60 });
    assert!(batch.finish());
}

#[test]
fn event_that_is_not_awaited_changes_nothing() {
    let mut batch = single(None);
    let step = deliver(&mut batch, 0, Event::ChunkRead(Ok(Some(10))));
    assert_eq!(step.emit, None);
    assert_eq!(step.failure, None);
    assert_eq!(step.next, Action::Probe);
    assert_eq!(batch.phase(0), Phase::Probing);
    let step = deliver(&mut batch, 7, Event::Probed(true));
    assert_eq!(step.next, Action::Wait);
    assert_eq!(step.emit, None);
    assert_eq!(batch.totals(), Totals { completed_files: 0, total_files: 1, total_downloaded_bytes: 0 });
}

#[test]
fn finished_transfer_ignores_later_events() {
    let mut batch = receiving(Some(1));
    deliver(&mut batch, 0, Event::ChunkRead(Ok(None)));
    assert_eq!(batch.phase(0), Phase::Done(Outcome::Finished));
    let step = deliver(&mut batch, 0, Event::ChunkRead(Ok(None)));
    assert_eq!(step.emit, None);
    assert_eq!(step.next, Action::Stop);
    assert_eq!(batch.totals().completed_files, 1);
}

#[test]
fn queued_transfer_waits() {
    let mut batch = Batch::new(vec![task("http://h/a", "/d/a", None)], names(&["a"]), 1);
    assert_eq!(batch.phase(0).action(), Action::Wait);
    let step = deliver(&mut batch, 0, Event::Probed(true));
    assert_eq!(step.next, Action::Wait);
    assert_eq!(step.emit, None);
    assert_eq!(batch.phase(0), Phase::Queued);
}

#[test]
fn chunk_that_would_overflow_the_counter_is_refused() {
    let mut batch = receiving(None);
    deliver(&mut batch, 0, Event::ChunkRead(Ok(Some(usize::MAX))));
    deliver(&mut batch, 0, Event::ChunkWritten(Ok(())));
    deliver(&mut batch, 0, Event::ChunkRead(Ok(Some(1))));
    if usize::MAX as u64 == u64::MAX {
        assert!(!batch.accepts(0, &Event::ChunkWritten(Ok(()))));
        assert!(batch.accepts(0, &Event::ChunkRead(Ok(None))));
    } else {
        assert!(batch.accepts(0, &Event::ChunkWritten(Ok(()))));
    }
}

#[test]
fn file_names_come_from_the_destination() {
    let tasks = vec![task("http://h/a", "/data/libs/a.jar", None), task("http://h/b", "relative/b.json", None)];
    let batch = Batch::plan(tasks, 2).unwrap();
    assert_eq!(batch.file_name(0), "a.jar");
    assert_eq!(batch.file_name(1), "b.json");
    assert_eq!(batch.task(1).url, "http://h/b");
    assert_eq!(batch.total_files(), 2);
    assert_eq!(batch.stage(), Stage::Created);
}

#[test]
fn destination_without_a_name_gives_no_batch() {
    assert!(Batch::plan(vec![task("http://h/a", "/", None)], 2).is_none());
    assert!(Batch::plan(vec![task("http://h/a", "/data/..", None)], 2).is_none());
    assert!(Batch::plan(vec![task("http://h/a", "", None)], 2).is_none());
}

#[test]
fn labels_and_channels() {
    assert_eq!(Status::Downloading.name(), "Downloading");
    assert_eq!(Status::Verifying.name(), "Verifying");
    assert_eq!(Status::Skipped.name(), "Skipped");
    assert_eq!(Status::Finished.name(), "Finished");
    assert_eq!(Notification::Started(4).channel(), "download-start");
    assert_eq!(Notification::Progress(event("f", "Finished", 0, 0, 1, 1, 0)).channel(), "download-progress");
    assert_eq!(Notification::Completed.channel(), "download-complete");
}

#[test]
fn report_is_built_from_the_counters() {
    let totals = Totals { completed_files: 2, total_files: 9, total_downloaded_bytes: 4096 };
    let report = ProgressEvent::new(&"lib.jar".to_string(), Status::Downloading, 10, 20, totals);
    assert_eq!(report, event("lib.jar", "Downloading", 10, 20, 2, 9, 4096));
}

#[test]
fn byte_counter_is_the_sum_of_what_was_written_per_file() {
    let old = b"kept".to_vec();
    let digest = content_digest(&old);
    let mut world = World { disk: HashMap::new(), net: HashMap::new(), requests: vec![], sent: vec![] };
    world.disk.insert("/d/kept".to_string(), old);
    world.net.insert("http://h/a".to_string(), (Some(7), vec![b"abc".to_vec(), b"defg".to_vec()]));
    world.net.insert("http://h/b".to_string(), (None, vec![b"0123456789".to_vec()]));
    let tasks = vec![
        task("http://h/a", "/d/a", None),
        task("http://h/kept", "/d/kept", Some(&digest)),
        task("http://h/none", "/d/none", None),
        task("http://h/b", "/d/b", None),
    ];
    let mut batch = Batch::new(tasks, names(&["a", "kept", "none", "b"]), 2);
    let results = run_batch(&mut batch, &mut world);
    assert_eq!(results.iter().filter(|r| r.is_ok()).count(), 3);
    assert_eq!(batch.written(0), 7);
    assert_eq!(batch.written(1), 0);
    assert_eq!(batch.written(2), 0);
    assert_eq!(batch.written(3), 10);
    let sum: u64 = (0..4).map(|i| batch.written(i)).sum();
    assert_eq!(batch.totals().total_downloaded_bytes, sum);
    assert_eq!(batch.totals().completed_files, 3);
}

#[test]
fn empty_task_list_always_gives_a_batch() {
    let batch = Batch::plan(Vec::new(), 5).unwrap();
    assert_eq!(batch.total_files(), 0);
    assert_eq!(batch.limit(), 5);
}

#[test]
fn reports_on_one_file_come_in_order() {
    let mut batch = single(Some("0000000000000000000000000000000000000000"));
    let mut seen: Vec<String> = Vec::new();
    let events = vec![
        Event::Probed(true),
        Event::ExistingRead(Some(b"something else".to_vec())),
        Event::DirectoryPrepared,
        Event::Responded(Ok(Some(6))),
        Event::FileCreated(Ok(())),
        Event::ChunkRead(Ok(Some(2))),
        Event::ChunkWritten(Ok(())),
        Event::ChunkRead(Ok(Some(4))),
        Event::ChunkWritten(Ok(())),
        Event::ChunkRead(Ok(None)),
        Event::ChunkRead(Ok(None)),
        Event::Probed(true),
    ];
    for e in events {
        if let Some(report) = deliver(&mut batch, 0, e).emit {
            seen.push(report.status);
        }
    }
    assert_eq!(seen, vec!["Verifying", "Downloading", "Downloading", "Finished"]);
}
