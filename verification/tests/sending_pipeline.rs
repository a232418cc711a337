use rustsync::config::{AppConfig, GeneralConfig, IgnoreConfig, TargetConfig};
use rustsync::debounce::{Debouncer, Event};
use rustsync::dispatch::{dispatch, fan_out, initial_sync, prepare_send, select_unignored};
use rustsync::ignore::IgnoreMatcher;
use rustsync::watch::{
    change_events, regular_files, surfaced_kind, Candidate, ChangeKind, RawKind,
};
use rustsync::wire::parse_message;

fn matcher(list: &[&str]) -> IgnoreMatcher {
    IgnoreMatcher::compile(&list.iter().map(|p| p.to_string()).collect()).unwrap()
}

fn target(host: &str, port: Option<u16>) -> TargetConfig {
    TargetConfig { host: host.to_string(), port, path: "/mirror".to_string() }
}

fn strings(list: &[&str]) -> Vec<String> {
    list.iter().map(|p| p.to_string()).collect()
}

fn header_for(relative: &str) -> Vec<u8> {
    let block = format!("{{\"path\":\"{}\"}}", relative).into_bytes();
    let mut header = (block.len() as u32).to_be_bytes().to_vec();
    header.extend_from_slice(&block);
    header
}

#[test]
fn burst_of_edits_gives_one_transfer_per_target() {
    let mut debouncer = Debouncer::new(matcher(&["*.tmp"]));
    for _ in 0..3 {
        let (next, batch) = debouncer.step(Event::PathChanged("/data/a.txt".to_string()));
        assert!(batch.is_empty());
        debouncer = next;
    }
    let (debouncer, batch) = debouncer.step(Event::PathChanged("/data/b.tmp".to_string()));
    assert!(batch.is_empty());
    assert_eq!(debouncer.pending_count(), 1);
    let (debouncer, batch) = debouncer.step(Event::TickFired);
    assert_eq!(batch, strings(&["/data/a.txt"]));
    let targets = vec![target("one", None), target("two", Some(9000))];
    let plan = dispatch(&batch, &targets, "/data");
    assert_eq!(plan.len(), 1);
    assert_eq!(plan[0].len(), 2);
    let first = plan[0][0].clone().unwrap();
    let second = plan[0][1].clone().unwrap();
    assert_eq!((first.host.as_str(), first.port), ("one", 7878));
    assert_eq!((second.host.as_str(), second.port), ("two", 9000));
    assert_eq!(first.source, "/data/a.txt");
    assert_eq!(first.header, header_for("a.txt"));
    assert_eq!(second.header, header_for("a.txt"));
    assert!(debouncer.step(Event::TickFired).1.is_empty());
}

#[test]
fn ignored_path_is_never_pending() {
    let debouncer = Debouncer::new(matcher(&["*.tmp"])).observe("/data/b.tmp".to_string());
    assert!(!debouncer.is_pending("/data/b.tmp"));
    assert_eq!(debouncer.pending_count(), 0);
    assert!(debouncer.flush().1.is_empty());
}

#[test]
fn pending_paths_keep_the_order_of_first_sight() {
    let mut debouncer = Debouncer::new(matcher(&[]));
    for path in ["/d/b", "/d/a", "/d/b", "/d/c", "/d/a"] {
        debouncer = debouncer.observe(path.to_string());
    }
    assert!(debouncer.is_pending("/d/a"));
    assert!(!debouncer.is_pending("/d/z"));
    assert_eq!(debouncer.pending_count(), 3);
    let (debouncer, batch) = debouncer.flush();
    assert_eq!(batch, strings(&["/d/b", "/d/a", "/d/c"]));
    assert_eq!(debouncer.pending_count(), 0);
    let (_, batch) = debouncer.observe("/d/a".to_string()).flush();
    assert_eq!(batch, strings(&["/d/a"]));
}

#[test]
fn tick_with_nothing_pending_gives_an_empty_batch() {
    let (debouncer, batch) = Debouncer::new(matcher(&["*.tmp"])).step(Event::TickFired);
    assert!(batch.is_empty());
    assert!(debouncer.flush().1.is_empty());
}

#[test]
fn prepare_send_fills_in_the_default_port() {
    let outgoing = prepare_send("/data/sub/c.txt", &target("host.example", None), "/data").unwrap();
    assert_eq!(outgoing.source, "/data/sub/c.txt");
    assert_eq!(outgoing.host, "host.example");
    assert_eq!(outgoing.port, 7878);
    assert_eq!(outgoing.header, header_for("sub/c.txt"));
}

#[test]
fn prepared_header_and_content_are_read_back() {
    let outgoing = prepare_send("/data/sub/c.txt", &target("h", Some(1)), "/data").unwrap();
    let mut stream = outgoing.header.clone();
    stream.extend_from_slice(b"latest content");
    let message = parse_message(&stream).unwrap();
    assert_eq!(message.relative_path, "sub/c.txt");
    assert_eq!(message.payload, b"latest content".to_vec());
}

#[test]
fn fan_out_has_one_transfer_per_target_in_order() {
    let targets = vec![target("a", Some(1)), target("b", Some(2)), target("c", None)];
    let sends = fan_out("/data/x", &targets, "/data");
    let seen: Vec<(String, u16)> =
        sends.into_iter().map(|s| s.unwrap()).map(|o| (o.host, o.port)).collect();
    assert_eq!(
        seen,
        vec![("a".to_string(), 1), ("b".to_string(), 2), ("c".to_string(), 7878)]
    );
    assert!(fan_out("/data/x", &Vec::new(), "/data").is_empty());
}

#[test]
fn dispatch_covers_every_pair() {
    let targets = vec![target("a", Some(1)), target("b", Some(2))];
    let plan = dispatch(&strings(&["/data/x", "/data/y/z", "/data/w"]), &targets, "/data");
    assert_eq!(plan.len(), 3);
    let relative = ["x", "y/z", "w"];
    for (i, row) in plan.iter().enumerate() {
        assert_eq!(row.len(), 2);
        for (j, send) in row.iter().enumerate() {
            let outgoing = send.clone().unwrap();
            assert_eq!(outgoing.host, targets[j].host);
            assert_eq!(outgoing.header, header_for(relative[i]));
        }
    }
    assert!(dispatch(&Vec::new(), &targets, "/data").is_empty());
}

#[test]
fn select_unignored_keeps_order_and_repeats() {
    let kept = select_unignored(
        &strings(&["/d/a.txt", "/d/b.tmp", "/d/c.txt", "/d/a.txt", "/d/e.tmp"]),
        &matcher(&["*.tmp"]),
    );
    assert_eq!(kept, strings(&["/d/a.txt", "/d/c.txt", "/d/a.txt"]));
}

#[test]
fn initial_sync_sends_every_unignored_file_to_every_target() {
    let cfg = AppConfig {
        general: GeneralConfig { watch_dir: "/data".to_string(), method: "tcp".to_string() },
        targets: vec![target("a", None), target("b", Some(2))],
        ignore: IgnoreConfig { ignore_patterns: strings(&["*.tmp"]) },
    };
    let ignore = IgnoreMatcher::compile(&cfg.ignore.ignore_patterns).unwrap();
    let found = vec![
        Candidate { path: "/data".to_string(), is_file: false },
        Candidate { path: "/data/a.txt".to_string(), is_file: true },
        Candidate { path: "/data/b.tmp".to_string(), is_file: true },
        Candidate { path: "/data/sub".to_string(), is_file: false },
        Candidate { path: "/data/sub/c.txt".to_string(), is_file: true },
        Candidate { path: "/data/old.tmp".to_string(), is_file: false },
    ];
    let plan = initial_sync(&cfg, &found, &ignore);
    assert_eq!(plan.len(), 2);
    let sources: Vec<Vec<String>> = plan
        .iter()
        .map(|row| row.iter().map(|s| s.clone().unwrap().source).collect())
        .collect();
    assert_eq!(
        sources,
        vec![strings(&["/data/a.txt", "/data/a.txt"]), strings(&["/data/sub/c.txt", "/data/sub/c.txt"])]
    );
    assert_eq!(plan[1][0].clone().unwrap().header, header_for("sub/c.txt"));
    assert_eq!(plan[1][1].clone().unwrap().port, 2);
}

#[test]
fn only_creations_and_modifications_are_surfaced() {
    assert_eq!(surfaced_kind(RawKind::Create), Some(ChangeKind::Created));
    assert_eq!(surfaced_kind(RawKind::Modify), Some(ChangeKind::Modified));
    assert_eq!(surfaced_kind(RawKind::Remove), None);
    assert_eq!(surfaced_kind(RawKind::Rename), None);
    assert_eq!(surfaced_kind(RawKind::Access), None);
    assert_eq!(surfaced_kind(RawKind::Other), None);
}

#[test]
fn directories_give_no_change_event() {
    let candidates = vec![
        Candidate { path: "/data/a.txt".to_string(), is_file: true },
        Candidate { path: "/data/sub".to_string(), is_file: false },
        Candidate { path: "/data/sub/b.txt".to_string(), is_file: true },
    ];
    let events = change_events(RawKind::Modify, &candidates);
    let seen: Vec<(&str, ChangeKind)> =
        events.iter().map(|e| (e.absolute_path.as_str(), e.kind)).collect();
    assert_eq!(
        seen,
        vec![("/data/a.txt", ChangeKind::Modified), ("/data/sub/b.txt", ChangeKind::Modified)]
    );
    let created = change_events(RawKind::Create, &candidates);
    assert_eq!(created.len(), 2);
    assert_eq!(created[0].kind, ChangeKind::Created);
    assert!(change_events(RawKind::Remove, &candidates).is_empty());
    assert!(change_events(RawKind::Rename, &candidates).is_empty());
    assert_eq!(regular_files(&candidates), strings(&["/data/a.txt", "/data/sub/b.txt"]));
}

#[test]
fn debounce_window_is_half_a_second() {
    assert_eq!(rustsync::debounce::DEBOUNCE_WINDOW_MS, 500);
}

#[test]
fn preparing_a_transfer_succeeds_for_every_target() {
    let targets = vec![target("down", None), target("up", Some(9000))];
    for row in dispatch(&strings(&["/data/a \"b\"\n.txt", "/data/\u{1f600}"]), &targets, "/data") {
        assert_eq!(row.len(), 2);
        assert!(row.iter().all(|prepared| prepared.is_ok()));
    }
}
