use jester::checksum::file_checksum;
use jester::config::{validate_config, Config, ConfigError, FileConfig};
use jester::decimal::append_decimal;
use jester::errors::WatcherError;
use jester::messages::DataSourceMessage;
use jester::registry::DataSourceRegistry;
use jester::timestamps::{is_later, Instant};
use jester::watch::{
    decide_entry, dispatch_plan, lookup_verdict, needs_modification_time, resend_after,
    resend_after_text, DbLookup, FileRecord, LookupVerdict,
};

fn entry(pattern: &str, container: u64, ds: Option<u64>, meta: Option<u64>) -> FileConfig {
    FileConfig {
        path_pattern: pattern.to_string(),
        container_id: container,
        data_source_id: ds,
        metadata_data_source_id: meta,
    }
}

fn config(files: Vec<FileConfig>) -> Config {
    Config {
        api_key: "key".to_string(),
        api_secret: "secret".to_string(),
        deep_lynx_url: "http://localhost:8090".to_string(),
        files,
    }
}

#[test]
fn checksum_of_empty_contents_is_one() {
    assert_eq!(file_checksum(&[]), 1);
}

#[test]
fn checksum_of_known_inputs() {
    assert_eq!(file_checksum(b"Wikipedia"), 0x11E60398);
    assert_eq!(file_checksum(&[0, 0]), 1 | 2 << 16);
    assert_eq!(file_checksum(&[1]), 2 | 2 << 16);
    assert_eq!(file_checksum(&[0u8; 100]), 0x00640001);
}

#[test]
fn config_without_files_is_refused() {
    assert_eq!(validate_config(&config(vec![])), Err(ConfigError::NoFiles));
}

#[test]
fn config_entry_without_data_source_is_accepted() {
    let c = config(vec![
        entry("./a/*.csv", 1, Some(469), None),
        entry("./b/*.csv", 1, None, None),
    ]);
    assert_eq!(validate_config(&c), Ok(()));
}

#[test]
fn sample_config_is_accepted() {
    let c = config(vec![entry("./sample_dir/*.csv", 1, Some(469), Some(1))]);
    assert_eq!(validate_config(&c), Ok(()));
    let c = config(vec![entry("./x/*", 2, None, Some(7))]);
    assert_eq!(validate_config(&c), Ok(()));
}

#[test]
fn register_starts_each_data_source_once() {
    let mut r = DataSourceRegistry::new();
    assert!(r.register(Some(469), 1));
    assert!(!r.register(Some(469), 2));
    assert!(!r.register(None, 3));
    assert!(r.contains(469));
    assert!(!r.contains(1));
    assert_eq!(r.container_of(469), Some(1));
    assert_eq!(r.container_of(5), None);
}

#[test]
fn register_all_serves_every_configured_source() {
    let files = vec![
        entry("./a/*", 1, Some(469), Some(1)),
        entry("./b/*", 2, Some(469), None),
        entry("./c/*", 3, None, Some(8)),
    ];
    let mut r = DataSourceRegistry::new();
    r.register_all(&files);
    assert_eq!(r.container_of(469), Some(1));
    assert_eq!(r.container_of(1), Some(1));
    assert_eq!(r.container_of(8), Some(3));
    assert!(!r.contains(2));
}

#[test]
fn decimal_rendering() {
    let mut s = String::from("id=");
    append_decimal(&mut s, 0);
    assert_eq!(s, "id=0");
    let mut s = String::new();
    append_decimal(&mut s, 1234567890);
    assert_eq!(s, "1234567890");
    let mut s = String::new();
    append_decimal(&mut s, u64::MAX);
    assert_eq!(s, u64::MAX.to_string());
}

#[test]
fn instants_compare_by_seconds_then_nanoseconds() {
    let a = Instant { secs: 10, nanos: 5 };
    assert!(is_later(&Instant { secs: 11, nanos: 0 }, &a));
    assert!(is_later(&Instant { secs: 10, nanos: 6 }, &a));
    assert!(!is_later(&a, &a));
    assert!(!is_later(&Instant { secs: 9, nanos: 999 }, &a));
}

#[test]
fn lookup_verdicts() {
    let never = DbLookup::Found(FileRecord { checksum: None, transmitted_at: None });
    assert_eq!(lookup_verdict(&never), LookupVerdict::Transmit);
    let sent = DbLookup::Found(FileRecord {
        checksum: Some(7),
        transmitted_at: Some("2024-01-01T00:00:00Z".to_string()),
    });
    assert_eq!(lookup_verdict(&sent), LookupVerdict::CompareWithTransmission);
    assert_eq!(lookup_verdict(&DbLookup::NotFound), LookupVerdict::RegisterThenTransmit);
    assert_eq!(lookup_verdict(&DbLookup::Failed), LookupVerdict::Skip);
}

#[test]
fn resend_only_changed_contents_modified_later() {
    let t = Instant { secs: 100, nanos: 0 };
    let later = Instant { secs: 101, nanos: 0 };
    let earlier = Instant { secs: 99, nanos: 0 };
    assert!(resend_after(t, Some(1), later, 2));
    assert!(resend_after(t, None, later, 2));
    assert!(!resend_after(t, Some(2), later, 2));
    assert!(!resend_after(t, Some(1), earlier, 2));
    assert!(!resend_after(t, Some(1), t, 2));
}

#[test]
fn resend_reads_the_stored_rfc3339_time() {
    // 2024-01-01T00:00:00Z is 1704067200 seconds after the epoch.
    let text = "2024-01-01T00:00:00Z";
    let just_after = Instant { secs: 1704067200, nanos: 1 };
    let at = Instant { secs: 1704067200, nanos: 0 };
    assert!(resend_after_text(text, Some(1), just_after, 2).unwrap());
    assert!(!resend_after_text(text, Some(1), at, 2).unwrap());
    assert!(!resend_after_text(text, Some(2), just_after, 2).unwrap());
    // The offset is honoured: 01:00+01:00 is midnight UTC.
    assert!(!resend_after_text("2024-01-01T01:00:00+01:00", None, at, 2).unwrap());
    assert!(resend_after_text("2024-01-01T01:00:00+01:00", None, just_after, 2).unwrap());
}

#[test]
fn unparsable_transmission_time_stops_the_watcher() {
    let r = resend_after_text("yesterday", Some(1), Instant { secs: 0, nanos: 0 }, 1);
    assert!(matches!(r, Err(WatcherError::TimeParseError(_))));
}

#[test]
fn dispatch_sends_to_timeseries_then_metadata() {
    let mut r = DataSourceRegistry::new();
    r.register(Some(469), 1);
    r.register(Some(1), 1);
    let f = entry("./sample_dir/*.csv", 1, Some(469), Some(1));
    let path = "./sample_dir/a.csv".to_string();
    let plan = dispatch_plan(&f, &r, false, &path);
    assert!(plan.record_transmission);
    assert_eq!(plan.sends.len(), 2);
    assert_eq!(plan.sends[0].0, 469);
    assert_eq!(plan.sends[1].0, 1);
    for (_, m) in &plan.sends {
        match m {
            DataSourceMessage::File(p) => assert_eq!(p, &path),
            _ => panic!("expected a file message"),
        }
    }
}

#[test]
fn dispatch_skips_unserved_sources() {
    let mut r = DataSourceRegistry::new();
    r.register(Some(1), 1);
    let f = entry("./a/*", 1, Some(469), Some(1));
    let plan = dispatch_plan(&f, &r, false, &"a".to_string());
    assert_eq!(plan.sends.len(), 1);
    assert_eq!(plan.sends[0].0, 1);
    assert!(plan.record_transmission);
}

#[test]
fn plugin_suppresses_sending_and_recording() {
    let mut r = DataSourceRegistry::new();
    r.register(Some(469), 1);
    let f = entry("./a/*", 1, Some(469), None);
    let plan = dispatch_plan(&f, &r, true, &"a".to_string());
    assert!(plan.sends.is_empty());
    assert!(!plan.record_transmission);
    let handoff = plan.plugin.expect("the plugin processes the file");
    assert_eq!(handoff.path, "a");
    assert_eq!(handoff.timeseries, Some(469));
    assert_eq!(handoff.metadata, None);
}

#[test]
fn no_plugin_no_handoff() {
    let mut r = DataSourceRegistry::new();
    r.register(Some(469), 1);
    let f = entry("./a/*", 1, Some(469), Some(3));
    let plan = dispatch_plan(&f, &r, false, &"a".to_string());
    assert!(plan.plugin.is_none());
    let plan = dispatch_plan(&f, &r, true, &"a".to_string());
    assert_eq!(plan.plugin.unwrap().metadata, None);
}

#[test]
fn configured_entries_reach_all_their_sources() {
    let files = vec![
        entry("./a/*", 1, Some(469), Some(1)),
        entry("./b/*", 2, Some(12), Some(469)),
    ];
    let mut r = DataSourceRegistry::new();
    r.register_all(&files);
    let plan = dispatch_plan(&files[1], &r, false, &"./b/x.csv".to_string());
    let ids: Vec<u64> = plan.sends.iter().map(|(i, _)| *i).collect();
    assert_eq!(ids, vec![12, 469]);
    // 469 keeps the container of the first entry that named it
    assert_eq!(r.container_of(469), Some(1));
}

fn sent_record(checksum: u32) -> DbLookup {
    DbLookup::Found(FileRecord {
        checksum: Some(checksum),
        transmitted_at: Some("2024-01-01T00:00:00Z".to_string()),
    })
}

#[test]
fn modification_time_only_for_transmitted_files() {
    assert!(needs_modification_time(&sent_record(1)));
    assert!(!needs_modification_time(&DbLookup::NotFound));
    assert!(!needs_modification_time(&DbLookup::Failed));
    assert!(!needs_modification_time(&DbLookup::Found(FileRecord { checksum: Some(1), transmitted_at: None })));
}

#[test]
fn decide_entry_cases() {
    let mut r = DataSourceRegistry::new();
    r.register(Some(469), 1);
    let f = entry("./a/*", 1, Some(469), None);
    let path = "./a/x.csv".to_string();
    let later = Some(Instant { secs: 1704067201, nanos: 0 });

    let o = decide_entry(&f, &r, false, &path, 5, &DbLookup::Failed, None).unwrap();
    assert!(!o.insert_record && o.plan.is_none());

    let o = decide_entry(&f, &r, false, &path, 5, &DbLookup::NotFound, None).unwrap();
    assert!(o.insert_record);
    assert_eq!(o.plan.unwrap().sends.len(), 1);

    // unchanged contents: skipped even though modified later
    let o = decide_entry(&f, &r, false, &path, 5, &sent_record(5), later).unwrap();
    assert!(!o.insert_record && o.plan.is_none());

    // changed contents modified later: sent again
    let o = decide_entry(&f, &r, false, &path, 6, &sent_record(5), later).unwrap();
    let plan = o.plan.unwrap();
    assert!(plan.record_transmission);
    assert_eq!(plan.sends[0].0, 469);

    // changed contents but not modified since: skipped
    let before = Some(Instant { secs: 1704067199, nanos: 0 });
    let o = decide_entry(&f, &r, false, &path, 6, &sent_record(5), before).unwrap();
    assert!(o.plan.is_none());

    // a plugin is loaded: a fresh file still gets its record, nothing is sent
    let o = decide_entry(&f, &r, true, &path, 5, &DbLookup::NotFound, None).unwrap();
    assert!(o.insert_record);
    let plan = o.plan.unwrap();
    assert!(plan.sends.is_empty() && !plan.record_transmission);
    assert!(plan.plugin.is_some());
}

#[test]
fn decide_entry_with_bad_stored_time_fails() {
    let r = DataSourceRegistry::new();
    let f = entry("./a/*", 1, Some(469), None);
    let bad = DbLookup::Found(FileRecord { checksum: None, transmitted_at: Some("garbage".to_string()) });
    let res = decide_entry(&f, &r, false, &"p".to_string(), 1, &bad, Some(Instant { secs: 0, nanos: 0 }));
    assert!(matches!(res, Err(WatcherError::TimeParseError(_))));
}
