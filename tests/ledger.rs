use folder_lock_decrypt::{
    export_file_path, export_plan, export_timestamp, json_document, ledger_json, ledger_text, process_file,
    ExportError, ExportFormat, ProcessedFileInfo, Session, SetupError,
};

fn entry(file_name: &str, output_path: &str) -> ProcessedFileInfo {
    ProcessedFileInfo { file_name: file_name.to_string(), output_path: output_path.to_string() }
}

fn two_entries() -> Vec<ProcessedFileInfo> {
    vec![entry("in/a#txt", "out/a.txt"), entry("in/b#c#d", "out/b.c.d")]
}

fn session_with(ledger: Vec<ProcessedFileInfo>, export_dir: &str) -> Session {
    let mut s = Session::default();
    s.input_dir = "in".to_string();
    s.output_dir = "out".to_string();
    s.export_dir = export_dir.to_string();
    s.processed_files = ledger;
    s
}

#[test]
fn default_session() {
    let s = Session::default();
    assert_eq!(s.input_dir, "Input Directory");
    assert_eq!(s.output_dir, "Output Directory");
    assert_eq!(s.export_dir, "Export Directory");
    assert!(s.processed_files.is_empty());
}

#[test]
fn text_export_has_one_line_per_entry() {
    let text = ledger_text(&two_entries());
    assert_eq!(text, "Processed: in/a#txt -> out/a.txt\nProcessed: in/b#c#d -> out/b.c.d\n");
    let lines: Vec<&str> = text.lines().collect();
    assert_eq!(lines.len(), 2);
    assert_eq!(lines[0], "Processed: in/a#txt -> out/a.txt");
    assert_eq!(lines[1], "Processed: in/b#c#d -> out/b.c.d");
    assert_eq!(ledger_text(&Vec::new()), "");
}

#[test]
fn json_export_lists_entries_in_order() {
    let json = ledger_json(&two_entries());
    assert_eq!(
        json,
        "[{\"file_name\":\"in/a#txt\",\"output_path\":\"out/a.txt\"},{\"file_name\":\"in/b#c#d\",\"output_path\":\"out/b.c.d\"}]"
    );
    let v: serde_json::Value = serde_json::from_str(&json).unwrap();
    let items = v.as_array().unwrap();
    assert_eq!(items.len(), 2);
    assert_eq!(items[0]["file_name"], "in/a#txt");
    assert_eq!(items[0]["output_path"], "out/a.txt");
    assert_eq!(items[1]["file_name"], "in/b#c#d");
    assert_eq!(items[1]["output_path"], "out/b.c.d");
    assert_eq!(ledger_json(&Vec::new()), "[]");
}

#[test]
fn json_export_escapes_text() {
    let json = ledger_json(&vec![entry("in/q\"x", "out\\y")]);
    assert_eq!(json, "[{\"file_name\":\"in/q\\\"x\",\"output_path\":\"out\\\\y\"}]");
}

#[test]
fn json_document_from_quoted_fields() {
    let q = vec![("\"a\"".to_string(), "\"b\"".to_string()), ("1".to_string(), "2".to_string())];
    assert_eq!(
        json_document(&q),
        "[{\"file_name\":\"a\",\"output_path\":\"b\"},{\"file_name\":1,\"output_path\":2}]"
    );
    assert_eq!(json_document(&Vec::new()), "[]");
}

#[test]
fn export_paths() {
    let ts = "07-03-2024-09-05-01";
    assert_eq!(export_file_path("exp", ts, ExportFormat::Text), "exp/export_07-03-2024-09-05-01.txt");
    assert_eq!(export_file_path("exp", ts, ExportFormat::Json), "exp/export_07-03-2024-09-05-01.json");
}

#[test]
fn export_plans() {
    let ledger = two_entries();
    let p = export_plan(&ledger, "exp", true, ExportFormat::Text, "ts").unwrap();
    assert_eq!(p.path, "exp/export_ts.txt");
    assert_eq!(p.contents, ledger_text(&ledger));
    let p = export_plan(&ledger, "exp", true, ExportFormat::Json, "ts").unwrap();
    assert_eq!(p.path, "exp/export_ts.json");
    assert_eq!(p.contents, ledger_json(&ledger));
    assert_eq!(
        export_plan(&ledger, " ", true, ExportFormat::Text, "ts").err(),
        Some(ExportError::InvalidDirectory)
    );
}

#[test]
fn export_to_missing_directory_leaves_ledger() {
    let s = session_with(two_entries(), "exp/missing");
    let r = s.prepare_export(false, ExportFormat::Text, "ts");
    assert_eq!(r.err(), Some(ExportError::InvalidDirectory));
    let r = s.prepare_export(false, ExportFormat::Json, "ts");
    assert_eq!(r.err(), Some(ExportError::InvalidDirectory));
    assert_eq!(s.processed_files.len(), 2);
    assert_eq!(s.processed_files[0].file_name, "in/a#txt");
    assert_eq!(s.processed_files[1].file_name, "in/b#c#d");
    let again = s.prepare_export(true, ExportFormat::Text, "ts").unwrap();
    assert_eq!(again.contents.lines().count(), 2);
}

#[test]
fn batch_needs_valid_directories() {
    let s = session_with(Vec::new(), "exp");
    assert_eq!(s.begin_batch(false, true).err(), Some(SetupError::InvalidDirectories));
    assert_eq!(s.begin_batch(true, false).err(), Some(SetupError::InvalidDirectories));
    let mut blank = session_with(Vec::new(), "exp");
    blank.output_dir = "  ".to_string();
    assert_eq!(blank.begin_batch(true, true).err(), Some(SetupError::InvalidDirectories));
    let run = s.begin_batch(true, true).unwrap();
    assert_eq!(run.output_dir, "out");
    assert!(run.processed.is_empty());
    assert!(run.warnings.is_empty());
}

#[test]
fn batch_restores_long_files_and_warns_on_short_ones() {
    let mut s = session_with(Vec::new(), "exp");
    s.input_dir = "dir/in".to_string();
    s.output_dir = "dir/out".to_string();
    let mut run = s.begin_batch(true, true).unwrap();
    let long: Vec<u8> = (0..150u32).map(|i| i as u8).collect();
    let short: Vec<u8> = vec![7u8; 50];
    let listing: Vec<(Option<&str>, &Vec<u8>)> =
        vec![(Some("dir/in/secret#1#lock"), &long), (Some("dir/in/tiny#file"), &short)];
    let mut written: Vec<(String, Vec<u8>)> = Vec::new();
    for (path, contents) in listing {
        match path {
            None => run.record_unreadable_path(),
            Some(p) => {
                if let Some(file) = run.process_entry(p, contents) {
                    written.push((file.info.output_path.clone(), file.bytes.clone()));
                    run.finish_entry(file, Ok(()));
                }
            }
        }
    }
    assert_eq!(written.len(), 1);
    assert_eq!(written[0].0, "dir/out/secret.1.lock");
    assert_eq!(written[0].1.len(), 150);
    assert_eq!(written[0].1[0], 110);
    assert_eq!(written[0].1[110], 0);
    assert_eq!(&written[0].1[111..], &long[111..]);
    let warnings = s.finish_batch(run);
    assert_eq!(warnings.len(), 1);
    assert_eq!(
        warnings[0],
        "Error processing file dir/in/tiny#file: the file is shorter than its header block"
    );
    assert_eq!(s.processed_files.len(), 1);
    assert_eq!(s.processed_files[0].file_name, "dir/in/secret#1#lock");
    assert_eq!(s.processed_files[0].output_path, "dir/out/secret.1.lock");
}

#[test]
fn later_batches_append_to_the_ledger() {
    let mut s = session_with(vec![entry("in/a", "out/a")], "exp");
    let mut run = s.begin_batch(true, true).unwrap();
    let data = vec![1u8; 120];
    let file = process_file("in/b#c", &run.output_dir, &data).unwrap();
    run.finish_entry(file, Ok(()));
    let warnings = s.finish_batch(run);
    assert!(warnings.is_empty());
    assert_eq!(s.processed_files.len(), 2);
    assert_eq!(s.processed_files[0].output_path, "out/a");
    assert_eq!(s.processed_files[1].output_path, "out/b.c");
}

#[test]
fn export_time_stamps() {
    assert_eq!(export_timestamp(0).unwrap(), "01-01-1970-00-00-00");
    assert_eq!(export_timestamp(1709802301).unwrap(), "07-03-2024-09-05-01");
    assert_eq!(export_timestamp(i64::MAX), None);
}

#[test]
fn unreadable_paths_are_skipped_with_a_warning() {
    let mut s = session_with(Vec::new(), "exp");
    let mut run = s.begin_batch(true, true).unwrap();
    run.record_unreadable_path();
    run.record_failure("in/x", "permission denied");
    assert!(run.processed.is_empty());
    let warnings = s.finish_batch(run);
    assert_eq!(warnings, vec!["Invalid file path".to_string(), "Error processing file in/x: permission denied".to_string()]);
    assert!(s.processed_files.is_empty());
}

#[test]
fn failed_write_adds_no_entry() {
    let mut s = session_with(Vec::new(), "exp");
    let mut run = s.begin_batch(true, true).unwrap();
    let data = vec![5u8; 130];
    let file = run.process_entry("in/a#b", &data).unwrap();
    assert_eq!(file.info.output_path, "out/a.b");
    assert!(run.warnings.is_empty());
    run.finish_entry(file, Err("disk full".to_string()));
    assert!(run.processed.is_empty());
    assert_eq!(run.warnings, vec!["Error processing file in/a#b: disk full".to_string()]);
    assert!(run.process_entry("in/c", &vec![1u8; 10]).is_none());
    assert!(run.process_entry("in/..", &data).is_none());
    assert_eq!(run.warnings.len(), 3);
    assert_eq!(run.warnings[1], "Error processing file in/c: the file is shorter than its header block");
    assert_eq!(run.warnings[2], "Error processing file in/..: the file path has no file name");
    assert!(run.processed.is_empty());
    let warnings = s.finish_batch(run);
    assert_eq!(warnings.len(), 3);
    assert!(s.processed_files.is_empty());
}

#[test]
fn export_time_stamps_cover_years_zero_to_9999() {
    assert_eq!(export_timestamp(-62_167_219_200).unwrap(), "01-01-0000-00-00-00");
    assert_eq!(export_timestamp(253_402_300_799).unwrap(), "31-12-9999-23-59-59");
}

#[test]
fn json_export_escapes_control_characters() {
    let json = ledger_json(&vec![entry("a\u{1}\u{8}\u{c}\n\r\t\u{1f}", "é/ü")]);
    assert_eq!(
        json,
        "[{\"file_name\":\"a\\u0001\\b\\f\\n\\r\\t\\u001f\",\"output_path\":\"é/ü\"}]"
    );
}
