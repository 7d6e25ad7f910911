//! The tools of the shell daemon.

use picrust::json::{parse, Json};
use picrust::shell_tools::{
    bash, bash_result, can_read_text, edit, edit_plan, edit_result, file_kind, full_pattern, glob,
    grep, grep_args, invalid_request, log_param, plan_request, read_image, read_pdf, read_text,
    request_text, size_error, socket_path, sort_newest_first, write_result, BashOutcome, FileKind,
    FoundFile, GrepOutcome, GrepPlan, OmegaContent, OmegaToolResult, ToolPlan, DEFAULT_TIMEOUT_MS,
    MAX_IMAGE_BYTES, MAX_OUTPUT_LENGTH, MAX_TIMEOUT_MS,
};

fn js(text: &str) -> Json {
    match parse(text) {
        Ok(v) => v,
        Err(e) => panic!("not JSON: {}", e.message),
    }
}

fn text(r: &OmegaToolResult) -> &str {
    match &r.content {
        OmegaContent::Text { data } => data,
        _ => panic!("expected a text"),
    }
}

#[test]
fn commands_are_answered_with_their_output() {
    let r = bash_result(0, "  hello\n", "");
    assert!(!r.is_error);
    assert_eq!(text(&r), "hello");
    let r = bash_result(0, "", "  \n");
    assert_eq!(text(&r), "Command completed successfully (no output)");
    let r = bash_result(0, "out\n", "warn\n");
    assert_eq!(text(&r), "out\nSTDERR:\nwarn");
    let r = bash_result(-3, "", "bad");
    assert!(r.is_error);
    assert_eq!(text(&r), "Command failed with exit code -3\nSTDERR:\nbad");
}

#[test]
fn long_output_is_cut() {
    let r = bash_result(0, &"x".repeat(MAX_OUTPUT_LENGTH + 1), "");
    assert_eq!(text(&r).len(), MAX_OUTPUT_LENGTH + "\n... (output truncated)".len());
    assert!(text(&r).ends_with("x\n... (output truncated)"));
    let r = bash_result(0, &"x".repeat(MAX_OUTPUT_LENGTH), "");
    assert_eq!(text(&r).len(), MAX_OUTPUT_LENGTH);
}

#[test]
fn commands_may_end_in_other_ways() {
    let r = bash(&BashOutcome::NotStarted("no shell".to_string()), 5).unwrap();
    assert_eq!(text(&r), "Failed to spawn shell: no shell");
    let r = bash(&BashOutcome::NotRead("gone".to_string()), 5).unwrap();
    assert_eq!(text(&r), "Failed to read output: gone");
    let r = bash(&BashOutcome::TimedOut, 5).unwrap();
    assert!(r.is_error);
    assert_eq!(text(&r), "Command timed out after 5ms");
}

#[test]
fn output_that_is_no_text_is_mended() {
    let ran = BashOutcome::Ran {
        exit_code: Some(0),
        stdout: vec![b'a', 0xff, b'b'],
        stderr: vec![],
    };
    assert_eq!(text(&bash(&ran, 5).unwrap()), "a\u{fffd}b");
    let ran = BashOutcome::Ran { exit_code: None, stdout: vec![], stderr: vec![] };
    assert_eq!(text(&bash(&ran, 5).unwrap()), "Command failed with exit code -1\n");
}

#[test]
fn output_that_can_not_be_cut_has_no_answer() {
    let mut long = "x".repeat(MAX_OUTPUT_LENGTH - 1).into_bytes();
    long.extend_from_slice("\u{e9}\u{e9}".as_bytes());
    let ran = BashOutcome::Ran { exit_code: Some(0), stdout: long, stderr: vec![] };
    assert!(bash(&ran, 5).is_none());
}

#[test]
fn files_are_read_by_their_extension() {
    assert_eq!(file_kind("/a/b.PNG"), FileKind::Image);
    assert_eq!(file_kind("x.jpeg"), FileKind::Image);
    assert_eq!(file_kind("x.Pdf"), FileKind::Pdf);
    assert_eq!(file_kind("x.rs"), FileKind::Text);
    assert_eq!(file_kind("png"), FileKind::Text);
    assert_eq!(file_kind(".png"), FileKind::Text);
}

#[test]
fn binary_files_are_handed_over_in_base64() {
    let r = read_image("/a/b.png", &b"Man".to_vec());
    match r.content {
        OmegaContent::Image { data, media_type } => {
            assert_eq!(data, "TWFu");
            assert_eq!(media_type, "image/png");
        }
        _ => panic!("expected an image"),
    }
    let r = read_pdf("/a/b.pdf", &b"Ma".to_vec());
    match r.content {
        OmegaContent::Document { data, media_type, description } => {
            assert_eq!(data, "TWE=");
            assert_eq!(media_type, "application/pdf");
            assert_eq!(description, "PDF: /a/b.pdf");
        }
        _ => panic!("expected a document"),
    }
    assert_eq!(size_error(10, 10), None);
    assert_eq!(
        size_error(MAX_IMAGE_BYTES + 1, MAX_IMAGE_BYTES),
        Some("File too large: 5242881 bytes (max: 5242880 bytes)".to_string())
    );
}

#[test]
fn texts_are_read_with_line_numbers() {
    let r = read_text("/f", "one\ntwo\nthree\n", None, None);
    assert_eq!(text(&r), "File: /f\n\n     1\tone\n     2\ttwo\n     3\tthree\n");
    let r = read_text("/f", "one\ntwo\nthree\n", Some(2), Some(1));
    assert_eq!(
        text(&r),
        "File: /f\n\n     2\ttwo\n\n... (1 more lines, use offset and limit to read more)\n"
    );
    let r = read_text("/f", "one\ntwo\n", Some(9), None);
    assert!(!r.is_error);
    assert_eq!(text(&r), "File has 2 lines. Requested offset 9 is out of range.");
}

#[test]
fn long_lines_are_cut() {
    let line = "y".repeat(2001);
    assert!(can_read_text(&line, None, None));
    let r = read_text("/f", &line, None, None);
    assert_eq!(text(&r), format!("File: /f\n\n     1\t{}...\n", "y".repeat(2000)));
    let uncut = format!("{}\u{e9}", "y".repeat(1999));
    assert!(!can_read_text(&uncut, None, None));
}

#[test]
fn written_files_are_reported() {
    assert_eq!(text(&write_result("/f", true, Ok(()))), "File updated successfully: /f");
    assert_eq!(text(&write_result("/f", false, Ok(()))), "File created successfully: /f");
    let r = write_result("/f", false, Err("full".to_string()));
    assert!(r.is_error);
    assert_eq!(text(&r), "Failed to write file: full");
}

#[test]
fn edits_replace_one_or_all() {
    let args = js(r#"{"file_path": "/f", "old_string": "a", "new_string": "b"}"#);
    let plan = edit_plan(&args).ok().unwrap();
    assert_eq!(edit("cat", &plan).ok().unwrap(), "cbt");
    let e = edit("banana", &plan).err().unwrap();
    assert!(text(&e).starts_with("Found 3 occurrences of the string."));
    let e = edit("xyz", &plan).err().unwrap();
    assert!(text(&e).starts_with("String not found in file."));
    let args = js(
        r#"{"file_path": "/f", "old_string": "a", "new_string": "b", "replace_all": true}"#,
    );
    let plan = edit_plan(&args).ok().unwrap();
    assert_eq!(edit("banana", &plan).ok().unwrap(), "bbnbnb");
    let r = edit_result("banana", &plan, Ok(()));
    assert_eq!(text(&r), "Successfully replaced 3 occurrences in /f");
}

#[test]
fn edits_that_make_no_sense_are_refused() {
    let e = edit_plan(&js(r#"{"file_path": "/f"}"#)).err().unwrap();
    assert!(e.is_error);
    assert_eq!(text(&e), "Missing required fields: file_path, old_string");
    let e = edit_plan(&js(r#"{"file_path": "/f", "old_string": "a", "new_string": "a"}"#))
        .err()
        .unwrap();
    assert_eq!(text(&e), "old_string and new_string must be different");
}

fn file(path: &str, modified: i128) -> FoundFile {
    FoundFile { path: path.to_string(), modified }
}

#[test]
fn found_files_are_listed_newest_first() {
    let sorted = sort_newest_first(vec![file("a", 1), file("b", 3), file("c", 3), file("d", 2)]);
    let names: Vec<&str> = sorted.iter().map(|f| f.path.as_str()).collect();
    assert_eq!(names, vec!["b", "c", "d", "a"]);
    let r = glob("*.rs", Ok(vec![file("old", 1), file("new", 2)]));
    let new = text(&r).find("new").unwrap();
    let old = text(&r).find("old").unwrap();
    assert!(new < old);
    let r = glob("*.rs", Err("bad".to_string()));
    assert!(r.is_error);
    assert_eq!(text(&r), "Invalid glob pattern: bad");
    assert_eq!(full_pattern("*.rs", "/src"), "/src/*.rs");
    assert_eq!(full_pattern("/x/*.rs", "/src"), "/x/*.rs");
}

#[test]
fn searches_pass_their_options_on() {
    let args = grep_args(&js(r#"{"-i": true, "type": "rust", "multiline": true}"#), "p", "/d");
    assert!(args.contains(&"p".to_string()));
    assert!(args.contains(&"/d".to_string()));
    assert!(args.contains(&"-i".to_string()));
    assert!(args.contains(&"--type".to_string()));
    assert!(args.contains(&"rust".to_string()));
    assert!(args.contains(&"-U".to_string()));
}

#[test]
fn searches_are_answered() {
    let plan = GrepPlan {
        pattern: "p".to_string(),
        path: "/d".to_string(),
        args: vec![],
        offset: Some(1),
        head_limit: Some(1),
    };
    let r = grep(&plan, &GrepOutcome::NotRun("no rg".to_string()));
    assert!(r.is_error);
    assert_eq!(text(&r), "Failed to run ripgrep: no rg");
    let ran = GrepOutcome::Ran {
        success: true,
        code: Some(0),
        stdout: b"one\ntwo\nthree\n".to_vec(),
        stderr: vec![],
    };
    let r = grep(&plan, &ran);
    assert!(!r.is_error);
    assert!(text(&r).contains("two"));
    assert!(!text(&r).contains("one"));
    assert!(!text(&r).contains("three"));
}

#[test]
fn requests_are_planned() {
    let args = js(r#"{"command": "ls", "timeout": 9999999}"#);
    match plan_request("Bash", &args, None) {
        ToolPlan::Bash { command, timeout_ms } => {
            assert_eq!(command, "ls");
            assert_eq!(timeout_ms, MAX_TIMEOUT_MS);
        }
        _ => panic!("expected a command"),
    }
    match plan_request("Bash", &js(r#"{"command": "ls"}"#), None) {
        ToolPlan::Bash { timeout_ms, .. } => assert_eq!(timeout_ms, DEFAULT_TIMEOUT_MS),
        _ => panic!("expected a command"),
    }
    assert!(matches!(
        plan_request("Read", &js(r#"{"file_path": "/a.png"}"#), None),
        ToolPlan::ReadImage { path } if path == "/a.png"
    ));
    match plan_request("Fly", &js("{}"), None) {
        ToolPlan::Answer(r) => assert!(r.is_error),
        _ => panic!("expected an answer"),
    }
}

#[test]
fn requests_are_read_and_logged() {
    assert_eq!(request_text("  {}\n"), Some("{}".to_string()));
    assert_eq!(request_text(" \n"), None);
    assert_eq!(invalid_request("eof").id, "unknown");
    assert_eq!(text(&invalid_request("eof").result), "Invalid JSON: eof");
    assert_eq!(socket_path(None), "/tmp/omega-sh.sock");
    assert_eq!(socket_path(Some("/x".to_string())), "/x");
    assert_eq!(log_param("Read", &js(r#"{"file_path": "/f"}"#)), "/f");
    assert_eq!(log_param("Grep", &js(r#"{"pattern": "p"}"#)), "p");
    let long = js(&format!(r#"{{"command": "{}"}}"#, "x".repeat(101)));
    assert_eq!(log_param("Bash", &long), format!("{}\u{2026}", "x".repeat(100)));
}
