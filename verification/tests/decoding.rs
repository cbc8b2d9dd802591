use cargo_flash::BuildEvent;
use cargo_flash::PipelineError;
use cargo_flash::ProcessOutcome;
use cargo_flash::parse_event;
use cargo_flash::run_build;

const TARGET: &str = r#""target":{"name":"fw","kind":["bin"],"src_path":"/src/main.rs"}"#;

fn artifact_line(executable: &str) -> String {
    format!(
        r#"{{"reason":"compiler-artifact","package_id":"fw 0.1.0","manifest_path":"/Cargo.toml",{},"profile":{{"opt_level":"0","debug_assertions":true,"overflow_checks":true,"test":false}},"features":[],"filenames":["/tmp/deps/fw"],"executable":{},"fresh":false}}"#,
        TARGET, executable
    )
}

fn message_line(rendered: &str, message: &str) -> String {
    format!(
        r#"{{"reason":"compiler-message","package_id":"fw 0.1.0",{},"message":{{"message":"{}","code":null,"level":"warning","spans":[],"children":[],"rendered":{}}}}}"#,
        TARGET, message, rendered
    )
}

#[test]
fn artifact_line_decodes_to_its_executable_path() {
    let ev = parse_event(&artifact_line("\"/tmp/fw.elf\"")).unwrap();
    match ev {
        BuildEvent::CompilerArtifact { executable } => {
            assert_eq!(executable.unwrap(), "/tmp/fw.elf");
        }
        other => panic!("decoded the wrong event kind: {:?}", other),
    }
}

#[test]
fn artifact_line_without_executable_decodes_to_none() {
    let ev = parse_event(&artifact_line("null")).unwrap();
    match ev {
        BuildEvent::CompilerArtifact { executable } => assert!(executable.is_none()),
        other => panic!("decoded the wrong event kind: {:?}", other),
    }
}

#[test]
fn message_line_decodes_both_texts() {
    let line = message_line("\"warning: unused\\n\"", "unused variable");
    let ev = parse_event(&line).unwrap();
    match ev {
        BuildEvent::CompilerMessage { rendered, message } => {
            assert_eq!(rendered.unwrap(), "warning: unused\n");
            assert_eq!(message, "unused variable");
        }
        other => panic!("decoded the wrong event kind: {:?}", other),
    }
}

#[test]
fn message_line_without_rendered_text_keeps_the_plain_text() {
    let line = message_line("null", "unused variable");
    let ev = parse_event(&line).unwrap();
    match ev {
        BuildEvent::CompilerMessage { rendered, message } => {
            assert!(rendered.is_none());
            assert_eq!(message, "unused variable");
        }
        other => panic!("decoded the wrong event kind: {:?}", other),
    }
}

#[test]
fn recognized_but_ignored_kind_decodes_to_other() {
    let ev = parse_event(r#"{"reason":"build-finished","success":true}"#).unwrap();
    assert!(matches!(ev, BuildEvent::Other));
}

#[test]
fn malformed_line_is_a_decode_error() {
    let r = parse_event("not json at all");
    assert!(matches!(r, Err(PipelineError::Decode(_))));
}

#[test]
fn truncated_line_is_a_decode_error() {
    let r = parse_event(r#"{"reason":"compiler-artifact""#);
    match r {
        Err(PipelineError::Decode(text)) => assert!(!text.is_empty()),
        other => panic!("expected a decode error, got {:?}", other),
    }
}

#[test]
fn decoded_stream_runs_through_the_interpreter() {
    let lines = vec![
        message_line("\"warning: unused\\n\"", "unused variable"),
        artifact_line("null"),
        artifact_line("\"/tmp/fw.elf\""),
        r#"{"reason":"build-finished","success":true}"#.to_string(),
    ];
    let mut events: Vec<BuildEvent> = Vec::new();
    for line in &lines {
        events.push(parse_event(line).unwrap());
    }
    let (r, diags) = run_build(&events, &ProcessOutcome::Success);
    assert_eq!(r.unwrap(), "/tmp/fw.elf");
    assert_eq!(diags, vec!["warning: unused\n"]);
}
