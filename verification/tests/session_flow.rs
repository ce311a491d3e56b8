use analyzer_session::args::{ArgValue, Args};
use analyzer_session::commands::default_registry;
use analyzer_session::correlator::Correlator;
use analyzer_session::errors::ErrorKind;
use analyzer_session::framing::{decode_frame, FrameStep};
use analyzer_session::message::decode_payload;
use analyzer_session::message::{Message, ResponseOutcome};
use analyzer_session::registry::ExtractKind;
use analyzer_session::session::{extract_result, CmdOutcome, FeedOutcome, Session, Submitted};
use analyzer_session::state::OpenAction;
use analyzer_session::types::Document;

fn fresh() -> Session {
    Session::new(default_registry())
}

fn text_arg(args: &mut Args, key: &str, val: &str) {
    args.push(key.to_string(), ArgValue::Text(val.to_string()));
}

fn nat_arg(args: &mut Args, key: &str, val: u64) {
    args.push(key.to_string(), ArgValue::Nat(val));
}

fn position_args(path: &str, line: u64, character: u64) -> Args {
    let mut a = Args::new();
    text_arg(&mut a, "file_path", path);
    nat_arg(&mut a, "line", line);
    nat_arg(&mut a, "character", character);
    a
}

fn lib_doc(content: &str) -> Vec<Document> {
    vec![Document { path: "src/lib.rs".to_string(), content: content.to_string() }]
}

fn success(id: u64, result: &str) -> Message {
    Message::Response { id, outcome: ResponseOutcome::Success { result: result.to_string() } }
}

fn failure(id: u64, code: i64, message: &str) -> Message {
    Message::Response {
        id,
        outcome: ResponseOutcome::Failure { code, message: message.to_string() },
    }
}

fn pending_id(s: &Session) -> u64 {
    s.exchange.as_ref().unwrap().pending_id
}

fn frame_text(bytes: &[u8]) -> String {
    String::from_utf8_lossy(bytes).to_string()
}

#[test]
fn unknown_command_is_rejected_without_io() {
    let mut s = fresh();
    let before = s.wire.len();
    let r = s.submit("no_such_operation", Args::new(), &Vec::new());
    assert_eq!(r.unwrap_err(), ErrorKind::UnknownCommand);
    assert_eq!(s.wire.len(), before);
    assert!(s.exchange.is_none());
}

#[test]
fn missing_required_argument_is_rejected_without_io() {
    let mut s = fresh();
    let mut a = Args::new();
    text_arg(&mut a, "file_path", "src/lib.rs");
    // line and character are missing
    let r = s.submit("find_definition", a, &lib_doc("fn main() {}"));
    assert_eq!(r.unwrap_err(), ErrorKind::InvalidArguments);
    assert_eq!(s.wire.len(), 0);
    assert_eq!(s.correlator.pending.len(), 0);
}

#[test]
fn wrong_argument_type_is_rejected() {
    let mut s = fresh();
    let mut a = Args::new();
    text_arg(&mut a, "file_path", "src/lib.rs");
    text_arg(&mut a, "line", "ten");
    nat_arg(&mut a, "character", 4);
    let r = s.submit("find_definition", a, &lib_doc("fn main() {}"));
    assert_eq!(r.unwrap_err(), ErrorKind::InvalidArguments);
    assert_eq!(s.wire.len(), 0);
}

#[test]
fn out_of_range_position_is_rejected() {
    let mut s = fresh();
    let a = position_args("src/lib.rs", 0x1_0000_0000, 4);
    let r = s.submit("find_definition", a, &lib_doc("fn main() {}"));
    assert_eq!(r.unwrap_err(), ErrorKind::InvalidArguments);
    assert_eq!(s.wire.len(), 0);
}

#[test]
fn missing_document_content_is_rejected() {
    let mut s = fresh();
    let a = position_args("src/lib.rs", 1, 1);
    let r = s.submit("find_definition", a, &Vec::new());
    assert_eq!(r.unwrap_err(), ErrorKind::InvalidArguments);
    assert_eq!(s.wire.len(), 0);
}

#[test]
fn commands_never_interleave_on_the_wire() {
    let mut s = fresh();
    let mut a = Args::new();
    text_arg(&mut a, "query", "Foo");
    assert!(matches!(
        s.submit("workspace_symbols", a, &Vec::new()).unwrap(),
        Submitted::InFlight
    ));
    // initialization handshake, then the command's own request
    let id = pending_id(&s);
    assert!(matches!(s.feed(success(id, "{}")), FeedOutcome::Advanced));
    let id = pending_id(&s);
    assert!(matches!(s.feed(success(id, "[]")), FeedOutcome::Finished(Ok(_))));
    let split = s.wire.len();
    assert!(split >= 2);

    let mut b = Args::new();
    text_arg(&mut b, "workspace_path", ".");
    assert!(matches!(
        s.submit("run_cargo_check", b, &Vec::new()).unwrap(),
        Submitted::InFlight
    ));
    let id = pending_id(&s);
    assert!(matches!(
        s.feed(success(id, "\"ok\"")),
        FeedOutcome::Finished(Ok(_))
    ));
    for (i, frame) in s.wire.iter().enumerate() {
        if i < split {
            assert_eq!(frame.command, "workspace_symbols");
        } else {
            assert_eq!(frame.command, "run_cargo_check");
        }
    }
}

#[test]
fn response_with_unknown_id_is_discarded() {
    let mut s = fresh();
    let mut a = Args::new();
    text_arg(&mut a, "query", "Foo");
    s.submit("workspace_symbols", a, &Vec::new()).unwrap();
    let id = pending_id(&s);
    let wire_before = s.wire.len();
    assert!(matches!(s.feed(success(id + 100, "{}")), FeedOutcome::Ignored));
    assert!(s.exchange.is_some());
    assert_eq!(pending_id(&s), id);
    assert_eq!(s.wire.len(), wire_before);
    assert_eq!(s.correlator.pending.len(), 1);
    // the real response still lands
    assert!(matches!(s.feed(success(id, "{}")), FeedOutcome::Advanced));
}

#[test]
fn correlator_discards_unknown_resolution() {
    let mut c = Correlator::new();
    let a = c.allocate("one".to_string());
    let b = c.allocate("two".to_string());
    assert!(a < b);
    assert!(c.resolve(b + 50).is_none());
    assert_eq!(c.pending.len(), 2);
    let hit = c.resolve(a).unwrap();
    assert_eq!(hit.id, a);
    assert_eq!(hit.command, "one");
    assert_eq!(c.pending.len(), 1);
}

#[test]
fn process_exit_fails_pending_and_blocks_submissions() {
    let mut s = fresh();
    let mut a = Args::new();
    text_arg(&mut a, "query", "Foo");
    s.submit("workspace_symbols", a, &Vec::new()).unwrap();
    let failed = s.process_exited();
    assert_eq!(failed.len(), 1);
    assert_eq!(failed[0].command, "workspace_symbols");
    assert_eq!(s.correlator.pending.len(), 0);
    assert!(s.exchange.is_none());
    let mut b = Args::new();
    text_arg(&mut b, "query", "Bar");
    let r = s.submit("workspace_symbols", b, &Vec::new());
    assert_eq!(r.unwrap_err(), ErrorKind::SessionTerminated);
}

#[test]
fn restart_allows_commands_again() {
    let mut s = fresh();
    let mut a = Args::new();
    text_arg(&mut a, "query", "Foo");
    s.submit("workspace_symbols", a, &Vec::new()).unwrap();
    s.process_exited();
    s.restart();
    let mut b = Args::new();
    text_arg(&mut b, "query", "Bar");
    assert!(matches!(
        s.submit("workspace_symbols", b, &Vec::new()).unwrap(),
        Submitted::InFlight
    ));
}

fn run_to_completion(s: &mut Session, final_result: &str) -> Result<CmdOutcome, ErrorKind> {
    loop {
        let id = pending_id(s);
        let last = s.exchange.as_ref().unwrap().next + 1 == s.exchange.as_ref().unwrap().plan.len();
        let result = if last { final_result } else { "{}" };
        match s.feed(success(id, result)) {
            FeedOutcome::Advanced => continue,
            FeedOutcome::Finished(r) => return r.map_err(|e| e.kind),
            _ => panic!("unexpected feed outcome"),
        }
    }
}

#[test]
fn reopening_unmodified_document_sends_one_open() {
    let mut s = fresh();
    let docs = lib_doc("fn main() {}");
    s.submit("find_definition", position_args("src/lib.rs", 1, 1), &docs).unwrap();
    run_to_completion(&mut s, "[]").unwrap();
    let opens_first: usize = s
        .wire
        .iter()
        .filter(|f| frame_text(&f.bytes).contains("didOpen"))
        .count();
    assert_eq!(opens_first, 1);
    let split = s.wire.len();
    s.submit("find_definition", position_args("src/lib.rs", 2, 3), &docs).unwrap();
    run_to_completion(&mut s, "[]").unwrap();
    let opens_later: usize = s.wire[split..]
        .iter()
        .filter(|f| {
            let t = frame_text(&f.bytes);
            t.contains("didOpen") || t.contains("didChange")
        })
        .count();
    assert_eq!(opens_later, 0);
}

#[test]
fn changed_document_sends_one_change_with_new_content() {
    let mut s = fresh();
    s.submit(
        "find_definition",
        position_args("src/lib.rs", 1, 1),
        &lib_doc("fn main() {}"),
    )
    .unwrap();
    run_to_completion(&mut s, "[]").unwrap();
    let split = s.wire.len();
    s.submit(
        "find_definition",
        position_args("src/lib.rs", 2, 3),
        &lib_doc("fn main() { changed(); }"),
    )
    .unwrap();
    run_to_completion(&mut s, "[]").unwrap();
    let changes: Vec<String> = s.wire[split..]
        .iter()
        .map(|f| frame_text(&f.bytes))
        .filter(|t| t.contains("didChange"))
        .collect();
    assert_eq!(changes.len(), 1);
    assert!(changes[0].contains("changed();"));
    let opens: usize = s.wire[split..]
        .iter()
        .filter(|f| frame_text(&f.bytes).contains("didOpen"))
        .count();
    assert_eq!(opens, 0);
}

#[test]
fn ensure_open_decisions() {
    let mut s = fresh();
    let (a1, v1) = s.ensure_open("src/lib.rs", "one");
    assert_eq!(a1, OpenAction::SentOpen);
    assert_eq!(v1, 1);
    let (a2, v2) = s.ensure_open("src/lib.rs", "one");
    assert_eq!(a2, OpenAction::AlreadyCurrent);
    assert_eq!(v2, 1);
    let (a3, v3) = s.ensure_open("src/lib.rs", "two");
    assert_eq!(a3, OpenAction::SentChange);
    assert_eq!(v3, 2);
}

#[test]
fn diagnostics_empty_before_any_check() {
    let mut s = fresh();
    let mut a = Args::new();
    text_arg(&mut a, "file_path", "src/lib.rs");
    match s.submit("get_diagnostics", a, &Vec::new()).unwrap() {
        Submitted::Finished(CmdOutcome::Diags(items)) => assert!(items.is_empty()),
        _ => panic!("expected cached diagnostics"),
    }
    assert_eq!(s.wire.len(), 0);
}

#[test]
fn diagnostics_notification_updates_cache() {
    let mut s = fresh();
    let params = "{\"path\":\"src/lib.rs\",\"diagnostics\":[{\"start_line\":1,\"start_character\":2,\"end_line\":1,\"end_character\":5,\"severity\":1,\"message\":\"unused variable\",\"source\":\"check\"}]}";
    let note = Message::Note {
        method: "textDocument/publishDiagnostics".to_string(),
        params: params.to_string(),
    };
    assert!(matches!(s.feed(note), FeedOutcome::DiagnosticsUpdated));
    let mut a = Args::new();
    text_arg(&mut a, "file_path", "src/lib.rs");
    match s.submit("get_diagnostics", a, &Vec::new()).unwrap() {
        Submitted::Finished(CmdOutcome::Diags(items)) => {
            assert_eq!(items.len(), 1);
            assert_eq!(items[0].start_line, 1);
            assert_eq!(items[0].message, "unused variable");
            assert_eq!(items[0].source, "check");
        },
        _ => panic!("expected cached diagnostics"),
    }
}

#[test]
fn unrelated_notification_is_ignored() {
    let mut s = fresh();
    let note = Message::Note {
        method: "window/logMessage".to_string(),
        params: "{\"message\":\"hi\"}".to_string(),
    };
    assert!(matches!(s.feed(note), FeedOutcome::Ignored));
}

#[test]
fn find_definition_returns_known_location() {
    let mut s = fresh();
    s.submit(
        "find_definition",
        position_args("src/lib.rs", 10, 4),
        &lib_doc("fn main() {}"),
    )
    .unwrap();
    let out = run_to_completion(
        &mut s,
        "[{\"path\":\"src/lib.rs\",\"line\":3,\"character\":0}]",
    )
    .unwrap();
    match out {
        CmdOutcome::Locations(locs) => {
            assert_eq!(locs.len(), 1);
            assert_eq!(locs[0].path, "src/lib.rs");
            assert_eq!(locs[0].line, 3);
            assert_eq!(locs[0].character, 0);
        },
        _ => panic!("expected a location list"),
    }
}

#[test]
fn rename_collision_reports_analyzer_error() {
    let mut s = fresh();
    let mut a = position_args("src/lib.rs", 10, 4);
    text_arg(&mut a, "new_name", "x");
    s.submit("rename_symbol", a, &lib_doc("fn main() {}")).unwrap();
    // handshake
    let id = pending_id(&s);
    assert!(matches!(s.feed(success(id, "{}")), FeedOutcome::Advanced));
    // prepare step succeeds
    let id = pending_id(&s);
    assert!(matches!(s.feed(success(id, "{}")), FeedOutcome::Advanced));
    // apply step reports the collision
    let id = pending_id(&s);
    match s.feed(failure(id, 1, "name collides with existing binding")) {
        FeedOutcome::Finished(Err(e)) => {
            assert_eq!(e.kind, ErrorKind::AnalyzerReported);
            assert_eq!(e.message, "name collides with existing binding");
        },
        _ => panic!("expected the analyzer error"),
    }
    assert!(s.exchange.is_none());
}

#[test]
fn rename_prepare_failure_sends_no_apply_request() {
    let mut s = fresh();
    let mut a = position_args("src/lib.rs", 10, 4);
    text_arg(&mut a, "new_name", "x");
    s.submit("rename_symbol", a, &lib_doc("fn main() {}")).unwrap();
    let id = pending_id(&s);
    assert!(matches!(s.feed(success(id, "{}")), FeedOutcome::Advanced));
    let wire_before = s.wire.len();
    let id = pending_id(&s);
    assert!(matches!(
        s.feed(failure(id, 2, "cannot rename here")),
        FeedOutcome::Finished(Err(_))
    ));
    assert_eq!(s.wire.len(), wire_before);
    let renames: usize = s
        .wire
        .iter()
        .filter(|f| frame_text(&f.bytes).contains("textDocument/rename"))
        .count();
    assert_eq!(renames, 0);
}

#[test]
fn timeout_fails_the_exchange() {
    let mut s = fresh();
    let mut a = Args::new();
    text_arg(&mut a, "query", "Foo");
    s.submit("workspace_symbols", a, &Vec::new()).unwrap();
    match s.on_timeout() {
        FeedOutcome::Finished(Err(e)) => assert_eq!(e.kind, ErrorKind::RequestTimeout),
        _ => panic!("expected a timeout failure"),
    }
    assert!(s.exchange.is_none());
    assert_eq!(s.correlator.pending.len(), 0);
}

#[test]
fn cancel_queues_cancel_notification_and_discards_late_response() {
    let mut s = fresh();
    let mut a = Args::new();
    text_arg(&mut a, "query", "Foo");
    s.submit("workspace_symbols", a, &Vec::new()).unwrap();
    let id = pending_id(&s);
    assert!(s.cancel());
    assert!(s.exchange.is_none());
    let last = frame_text(&s.wire.last().unwrap().bytes);
    assert!(last.contains("$/cancelRequest"));
    // the response that arrives after cancellation is discarded
    assert!(matches!(s.feed(success(id, "{}")), FeedOutcome::Ignored));
    assert!(!s.cancel());
}

#[test]
fn handshake_failure_marks_session_failed() {
    let mut s = fresh();
    let mut a = Args::new();
    text_arg(&mut a, "query", "Foo");
    s.submit("workspace_symbols", a, &Vec::new()).unwrap();
    let id = pending_id(&s);
    match s.feed(failure(id, 5, "incompatible client")) {
        FeedOutcome::Finished(Err(e)) => assert_eq!(e.kind, ErrorKind::AnalyzerReported),
        _ => panic!("expected the handshake failure"),
    }
    let mut b = Args::new();
    text_arg(&mut b, "query", "Bar");
    assert_eq!(
        s.submit("workspace_symbols", b, &Vec::new()).unwrap_err(),
        ErrorKind::SessionTerminated
    );
}

#[test]
fn take_unsent_hands_frames_once_in_order() {
    let mut s = fresh();
    let mut a = Args::new();
    text_arg(&mut a, "query", "Foo");
    s.submit("workspace_symbols", a, &Vec::new()).unwrap();
    let first = s.take_unsent();
    assert_eq!(first.len(), s.wire.len());
    assert!(frame_text(&first[0]).contains("initialize"));
    assert!(s.take_unsent().is_empty());
}

#[test]
fn extract_edit_list() {
    let json = "[{\"path\":\"src/lib.rs\",\"start_line\":1,\"start_character\":0,\"end_line\":1,\"end_character\":4,\"new_text\":\"bar\"}]";
    match extract_result(ExtractKind::EditList, json.to_string()).unwrap() {
        CmdOutcome::Edits(edits) => {
            assert_eq!(edits.len(), 1);
            assert_eq!(edits[0].path, "src/lib.rs");
            assert_eq!(edits[0].start_line, 1);
            assert_eq!(edits[0].end_character, 4);
            assert_eq!(edits[0].new_text, "bar");
        },
        _ => panic!("expected an edit list"),
    }
}

#[test]
fn extract_text_summary() {
    match extract_result(ExtractKind::TextSummary, "\"all good\"".to_string()).unwrap() {
        CmdOutcome::Text(t) => assert_eq!(t, "all good"),
        _ => panic!("expected text"),
    }
    match extract_result(ExtractKind::TextSummary, "{\"raw\":1}".to_string()).unwrap() {
        CmdOutcome::Text(t) => assert_eq!(t, "{\"raw\":1}"),
        _ => panic!("expected text"),
    }
}

#[test]
fn extract_rejects_malformed_lists() {
    let r = extract_result(ExtractKind::LocationList, "{\"not\":\"a list\"}".to_string());
    assert_eq!(r.unwrap_err().kind, ErrorKind::MalformedMessage);
    let r = extract_result(ExtractKind::EditList, "[{\"path\":3}]".to_string());
    assert_eq!(r.unwrap_err().kind, ErrorKind::MalformedMessage);
}

#[test]
fn queued_frames_decode_back_to_the_protocol() {
    let mut s = fresh();
    s.submit(
        "find_definition",
        position_args("src/lib.rs", 10, 4),
        &lib_doc("fn main() {}"),
    )
    .unwrap();
    let id = pending_id(&s);
    assert!(matches!(s.feed(success(id, "{}")), FeedOutcome::Advanced));
    let mut parsed: Vec<serde_json::Value> = Vec::new();
    for frame in s.take_unsent() {
        let payload = match decode_frame(&frame) {
            FrameStep::Frame { payload, used } => {
                assert_eq!(used, frame.len());
                payload
            },
            _ => panic!("queued frame does not decode"),
        };
        decode_payload(&payload).unwrap();
        parsed.push(serde_json::from_slice(&payload).unwrap());
    }
    assert_eq!(parsed.len(), 3);
    assert_eq!(parsed[0].get("method").unwrap().as_str().unwrap(), "initialize");
    assert_eq!(
        parsed[1].get("method").unwrap().as_str().unwrap(),
        "textDocument/didOpen"
    );
    let open_params = parsed[1].get("params").unwrap();
    assert_eq!(open_params.get("path").unwrap().as_str().unwrap(), "src/lib.rs");
    assert_eq!(open_params.get("version").unwrap().as_u64().unwrap(), 1);
    assert_eq!(open_params.get("text").unwrap().as_str().unwrap(), "fn main() {}");
    assert_eq!(
        parsed[2].get("method").unwrap().as_str().unwrap(),
        "textDocument/definition"
    );
    let def_params = parsed[2].get("params").unwrap();
    assert_eq!(def_params.get("file_path").unwrap().as_str().unwrap(), "src/lib.rs");
    assert_eq!(def_params.get("line").unwrap().as_u64().unwrap(), 10);
    assert_eq!(def_params.get("character").unwrap().as_u64().unwrap(), 4);
}

#[test]
fn terminated_session_blocks_cache_served_commands() {
    let mut s = fresh();
    let mut a = Args::new();
    text_arg(&mut a, "query", "Foo");
    s.submit("workspace_symbols", a, &Vec::new()).unwrap();
    s.process_exited();
    let mut b = Args::new();
    text_arg(&mut b, "file_path", "src/lib.rs");
    assert_eq!(
        s.submit("get_diagnostics", b, &Vec::new()).unwrap_err(),
        ErrorKind::SessionTerminated
    );
}

#[test]
fn diagnostics_update_leaves_other_documents_alone() {
    let mut s = fresh();
    let first = "{\"path\":\"a.rs\",\"diagnostics\":[{\"start_line\":1,\"start_character\":0,\"end_line\":1,\"end_character\":1,\"severity\":1,\"message\":\"one\",\"source\":\"check\"}]}";
    let second = "{\"path\":\"b.rs\",\"diagnostics\":[{\"start_line\":2,\"start_character\":0,\"end_line\":2,\"end_character\":1,\"severity\":2,\"message\":\"two\",\"source\":\"check\"}]}";
    for params in [first, second] {
        let note = Message::Note {
            method: "textDocument/publishDiagnostics".to_string(),
            params: params.to_string(),
        };
        assert!(matches!(s.feed(note), FeedOutcome::DiagnosticsUpdated));
    }
    let items_a = s.diagnostics_for("a.rs");
    assert_eq!(items_a.len(), 1);
    assert_eq!(items_a[0].message, "one");
    let items_b = s.diagnostics_for("b.rs");
    assert_eq!(items_b.len(), 1);
    assert_eq!(items_b[0].message, "two");
}
