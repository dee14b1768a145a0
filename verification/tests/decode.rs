use nix_progress::json::{ErrorCategory, Json};
use nix_progress::log_item::{
    log_item_from, parse_line, parse_log_item, Activity, ActivityType, LogItem, LogResult,
    ResultType, Verbosity, PREFIX,
};

fn decode(line: &str) -> LogItem {
    parse_line(line).expect("the line decodes")
}

fn text(s: &str) -> String {
    s.to_string()
}

fn object(members: Vec<(&str, Json)>) -> Json {
    Json::Object(members.into_iter().map(|(k, v)| (k.to_string(), v)).collect())
}

#[test]
fn plain_line_is_output_line() {
    assert_eq!(decode("building hello"), LogItem::OutputLine(text("building hello")));
    assert_eq!(decode(""), LogItem::OutputLine(text("")));
}

#[test]
fn json_without_prefix_is_output_line() {
    let line = r#"{"action":"stop","id":3}"#;
    assert_eq!(decode(line), LogItem::OutputLine(text(line)));
}

#[test]
fn prefix_has_to_stand_at_the_start() {
    let line = r#" @nix {"action":"stop","id":3}"#;
    assert_eq!(decode(line), LogItem::OutputLine(text(line)));
    assert_eq!(decode("@nix"), LogItem::OutputLine(text("@nix")));
    assert_eq!(decode("@nixx {}"), LogItem::OutputLine(text("@nixx {}")));
}

#[test]
fn prefix_is_the_marker_with_its_space() {
    assert_eq!(PREFIX, "@nix ");
}

#[test]
fn stop_line() {
    assert_eq!(decode(r#"@nix {"action":"stop","id":3}"#), LogItem::Stop { id: 3 });
    assert_eq!(decode(r#"@nix {"id":-4,"action":"stop"}"#), LogItem::Stop { id: -4 });
}

#[test]
fn msg_line() {
    assert_eq!(
        decode(r#"@nix {"action":"msg","level":0,"msg":"build failed"}"#),
        LogItem::Msg { level: Verbosity::Error, msg: text("build failed") }
    );
    assert_eq!(
        decode(r#"@nix {"action":"msg","level":7,"msg":""}"#),
        LogItem::Msg { level: Verbosity::Vomit, msg: text("") }
    );
}

#[test]
fn msg_line_keeps_text_beyond_ascii() {
    assert_eq!(
        decode("@nix {\"action\":\"msg\",\"level\":1,\"msg\":\"h\u{e9}llo \u{2713}\"}"),
        LogItem::Msg { level: Verbosity::Warn, msg: text("h\u{e9}llo \u{2713}") }
    );
}

#[test]
fn msg_with_undefined_level_is_unknown() {
    let item = decode(r#"@nix {"action":"msg","level":8,"msg":"x"}"#);
    assert_eq!(
        item,
        LogItem::UnknownItem(object(vec![
            ("action", Json::Str(text("msg"))),
            ("level", Json::Int(8)),
            ("msg", Json::Str(text("x"))),
        ]))
    );
    assert!(matches!(
        decode(r#"@nix {"action":"msg","level":-1,"msg":"x"}"#),
        LogItem::UnknownItem(_)
    ));
}

#[test]
fn msg_with_missing_member_is_unknown() {
    assert!(matches!(decode(r#"@nix {"action":"msg","level":0}"#), LogItem::UnknownItem(_)));
    assert!(matches!(decode(r#"@nix {"action":"msg","msg":"x"}"#), LogItem::UnknownItem(_)));
    assert!(matches!(
        decode(r#"@nix {"action":"msg","level":"0","msg":"x"}"#),
        LogItem::UnknownItem(_)
    ));
    assert!(matches!(
        decode(r#"@nix {"action":"msg","level":0,"msg":5}"#),
        LogItem::UnknownItem(_)
    ));
}

#[test]
fn start_copy_path() {
    let line = r#"@nix {"action":"start","id":1,"level":3,"text":"copying","type":100,"fields":["/nix/store/abc-hello","https://cache","local"]}"#;
    assert_eq!(
        decode(line),
        LogItem::Start {
            id: 1,
            level: Verbosity::Info,
            text: text("copying"),
            activity: Activity::CopyPath {
                path: text("/nix/store/abc-hello"),
                from: text("https://cache"),
                to: text("local"),
            },
        }
    );
}

#[test]
fn start_build() {
    let line = r#"@nix {"action":"start","id":9007199254740993,"level":4,"text":"building","type":105,"fields":["/nix/store/abc-hello-1.0.drv","",1,2]}"#;
    assert_eq!(
        decode(line),
        LogItem::Start {
            id: 9007199254740993,
            level: Verbosity::Talkative,
            text: text("building"),
            activity: Activity::Build {
                path: text("/nix/store/abc-hello-1.0.drv"),
                machine: text(""),
                round: 1,
                total_rounds: 2,
            },
        }
    );
}

#[test]
fn start_of_each_kind_with_fields() {
    let start = |kind: i64, fields: &str| {
        decode(&format!(
            r#"@nix {{"action":"start","id":2,"level":0,"text":"t","type":{},"fields":{}}}"#,
            kind, fields
        ))
    };
    let activity = |item: LogItem| match item {
        LogItem::Start { id: 2, level: Verbosity::Error, text, activity } if text == "t" => activity,
        other => panic!("no start: {:?}", other),
    };
    assert_eq!(activity(start(101, r#"["u"]"#)), Activity::FileTransfer { uri: text("u") });
    assert_eq!(
        activity(start(108, r#"["p","u"]"#)),
        Activity::Substitute { path: text("p"), uri: text("u") }
    );
    assert_eq!(
        activity(start(109, r#"["p","u"]"#)),
        Activity::QueryPathInfo { path: text("p"), uri: text("u") }
    );
    assert_eq!(activity(start(110, r#"["p"]"#)), Activity::PostBuildHook { path: text("p") });
    assert_eq!(
        activity(start(111, r#"["p","r"]"#)),
        Activity::BuildWaiting { path: text("p"), resolved: text("r") }
    );
}

#[test]
fn start_of_each_kind_without_fields() {
    let start = |kind: i64| {
        decode(&format!(r#"@nix {{"action":"start","id":2,"level":0,"text":"t","type":{}}}"#, kind))
    };
    let activity = |item: LogItem| match item {
        LogItem::Start { activity, .. } => activity,
        other => panic!("no start: {:?}", other),
    };
    assert_eq!(activity(start(0)), Activity::Unknown);
    assert_eq!(activity(start(102)), Activity::Realise);
    assert_eq!(activity(start(103)), Activity::CopyPaths);
    assert_eq!(activity(start(104)), Activity::Builds);
    assert_eq!(activity(start(106)), Activity::OptimiseStore);
    assert_eq!(activity(start(107)), Activity::VerifyPaths);
}

#[test]
fn start_without_fields_takes_any_fields() {
    let line = r#"@nix {"action":"start","id":2,"level":0,"text":"t","type":104,"fields":"none"}"#;
    assert!(matches!(decode(line), LogItem::Start { activity: Activity::Builds, .. }));
    let line = r#"@nix {"action":"start","id":2,"level":0,"text":"t","type":102,"fields":[1,2,3]}"#;
    assert!(matches!(decode(line), LogItem::Start { activity: Activity::Realise, .. }));
}

#[test]
fn start_with_undefined_type_is_unknown_activity() {
    for kind in [1i64, 99, 112, 999, -100, i64::MAX, i64::MIN] {
        let line = format!(
            r#"@nix {{"action":"start","id":5,"level":2,"text":"t","type":{},"fields":["a",1]}}"#,
            kind
        );
        assert_eq!(
            decode(&line),
            LogItem::Start {
                id: 5,
                level: Verbosity::Notice,
                text: text("t"),
                activity: Activity::Unknown,
            }
        );
    }
}

#[test]
fn start_with_wrong_fields_is_unknown() {
    let start = |kind: i64, fields: &str| {
        decode(&format!(
            r#"@nix {{"action":"start","id":2,"level":0,"text":"t","type":{},"fields":{}}}"#,
            kind, fields
        ))
    };
    assert!(matches!(start(100, r#"["a","b"]"#), LogItem::UnknownItem(_)));
    assert!(matches!(start(100, r#"["a","b","c","d"]"#), LogItem::UnknownItem(_)));
    assert!(matches!(start(100, r#"["a","b",3]"#), LogItem::UnknownItem(_)));
    assert!(matches!(start(100, r#"{"0":"a"}"#), LogItem::UnknownItem(_)));
    assert!(matches!(start(101, r#"[]"#), LogItem::UnknownItem(_)));
    assert!(matches!(start(105, r#"["p","m",1.5,2]"#), LogItem::UnknownItem(_)));
    assert!(matches!(start(105, r#"["p","m","1",2]"#), LogItem::UnknownItem(_)));
    assert!(matches!(start(105, r#"["p","m",1,18446744073709551615]"#), LogItem::UnknownItem(_)));
    let line = r#"@nix {"action":"start","id":2,"level":0,"text":"t","type":101}"#;
    assert!(matches!(decode(line), LogItem::UnknownItem(_)));
}

#[test]
fn start_with_missing_member_is_unknown() {
    assert!(matches!(
        decode(r#"@nix {"action":"start","level":0,"text":"t","type":102}"#),
        LogItem::UnknownItem(_)
    ));
    assert!(matches!(
        decode(r#"@nix {"action":"start","id":1,"text":"t","type":102}"#),
        LogItem::UnknownItem(_)
    ));
    assert!(matches!(
        decode(r#"@nix {"action":"start","id":1,"level":0,"type":102}"#),
        LogItem::UnknownItem(_)
    ));
    assert!(matches!(
        decode(r#"@nix {"action":"start","id":1,"level":0,"text":"t"}"#),
        LogItem::UnknownItem(_)
    ));
    assert!(matches!(
        decode(r#"@nix {"action":"start","id":1,"level":0,"text":"t","type":"102"}"#),
        LogItem::UnknownItem(_)
    ));
}

#[test]
fn result_of_each_kind() {
    let result = |kind: i64, fields: &str| {
        match decode(&format!(
            r#"@nix {{"action":"result","id":4,"type":{},"fields":{}}}"#,
            kind, fields
        )) {
            LogItem::Result { id: 4, result } => result,
            other => panic!("no result: {:?}", other),
        }
    };
    assert_eq!(result(100, "[7,4096]"), LogResult::FileLinked { size: 7, blocks: 4096 });
    assert_eq!(result(100, "[4096,8]"), LogResult::FileLinked { size: 4096, blocks: 8 });
    assert_eq!(result(101, r#"["line"]"#), LogResult::BuildLogLine { line: text("line") });
    assert_eq!(result(102, r#"["p"]"#), LogResult::UntrustedPath { path: text("p") });
    assert_eq!(result(103, r#"["p"]"#), LogResult::CorruptedPath { path: text("p") });
    assert_eq!(result(104, r#"["configure"]"#), LogResult::SetPhase { phase: text("configure") });
    assert_eq!(
        result(105, "[5,10,1,0]"),
        LogResult::Progress { done: 5, expected: 10, running: 1, failed: 0 }
    );
    assert_eq!(
        result(106, "[105,3]"),
        LogResult::SetExpected { activity_type: ActivityType::Build, expected: 3 }
    );
    assert_eq!(result(107, r#"["post"]"#), LogResult::PostBuildLogLine { line: text("post") });
}

#[test]
fn linked_file_gives_its_size_before_its_blocks() {
    let value = object(vec![
        ("action", Json::Str(text("result"))),
        ("fields", Json::Array(vec![Json::Int(4096), Json::Int(8)])),
        ("id", Json::Int(7)),
        ("type", Json::Int(ResultType::FileLinked.code())),
    ]);
    assert_eq!(
        parse_log_item(&value),
        Some(LogItem::Result { id: 7, result: LogResult::FileLinked { size: 4096, blocks: 8 } })
    );
    assert_eq!(
        decode(r#"@nix {"action":"result","id":7,"type":100,"fields":[4096,8]}"#),
        LogItem::Result { id: 7, result: LogResult::FileLinked { size: 4096, blocks: 8 } }
    );
}

#[test]
fn set_expected_with_undefined_kind_names_unknown() {
    assert_eq!(
        decode(r#"@nix {"action":"result","id":4,"type":106,"fields":[999,3]}"#),
        LogItem::Result {
            id: 4,
            result: LogResult::SetExpected { activity_type: ActivityType::Unknown, expected: 3 },
        }
    );
}

#[test]
fn result_with_undefined_type_is_unknown() {
    for kind in [0i64, 99, 108, 1000, -1] {
        let line =
            format!(r#"@nix {{"action":"result","id":4,"type":{},"fields":["x"]}}"#, kind);
        assert!(matches!(decode(&line), LogItem::UnknownItem(_)));
    }
}

#[test]
fn result_with_wrong_fields_is_unknown() {
    let result = |kind: i64, fields: &str| {
        decode(&format!(
            r#"@nix {{"action":"result","id":4,"type":{},"fields":{}}}"#,
            kind, fields
        ))
    };
    assert!(matches!(result(100, "[7]"), LogItem::UnknownItem(_)));
    assert!(matches!(result(101, "[7]"), LogItem::UnknownItem(_)));
    assert!(matches!(result(101, r#"["a","b"]"#), LogItem::UnknownItem(_)));
    assert!(matches!(result(105, "[5,10,1]"), LogItem::UnknownItem(_)));
    assert!(matches!(result(105, "[5,10,1,0.5]"), LogItem::UnknownItem(_)));
    assert!(matches!(result(106, r#"["105",3]"#), LogItem::UnknownItem(_)));
    assert!(matches!(
        decode(r#"@nix {"action":"result","id":4,"type":105}"#),
        LogItem::UnknownItem(_)
    ));
    assert!(matches!(
        decode(r#"@nix {"action":"result","type":105,"fields":[5,10,1,0]}"#),
        LogItem::UnknownItem(_)
    ));
}

#[test]
fn numbers_that_are_no_i64_are_not_ids() {
    assert!(matches!(decode(r#"@nix {"action":"stop","id":1.0}"#), LogItem::UnknownItem(_)));
    assert!(matches!(
        decode(r#"@nix {"action":"stop","id":9223372036854775808}"#),
        LogItem::UnknownItem(_)
    ));
    assert_eq!(
        decode(r#"@nix {"action":"stop","id":9223372036854775807}"#),
        LogItem::Stop { id: i64::MAX }
    );
    assert_eq!(
        decode(r#"@nix {"action":"stop","id":-9223372036854775808}"#),
        LogItem::Stop { id: i64::MIN }
    );
}

#[test]
fn other_actions_and_shapes_are_unknown() {
    assert_eq!(
        decode(r#"@nix {"action":"pause","id":1}"#),
        LogItem::UnknownItem(object(vec![
            ("action", Json::Str(text("pause"))),
            ("id", Json::Int(1)),
        ]))
    );
    assert_eq!(decode("@nix {}"), LogItem::UnknownItem(Json::Object(vec![])));
    assert_eq!(decode("@nix []"), LogItem::UnknownItem(Json::Array(vec![])));
    assert_eq!(decode("@nix null"), LogItem::UnknownItem(Json::Null));
    assert_eq!(decode("@nix 12"), LogItem::UnknownItem(Json::Int(12)));
    assert_eq!(decode(r#"@nix "stop""#), LogItem::UnknownItem(Json::Str(text("stop"))));
    assert!(matches!(decode(r#"@nix {"action":5}"#), LogItem::UnknownItem(_)));
    assert!(matches!(decode(r#"@nix {"Action":"stop","id":1}"#), LogItem::UnknownItem(_)));
}

#[test]
fn text_that_is_not_json_is_an_error() {
    let error = parse_line("@nix {").unwrap_err();
    assert_eq!(error.category, ErrorCategory::Eof);
    let error = parse_line("@nix ").unwrap_err();
    assert_eq!(error.category, ErrorCategory::Eof);
    assert_eq!(error.line, 1);
    let error = parse_line("@nix nonsense").unwrap_err();
    assert_eq!(error.category, ErrorCategory::Syntax);
    assert_eq!(error.line, 1);
    assert_eq!(error.column, 2);
    let error = parse_line(r#"@nix {"action":"stop","id":3} trailing"#).unwrap_err();
    assert_eq!(error.category, ErrorCategory::Syntax);
    assert!(error.message.contains("trailing characters"));
}

#[test]
fn parse_log_item_reads_a_hand_made_value() {
    let value = object(vec![("action", Json::Str(text("stop"))), ("id", Json::Int(11))]);
    assert_eq!(parse_log_item(&value), Some(LogItem::Stop { id: 11 }));
    let value = object(vec![("action", Json::Str(text("stop"))), ("id", Json::Number(text("1.5")))]);
    assert_eq!(parse_log_item(&value), None);
    assert_eq!(parse_log_item(&Json::Null), None);
    assert_eq!(parse_log_item(&Json::Array(vec![Json::Str(text("stop"))])), None);
}

#[test]
fn parse_log_item_takes_the_first_of_equal_keys() {
    let value = object(vec![
        ("action", Json::Str(text("stop"))),
        ("id", Json::Int(1)),
        ("id", Json::Int(2)),
        ("action", Json::Str(text("msg"))),
    ]);
    assert_eq!(parse_log_item(&value), Some(LogItem::Stop { id: 1 }));
}

#[test]
fn log_item_from_keeps_what_it_cannot_read() {
    let value = object(vec![("action", Json::Str(text("start"))), ("id", Json::Int(1))]);
    let same = object(vec![("action", Json::Str(text("start"))), ("id", Json::Int(1))]);
    assert_eq!(log_item_from(value), LogItem::UnknownItem(same));
    let value = object(vec![("action", Json::Str(text("stop"))), ("id", Json::Int(1))]);
    assert_eq!(log_item_from(value), LogItem::Stop { id: 1 });
}

#[test]
fn encoded_events_are_read_back() {
    let start = object(vec![
        ("action", Json::Str(text("start"))),
        (
            "fields",
            Json::Array(vec![
                Json::Str(text("/nix/store/abc-hello.drv")),
                Json::Str(text("builder")),
                Json::Int(1),
                Json::Int(1),
            ]),
        ),
        ("id", Json::Int(8)),
        ("level", Json::Int(Verbosity::Chatty.code())),
        ("text", Json::Str(text("building"))),
        ("type", Json::Int(ActivityType::Build.code())),
    ]);
    assert_eq!(
        parse_log_item(&start),
        Some(LogItem::Start {
            id: 8,
            level: Verbosity::Chatty,
            text: text("building"),
            activity: Activity::Build {
                path: text("/nix/store/abc-hello.drv"),
                machine: text("builder"),
                round: 1,
                total_rounds: 1,
            },
        })
    );
    let result = object(vec![
        ("action", Json::Str(text("result"))),
        ("fields", Json::Array(vec![Json::Int(ActivityType::CopyPath.code()), Json::Int(4)])),
        ("id", Json::Int(8)),
        ("type", Json::Int(ResultType::SetExpected.code())),
    ]);
    assert_eq!(
        parse_log_item(&result),
        Some(LogItem::Result {
            id: 8,
            result: LogResult::SetExpected { activity_type: ActivityType::CopyPath, expected: 4 },
        })
    );
}

#[test]
fn kinds_and_levels_keep_their_codes() {
    for code in 0..=7 {
        assert_eq!(Verbosity::from_code(code).map(|level| level.code()), Some(code));
    }
    assert_eq!(Verbosity::from_code(8), None);
    assert_eq!(Verbosity::from_code(-1), None);
    assert_eq!(Verbosity::Error.code(), 0);
    assert_eq!(Verbosity::Vomit.code(), 7);
    for code in 100..=111 {
        assert!(ActivityType::is_defined(code));
        assert_eq!(ActivityType::from_code(code).code(), code);
    }
    assert!(ActivityType::is_defined(0));
    assert!(!ActivityType::is_defined(99));
    assert!(!ActivityType::is_defined(112));
    assert_eq!(ActivityType::from_code(0), ActivityType::Unknown);
    assert_eq!(ActivityType::from_code(112), ActivityType::Unknown);
    assert_eq!(ActivityType::from_code(105), ActivityType::Build);
    assert_eq!(ActivityType::BuildWaiting.code(), 111);
    for code in 100..=107 {
        assert_eq!(ResultType::from_code(code).map(|kind| kind.code()), Some(code));
    }
    assert_eq!(ResultType::from_code(99), None);
    assert_eq!(ResultType::from_code(108), None);
    assert_eq!(ResultType::from_code(105), Some(ResultType::Progress));
}

#[test]
fn levels_are_ordered_by_severity() {
    assert!(Verbosity::Error < Verbosity::Warn);
    assert!(Verbosity::Warn < Verbosity::Notice);
    assert!(Verbosity::Debug < Verbosity::Vomit);
    assert!(Verbosity::Error.at_least(Verbosity::Error));
    assert!(Verbosity::Error.at_least(Verbosity::Vomit));
    assert!(!Verbosity::Warn.at_least(Verbosity::Error));
}

#[test]
fn to_type_names_the_kind() {
    assert_eq!(Activity::Unknown.to_type(), ActivityType::Unknown);
    assert_eq!(Activity::FileTransfer { uri: text("u") }.to_type(), ActivityType::FileTransfer);
    assert_eq!(
        Activity::Build { path: text("p"), machine: text("m"), round: 0, total_rounds: 0 }
            .to_type(),
        ActivityType::Build
    );
    assert_eq!(Activity::CopyPaths.to_type(), ActivityType::CopyPaths);
    assert_eq!(
        Activity::BuildWaiting { path: text("p"), resolved: text("r") }.to_type(),
        ActivityType::BuildWaiting
    );
}
