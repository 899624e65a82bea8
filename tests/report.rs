use typos_report::message::{
    BinaryFile, Context, Error, File, FileContext, Message, Parse, ParseKind, PathContext, Status,
    Typo,
};
use typos_report::render::{
    brief_message_lines, brief_typo_lines, context_display, json_record_text, long_typo_lines,
    Output, PrintBrief, PrintJson, PrintLong, PrintSilent,
};
use typos_report::status::MessageStatus;
use typos_report::text::{typo_column, decimal_text, line_text, repeat_text, ticked_text};

fn file_ctx(path: &str, line_num: usize) -> Option<Context> {
    Some(Context::File(FileContext { path: path.to_owned(), line_num }))
}

fn qick(corrections: Status) -> Typo {
    Typo {
        context: file_ctx("a.txt", 1),
        buffer: b"the qick brown fox".to_vec(),
        byte_offset: 4,
        typo: "qick".to_owned(),
        corrections,
    }
}

fn stdout(lines: &[&str]) -> Vec<Output> {
    lines.iter().map(|l| Output::Stdout((*l).to_owned())).collect()
}

fn all_kinds() -> Vec<Message> {
    vec![
        Message::BinaryFile(BinaryFile { path: "bin.dat".to_owned() }),
        Message::Typo(qick(Status::Corrections(vec!["quick".to_owned()]))),
        Message::File(File::new("a.txt".to_owned())),
        Message::Parse(Parse { context: None, kind: ParseKind::Word, data: "qick".to_owned() }),
        Message::Error(Error::new("boom".to_owned())),
    ]
}

#[test]
fn silent_outputs_nothing() {
    for m in all_kinds() {
        assert!(PrintSilent.report(&m).is_empty());
    }
}

#[test]
fn column_counts_graphemes_not_bytes() {
    let buffer = "héllo world".as_bytes().to_vec();
    assert_eq!(typo_column(&buffer, 3), Some(2));
    assert_eq!(typo_column(&buffer, 2), None);
}

#[test]
fn column_counts_combining_sequence_once() {
    let buffer = "e\u{301}x".as_bytes().to_vec();
    assert_eq!(typo_column(&buffer, 3), Some(1));
}

#[test]
fn tab_counts_as_one_column() {
    let buffer = b"a\tb".to_vec();
    assert_eq!(typo_column(&buffer, 3), Some(3));
    assert_eq!(line_text(&buffer), "a b");
}

#[test]
fn column_rejects_offset_past_end() {
    assert_eq!(typo_column(&b"abc".to_vec(), 4), None);
    assert_eq!(typo_column(&b"abc".to_vec(), 0), Some(0));
}

#[test]
fn invalid_bytes_are_decoded_leniently() {
    let buffer = vec![b'a', 0xff, b'b'];
    assert_eq!(line_text(&buffer), "a\u{fffd}b");
    assert_eq!(typo_column(&buffer, 4), Some(2));
}

#[test]
fn long_format_scenario() {
    let m = Message::Typo(qick(Status::Corrections(vec!["quick".to_owned()])));
    let lines = PrintLong.report(&m).unwrap();
    assert_eq!(
        lines,
        stdout(&[
            "error: `qick` should be `quick`",
            "  --> a.txt:1:4",
            "  |",
            "1 | the qick brown fox",
            "  |     ^^^^",
            "  |",
        ])
    );
}

#[test]
fn long_format_trims_line_end_and_widens_gutter() {
    let mut t = qick(Status::Invalid);
    t.context = file_ctx("a.txt", 12);
    t.buffer = b"the qick  \n".to_vec();
    let lines = PrintLong.report(&Message::Typo(t)).unwrap();
    assert_eq!(
        lines,
        stdout(&[
            "error: `qick` is disallowed",
            "  --> a.txt:12:4",
            "   |",
            "12 | the qick",
            "   |     ^^^^",
            "   |",
        ])
    );
}

#[test]
fn long_format_carets_follow_bytes() {
    let t = Typo {
        context: file_ctx("b.txt", 3),
        buffer: "x héé".as_bytes().to_vec(),
        byte_offset: 2,
        typo: "héé".to_owned(),
        corrections: Status::Invalid,
    };
    let lines = long_typo_lines(&t, 2, "x héé");
    assert_eq!(lines[4], Output::Stdout("  |   ^^^^^".to_owned()));
}

#[test]
fn long_format_path_context_has_no_excerpt() {
    let mut t = qick(Status::Invalid);
    t.context = Some(Context::Path(PathContext { path: "dir".to_owned() }));
    let lines = PrintLong.report(&Message::Typo(t)).unwrap();
    assert_eq!(lines, stdout(&["error: `qick` is disallowed", "  --> dir:4"]));
}

#[test]
fn long_format_valid_is_silent() {
    let m = Message::Typo(qick(Status::Valid));
    assert!(PrintLong.report(&m).unwrap().is_empty());
}

#[test]
fn brief_format_scenario() {
    let m = Message::Typo(qick(Status::Corrections(vec!["quick".to_owned()])));
    assert_eq!(PrintBrief.report(&m).unwrap(), stdout(&["a.txt:1:4: `qick` -> `quick`"]));
}

#[test]
fn brief_format_lists_every_correction() {
    let t = qick(Status::Corrections(vec!["quick".to_owned(), "quack".to_owned()]));
    assert_eq!(
        brief_typo_lines(&t, 4),
        stdout(&["a.txt:1:4: `qick` -> `quick`, `quack`"])
    );
}

#[test]
fn invalid_status_scenario() {
    let m = Message::Typo(qick(Status::Invalid));
    let lines = PrintBrief.report(&m).unwrap();
    assert_eq!(lines, stdout(&["a.txt:1:4: `qick` is disallowed"]));
    match &lines[0] {
        Output::Stdout(s) => {
            assert!(s.ends_with("is disallowed"));
            assert!(!s.contains("->"));
        }
        _ => panic!("expected a line of output"),
    }
}

#[test]
fn brief_valid_is_silent() {
    assert!(PrintBrief.report(&Message::Typo(qick(Status::Valid))).unwrap().is_empty());
}

#[test]
fn brief_rejects_offset_inside_character() {
    let t = Typo {
        context: None,
        buffer: "é".as_bytes().to_vec(),
        byte_offset: 1,
        typo: "é".to_owned(),
        corrections: Status::Invalid,
    };
    assert!(PrintBrief.report(&Message::Typo(t.clone())).is_none());
    assert!(PrintLong.report(&Message::Typo(t)).is_none());
}

#[test]
fn brief_other_events() {
    let kinds = all_kinds();
    assert_eq!(
        brief_message_lines(&kinds[0], 0),
        vec![Output::Info("Skipping binary file bin.dat".to_owned())]
    );
    assert_eq!(brief_message_lines(&kinds[2], 0), stdout(&["a.txt"]));
    assert_eq!(brief_message_lines(&kinds[3], 0), stdout(&["qick"]));
    assert_eq!(
        brief_message_lines(&kinds[4], 0),
        vec![Output::Error(": boom".to_owned())]
    );
    let located = Error::new("boom".to_owned()).context(file_ctx("a.txt", 2));
    assert_eq!(
        PrintLong.report(&Message::Error(located)).unwrap(),
        vec![Output::Error("a.txt:2: boom".to_owned())]
    );
}

#[test]
fn context_display_forms() {
    assert_eq!(context_display(&file_ctx("a.txt", 7)), "a.txt:7");
    assert_eq!(
        context_display(&Some(Context::Path(PathContext { path: "dir/b".to_owned() }))),
        "dir/b"
    );
    assert_eq!(context_display(&None), "");
    assert_eq!(file_ctx("x", 10).unwrap().display(), "x:10");
}

#[test]
fn context_ignored_by_binary_and_file_events() {
    let b = Message::BinaryFile(BinaryFile { path: "bin.dat".to_owned() });
    match b.context(file_ctx("a.txt", 1)) {
        Message::BinaryFile(b) => assert_eq!(b.path, "bin.dat"),
        _ => panic!("variant changed"),
    }
    let f = Message::File(File::new("a.txt".to_owned()));
    match f.context(file_ctx("a.txt", 1)) {
        Message::File(f) => assert_eq!(f.path, "a.txt"),
        _ => panic!("variant changed"),
    }
}

#[test]
fn context_replaces_and_clears() {
    let m = Message::Typo(qick(Status::Invalid)).context(None);
    match &m {
        Message::Typo(t) => {
            assert!(t.context.is_none());
            assert_eq!(t.typo, "qick");
        }
        _ => panic!("variant changed"),
    }
    let p = Message::Parse(Parse::default()).context(file_ctx("c.rs", 5));
    assert_eq!(PrintJson.report(&p), stdout(&[
        r#"{"type":"parse","path":"c.rs","line_num":5,"kind":"identifier","data":""}"#
    ]));
}

#[test]
fn predicates() {
    let kinds = all_kinds();
    let corrections: Vec<bool> = kinds.iter().map(|m| m.is_correction()).collect();
    let errors: Vec<bool> = kinds.iter().map(|m| m.is_error()).collect();
    assert_eq!(corrections, vec![false, true, false, false, false]);
    assert_eq!(errors, vec![false, false, false, false, true]);
    assert!(Message::Typo(qick(Status::Invalid)).is_correction());
    assert!(!Message::Typo(qick(Status::Valid)).is_correction());
}

#[test]
fn status_latches_stay_set() {
    let status = MessageStatus::new(PrintSilent);
    assert!(!status.typos_found());
    assert!(!status.errors_found());
    status.record(&Message::File(File::new("a.txt".to_owned())));
    status.record(&Message::Typo(qick(Status::Valid)));
    assert!(!status.typos_found());
    status.record(&Message::Error(Error::new("boom".to_owned())));
    assert!(status.errors_found());
    assert!(!status.typos_found());
    status.record(&Message::Typo(qick(Status::Invalid)));
    status.record(&Message::File(File::new("b.txt".to_owned())));
    status.record(&Message::Typo(qick(Status::Valid)));
    assert!(status.typos_found());
    assert!(status.errors_found());
    assert!(status.reporter().report(&Message::File(File::default())).is_empty());
}

#[test]
fn json_records() {
    let kinds = all_kinds();
    let records: Vec<String> = kinds.iter().map(json_record_text).collect();
    assert_eq!(records[0], r#"{"type":"binary_file","path":"bin.dat"}"#);
    assert_eq!(
        records[1],
        r#"{"type":"typo","path":"a.txt","line_num":1,"byte_offset":4,"typo":"qick","corrections":["quick"]}"#
    );
    assert_eq!(records[2], r#"{"type":"file","path":"a.txt"}"#);
    assert_eq!(records[3], r#"{"type":"parse","kind":"word","data":"qick"}"#);
    assert_eq!(records[4], r#"{"type":"error","msg":"boom"}"#);
}

#[test]
fn json_status_forms_and_escapes() {
    let mut t = qick(Status::Valid);
    t.context = Some(Context::Path(PathContext { path: "d".to_owned() }));
    assert_eq!(
        json_record_text(&Message::Typo(t.clone())),
        r#"{"type":"typo","path":"d","byte_offset":4,"typo":"qick","corrections":"valid"}"#
    );
    t.corrections = Status::Invalid;
    assert!(json_record_text(&Message::Typo(t.clone())).ends_with(r#""corrections":"invalid"}"#));
    t.corrections = Status::Corrections(vec!["a".to_owned(), "b".to_owned()]);
    assert!(json_record_text(&Message::Typo(t)).ends_with(r#""corrections":["a","b"]}"#));
    let e = Message::Error(Error::new("say \"hi\"\n".to_owned()));
    assert_eq!(PrintJson.report(&e), stdout(&[r#"{"type":"error","msg":"say \"hi\"\n"}"#]));
}

#[test]
fn json_ignores_buffer() {
    let a = qick(Status::Invalid);
    let b = a.clone().buffer(b"something else".to_vec());
    assert_eq!(
        json_record_text(&Message::Typo(a)),
        json_record_text(&Message::Typo(b))
    );
}

#[test]
fn text_helpers() {
    assert_eq!(decimal_text(0), "0");
    assert_eq!(decimal_text(1907), "1907");
    assert_eq!(decimal_text(usize::MAX), usize::MAX.to_string());
    assert_eq!(repeat_text("^", 3), "^^^");
    assert_eq!(repeat_text(" ", 0), "");
    assert_eq!(ticked_text(&vec![]), "");
    assert_eq!(ticked_text(&vec!["a".to_owned(), "b".to_owned()]), "`a`, `b`");
}

#[test]
fn defaults_and_setters() {
    let t = Typo::default();
    assert!(t.context.is_none() && t.buffer.is_empty() && t.byte_offset == 0 && t.typo.is_empty());
    assert!(matches!(t.corrections, Status::Invalid));
    let t = t.typo("teh".to_owned()).byte_offset(2).corrections(Status::Valid);
    assert_eq!((t.typo.as_str(), t.byte_offset), ("teh", 2));
    let f = FileContext::default().path("x".to_owned()).line_num(9);
    assert_eq!((f.path.as_str(), f.line_num), ("x", 9));
    assert_eq!(PathContext::default().path, "-");
    assert_eq!(File::default().path, "-");
    assert_eq!(FileContext::default().path, "-");
    let p = Parse::default().kind(ParseKind::Word).data("w".to_owned());
    assert_eq!((p.kind, p.data.as_str()), (ParseKind::Word, "w"));
    assert_eq!(Error::default().msg(String::from("m")).msg, "m");
    assert_eq!(BinaryFile { path: String::new() }.path("p".to_owned()).path, "p");
}

#[test]
fn conversions_into_events_and_contexts() {
    let m: Message = File::new("a.txt".to_owned()).into();
    assert!(matches!(m, Message::File(ref f) if f.path == "a.txt"));
    let m: Message = Typo::default().into();
    assert!(m.is_correction());
    let m: Message = Error::default().into();
    assert!(m.is_error());
    let c: Context = FileContext { path: "a".to_owned(), line_num: 3 }.into();
    assert_eq!(c.display(), "a:3");
    let c: Context = PathContext::default().into();
    assert_eq!(c.display(), "-");
    let m: Message = BinaryFile { path: "b".to_owned() }.into();
    assert!(!m.is_error());
    let m: Message = Parse::default().into();
    assert!(!m.is_correction());
}
