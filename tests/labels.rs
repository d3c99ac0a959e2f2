use verilog_extension::{
    completion_label, symbol_label, Adapter, Annotation, CompletionRecord, DisplayLabel,
    Highlight, RecordKind, ServerKind, SymbolRecord,
};

fn symbol(name: &str, kind: RecordKind) -> SymbolRecord {
    SymbolRecord { name: name.to_string(), kind }
}

fn completion(label: &str, kind: Option<RecordKind>, detail: Option<&str>) -> CompletionRecord {
    CompletionRecord { label: label.to_string(), kind, detail: detail.map(|d| d.to_string()) }
}

fn assert_well_annotated(l: &DisplayLabel) {
    for (i, a) in l.annotations.iter().enumerate() {
        assert!(a.start < a.end && a.end <= l.text.len());
        for b in l.annotations.iter().skip(i + 1) {
            assert!(a.end <= b.start || b.end <= a.start);
        }
    }
}

#[test]
fn module_symbol_label() {
    let adapter = Adapter::new();
    let l = adapter.label_for_symbol("svls", &symbol("always_block", RecordKind::Module)).unwrap();
    assert_eq!(l.text, "always_block");
    assert_eq!(
        l.annotations,
        vec![Annotation { start: 0, end: 12, style: Highlight::Declaration }]
    );
    assert_eq!(l.filter_end, 12);
}

#[test]
fn symbol_styles_follow_kind() {
    let f = symbol_label(ServerKind::Svls, &symbol("compute", RecordKind::Function)).unwrap();
    assert_eq!(f.annotations[0].style, Highlight::Function);
    let v = symbol_label(ServerKind::Svls, &symbol("data_q", RecordKind::Variable)).unwrap();
    assert_eq!(v.annotations[0].style, Highlight::Variable);
    let c = symbol_label(ServerKind::Svls, &symbol("WIDTH", RecordKind::Constant)).unwrap();
    assert_eq!(c.annotations[0].style, Highlight::Constant);
}

#[test]
fn symbol_label_declines() {
    let adapter = Adapter::new();
    assert!(adapter.label_for_symbol("svls", &symbol("x", RecordKind::Other)).is_none());
    assert!(adapter.label_for_symbol("svls", &symbol("", RecordKind::Module)).is_none());
    assert!(adapter
        .label_for_symbol("unknown-server-123", &symbol("top", RecordKind::Module))
        .is_none());
}

#[test]
fn completion_with_detail() {
    let adapter = Adapter::new();
    let l = adapter
        .label_for_completion(
            "svls",
            &completion("clk", Some(RecordKind::Variable), Some("logic")),
        )
        .unwrap();
    assert_eq!(l.text, "clk logic");
    assert_eq!(
        l.annotations,
        vec![
            Annotation { start: 0, end: 3, style: Highlight::Variable },
            Annotation { start: 4, end: 9, style: Highlight::Type },
        ]
    );
    assert_eq!(l.filter_end, 3);
    assert_well_annotated(&l);
}

#[test]
fn completion_ranges_count_bytes() {
    let l = completion_label(
        ServerKind::Svls,
        &completion("größe", Some(RecordKind::Constant), Some("µs")),
    )
    .unwrap();
    assert_eq!(l.text, "größe µs");
    assert_eq!(l.annotations[0], Annotation { start: 0, end: 7, style: Highlight::Constant });
    assert_eq!(l.annotations[1], Annotation { start: 8, end: 11, style: Highlight::Type });
    assert_eq!(&l.text[l.annotations[1].start..l.annotations[1].end], "µs");
    assert_well_annotated(&l);
}

#[test]
fn completion_without_or_with_empty_detail() {
    for detail in [None, Some("")] {
        let l = completion_label(
            ServerKind::Svls,
            &completion("always_ff", Some(RecordKind::Keyword), detail),
        )
        .unwrap();
        assert_eq!(l.text, "always_ff");
        assert_eq!(l.annotations, vec![Annotation { start: 0, end: 9, style: Highlight::Keyword }]);
    }
}

#[test]
fn completion_label_declines() {
    let adapter = Adapter::new();
    assert!(adapter.label_for_completion("svls", &completion("clk", None, Some("logic"))).is_none());
    assert!(adapter
        .label_for_completion("svls", &completion("", Some(RecordKind::Variable), None))
        .is_none());
    assert!(adapter
        .label_for_completion("svls", &completion("x", Some(RecordKind::Other), None))
        .is_none());
    assert!(adapter
        .label_for_completion("other", &completion("clk", Some(RecordKind::Variable), None))
        .is_none());
}
