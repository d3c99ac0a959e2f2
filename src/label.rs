//! Turning protocol symbol and completion records into styled display labels.
use vstd::prelude::*;
use vstd::utf8::{encode_utf8, is_ascii_chars, is_ascii_chars_encode_utf8};

use crate::registry::ServerKind;

verus! {

/// The kind tag of a symbol or completion record, as far as the formatter
/// distinguishes kinds.
#[derive(Clone, Copy, Debug, PartialEq, Eq, Structural)]
pub enum RecordKind {
    Module,
    Interface,
    Class,
    Struct,
    Package,
    Function,
    Method,
    Variable,
    Field,
    Property,
    Constant,
    EnumMember,
    Keyword,
    Other,
}

/// The style a host gives to one annotated part of a label.
#[derive(Clone, Copy, Debug, PartialEq, Eq, Structural)]
pub enum Highlight {
    /// The name of a declared design unit (module, interface, class, ...).
    Declaration,
    Function,
    Variable,
    Constant,
    Keyword,
    /// Type or signature text that follows a name.
    Type,
}

/// A style attached to the bytes `start..end` of a label's text.
#[derive(Clone, Copy, Debug, PartialEq, Eq, Structural)]
pub struct Annotation {
    pub start: usize,
    pub end: usize,
    pub style: Highlight,
}

/// A display label: literal text, style annotations over byte ranges of it,
/// and the prefix `0..filter_end` of it that the host filters on.
#[derive(Clone, Debug)]
pub struct DisplayLabel {
    pub text: String,
    pub annotations: Vec<Annotation>,
    pub filter_end: usize,
}

/// A symbol reported by a server.
#[derive(Clone, Debug)]
pub struct SymbolRecord {
    pub name: String,
    pub kind: RecordKind,
}

/// A completion offered by a server.
#[derive(Clone, Debug)]
pub struct CompletionRecord {
    pub label: String,
    pub kind: Option<RecordKind>,
    pub detail: Option<String>,
}

/// The number of bytes of the UTF-8 encoding of `s`.
pub open spec fn byte_len(s: Seq<char>) -> nat {
    encode_utf8(s).len()
}

/// The style of a name of the given kind, on the given server; `None` where no
/// rule covers that pair.
pub open spec fn name_style(server: ServerKind, kind: RecordKind) -> Option<Highlight> {
    match server {
        ServerKind::Svls => match kind {
            RecordKind::Module | RecordKind::Interface | RecordKind::Class | RecordKind::Struct
            | RecordKind::Package => Some(Highlight::Declaration),
            RecordKind::Function | RecordKind::Method => Some(Highlight::Function),
            RecordKind::Variable | RecordKind::Field | RecordKind::Property => Some(
                Highlight::Variable,
            ),
            RecordKind::Constant | RecordKind::EnumMember => Some(Highlight::Constant),
            RecordKind::Keyword => Some(Highlight::Keyword),
            RecordKind::Other => None,
        },
    }
}

/// The detail text shown after a name: none when absent or empty.
pub open spec fn shown_detail(detail: Option<String>) -> Seq<char> {
    match detail {
        Some(d) => d@,
        None => Seq::empty(),
    }
}

/// Whether the label of `name` followed by `detail` has a byte length that a
/// `usize` holds.
pub open spec fn label_fits(name: Seq<char>, detail: Seq<char>) -> bool {
    byte_len(name) + 1 + byte_len(detail) <= usize::MAX
}

/// The text of the label of `name`, followed by a space and `detail` where
/// `detail` is not empty.
pub open spec fn label_text(name: Seq<char>, detail: Seq<char>) -> Seq<char> {
    if detail.len() == 0 {
        name
    } else {
        name + seq![' '] + detail
    }
}

/// The annotations of the label of `name` and `detail`: the name in `style`,
/// and the detail, where there is one, as a type.
pub open spec fn label_annotations(name: Seq<char>, detail: Seq<char>, style: Highlight) -> Seq<
    Annotation,
> {
    let n = byte_len(name);
    let head = Annotation { start: 0, end: n as usize, style };
    if detail.len() == 0 {
        seq![head]
    } else {
        seq![
            head,
            Annotation {
                start: (n + 1) as usize,
                end: (n + 1 + byte_len(detail)) as usize,
                style: Highlight::Type,
            },
        ]
    }
}

/// Annotations that lie within the `len` bytes of a text, each non-empty, and
/// no two of which overlap.
pub open spec fn well_annotated(anns: Seq<Annotation>, len: nat) -> bool {
    &&& forall|i: int| 0 <= i < anns.len() ==> #[trigger] anns[i].start < anns[i].end <= len
    &&& forall|i: int, j: int|
        0 <= i < anns.len() && 0 <= j < anns.len() && i != j ==> #[trigger] anns[i].end
            <= #[trigger] anns[j].start || anns[j].end <= anns[i].start
}

/// Whether `l` is the label of `name` and `detail` with the name in `style`.
pub open spec fn is_label_of(l: DisplayLabel, name: Seq<char>, detail: Seq<char>, style: Highlight) -> bool {
    &&& l.text@ == label_text(name, detail)
    &&& l.annotations@ == label_annotations(name, detail, style)
    &&& l.filter_end == byte_len(name)
}

/// The UTF-8 encoding of a concatenation is the concatenation of the encodings.
pub proof fn lemma_encode_concat(a: Seq<char>, b: Seq<char>)
    ensures
        encode_utf8(a + b) == encode_utf8(a) + encode_utf8(b),
    decreases a.len(),
{
    if a.len() == 0 {
        assert(a + b =~= b);
        assert(encode_utf8(a) + encode_utf8(b) =~= encode_utf8(b));
    } else {
        assert((a + b).drop_first() =~= a.drop_first() + b);
        assert((a + b)[0] == a[0]);
        lemma_encode_concat(a.drop_first(), b);
        assert(encode_utf8(a + b) =~= encode_utf8(a) + encode_utf8(b));
    }
}

/// The byte length of a label's text is that of the name, plus one and that of
/// the detail where there is one.
pub proof fn lemma_label_text_len(name: Seq<char>, detail: Seq<char>)
    ensures
        detail.len() == 0 ==> byte_len(label_text(name, detail)) == byte_len(name),
        detail.len() != 0 ==> byte_len(label_text(name, detail)) == byte_len(name) + 1
            + byte_len(detail),
{
    if detail.len() != 0 {
        let sp = seq![' '];
        assert(is_ascii_chars(sp));
        is_ascii_chars_encode_utf8(sp);
        lemma_encode_concat(name, sp);
        lemma_encode_concat(name + sp, detail);
    }
}

/// Every label of a non-empty name whose byte length fits a `usize` carries
/// annotations that are non-empty, disjoint and within its text.
pub proof fn lemma_label_well_annotated(name: Seq<char>, detail: Seq<char>, style: Highlight)
    requires
        name.len() > 0,
        label_fits(name, detail),
    ensures
        well_annotated(
            label_annotations(name, detail, style),
            byte_len(label_text(name, detail)),
        ),
{
    lemma_label_text_len(name, detail);
    lemma_nonempty_encoding(name);
    if detail.len() != 0 {
        lemma_nonempty_encoding(detail);
    }
}

/// A non-empty sequence of characters takes at least one byte.
pub proof fn lemma_nonempty_encoding(s: Seq<char>)
    requires
        s.len() > 0,
    ensures
        byte_len(s) > 0,
{
    assert(s =~= seq![s[0]] + s.drop_first());
    lemma_encode_concat(seq![s[0]], s.drop_first());
}

/// The number of bytes of the UTF-8 encoding of `s`.
fn byte_count(s: &str) -> (n: usize)
    ensures
        n == byte_len(s@),
{
    s.as_bytes().len()
}

/// Builds the label of `name` followed by `detail`, with the name in `style`;
/// `None` where its byte length does not fit a `usize`.
fn build_label(name: &String, detail: &Option<String>, style: Highlight) -> (r: Option<
    DisplayLabel,
>)
    requires
        name@.len() > 0,
    ensures
        r is Some <==> label_fits(name@, shown_detail(*detail)),
        r matches Some(l) ==> is_label_of(
            l,
            name@,
            shown_detail(*detail),
            style,
        ),
{
    let n = byte_count(name.as_str());
    let ghost shown = shown_detail(*detail);
    let d_len: usize = match detail {
        Some(d) => byte_count(d.as_str()),
        None => 0,
    };
    if n == usize::MAX || d_len > usize::MAX - n - 1 {
        return None;
    }
    let head = Annotation { start: 0, end: n, style };
    match detail {
        Some(d) => {
            if d.as_str().is_empty() {
                let annotations = vec![head];
                assert(annotations@ =~= label_annotations(name@, shown, style));
                Some(DisplayLabel { text: name.clone(), annotations, filter_end: n })
            } else {
                let mut text = name.clone();
                text.append(" ");
                text.append(d.as_str());
                proof {
                    reveal_strlit(" ");
                    assert(text@ == label_text(name@, shown));
                }
                let tail = Annotation { start: n + 1, end: n + 1 + d_len, style: Highlight::Type };
                let annotations = vec![head, tail];
                assert(annotations@ =~= label_annotations(name@, shown, style));
                Some(DisplayLabel { text, annotations, filter_end: n })
            }
        },
        None => {
            let annotations = vec![head];
            assert(annotations@ =~= label_annotations(name@, shown, style));
            Some(DisplayLabel { text: name.clone(), annotations, filter_end: n })
        },
    }
}

/// Whether `r` is what the formatter of `server` gives for `symbol`: the
/// symbol's name styled by its kind, or `None` where the name is empty, no
/// rule covers the kind, or the text's byte length would not fit a `usize`.
pub open spec fn symbol_label_of(server: ServerKind, symbol: SymbolRecord, r: Option<DisplayLabel>) -> bool {
    &&& r is Some <==> symbol.name@.len() > 0 && name_style(server, symbol.kind) is Some
        && label_fits(symbol.name@, Seq::empty())
    &&& r matches Some(l) ==> is_label_of(
        l,
        symbol.name@,
        Seq::empty(),
        name_style(server, symbol.kind)->Some_0,
    )
    &&& r matches Some(l) ==> well_annotated(l.annotations@, byte_len(l.text@))
}

/// Whether `r` is what the formatter of `server` gives for `completion`: its
/// label styled by its kind, then its detail, where there is one, styled as a
/// type; or `None` where the label is empty, the kind is missing or no rule
/// covers it, or the text's byte length would not fit a `usize`.
pub open spec fn completion_label_of(
    server: ServerKind,
    completion: CompletionRecord,
    r: Option<DisplayLabel>,
) -> bool {
    &&& r is Some <==> (completion.label@.len() > 0 && completion.kind is Some && name_style(
        server,
        completion.kind->Some_0,
    ) is Some && label_fits(completion.label@, shown_detail(completion.detail)))
    &&& r matches Some(l) ==> is_label_of(
        l,
        completion.label@,
        shown_detail(completion.detail),
        name_style(server, completion.kind->Some_0)->Some_0,
    )
    &&& r matches Some(l) ==> well_annotated(l.annotations@, byte_len(l.text@))
}

/// The style of a name of the given kind, on the given server; `None` where no
/// rule covers that pair.
pub fn style_for(server: ServerKind, kind: RecordKind) -> (r: Option<Highlight>)
    ensures
        r == name_style(server, kind),
{
    match server {
        ServerKind::Svls => match kind {
            RecordKind::Module | RecordKind::Interface | RecordKind::Class | RecordKind::Struct
            | RecordKind::Package => Some(Highlight::Declaration),
            RecordKind::Function | RecordKind::Method => Some(Highlight::Function),
            RecordKind::Variable | RecordKind::Field | RecordKind::Property => Some(
                Highlight::Variable,
            ),
            RecordKind::Constant | RecordKind::EnumMember => Some(Highlight::Constant),
            RecordKind::Keyword => Some(Highlight::Keyword),
            RecordKind::Other => None,
        },
    }
}

/// The label of a symbol reported by `server`: its name, styled by its kind.
/// It declines (`None`) where the name is empty or no rule covers the kind.
pub fn symbol_label(server: ServerKind, symbol: &SymbolRecord) -> (r: Option<DisplayLabel>)
    ensures
        symbol_label_of(server, *symbol, r),
{
    if symbol.name.as_str().is_empty() {
        return None;
    }
    match style_for(server, symbol.kind) {
        Some(style) => {
            let r = build_label(&symbol.name, &None, style);
            proof {
                if r is Some {
                    lemma_label_well_annotated(symbol.name@, Seq::empty(), style);
                }
            }
            r
        },
        None => None,
    }
}

/// The label of a completion offered by `server`: its label styled by its
/// kind, followed by its detail, where there is one, styled as a type. It
/// declines (`None`) where the label is empty, the kind is missing or no rule
/// covers it.
pub fn completion_label(server: ServerKind, completion: &CompletionRecord) -> (r: Option<
    DisplayLabel,
>)
    ensures
        completion_label_of(server, *completion, r),
{
    if completion.label.as_str().is_empty() {
        return None;
    }
    let kind = match completion.kind {
        Some(k) => k,
        None => {
            return None;
        },
    };
    match style_for(server, kind) {
        Some(style) => {
            let r = build_label(&completion.label, &completion.detail, style);
            proof {
                if r is Some {
                    lemma_label_well_annotated(
                        completion.label@,
                        shown_detail(completion.detail),
                        style,
                    );
                }
            }
            r
        },
        None => None,
    }
}

} // verus!
