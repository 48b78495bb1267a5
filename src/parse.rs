use oxc::allocator::Allocator;
use oxc::parser::Parser;
use oxc::span::SourceType;
use vstd::prelude::*;
use vstd::string::StringSliceAdditionalSpecFns;
use vstd::utf8::*;

verus! {

/// oxc's source type (language, module kind, variant), carried through unopened.
#[verifier::external_type_specification]
#[verifier::external_body]
pub struct ExSourceType(SourceType);

/// The source type that `SourceType::with_script` gives.
pub uninterp spec fn with_script_of(st: SourceType, yes: bool) -> SourceType;

/// The source type that `SourceType::with_module` gives.
pub uninterp spec fn with_module_of(st: SourceType, yes: bool) -> SourceType;

/// Relies on `SourceType::with_script` of oxc_span: a function of its arguments.
pub assume_specification[ SourceType::with_script ](self_: SourceType, yes: bool) -> (r: SourceType)
    ensures
        r == with_script_of(self_, yes),
;

/// Relies on `SourceType::with_module` of oxc_span: a function of its arguments.
pub assume_specification[ SourceType::with_module ](self_: SourceType, yes: bool) -> (r: SourceType)
    ensures
        r == with_module_of(self_, yes),
;

/// A comment of the engine: whether it is a block comment, and its full span.
pub type EngineComment = (bool, u32, u32);

/// A diagnostic of the engine: its message and its labelled spans (offset, length).
pub type EngineError = (String, Vec<(u32, u32)>);

/// What the engine reports of one source text, as plain values: the program
/// as ESTree JSON, the comments in source order, and the diagnostics.
pub type EngineOutput = (String, Vec<EngineComment>, Vec<EngineError>);

pub open spec fn errors_view(v: Seq<EngineError>) -> Seq<(Seq<char>, Seq<(u32, u32)>)> {
    v.map_values(|e: EngineError| (e.0@, e.1@))
}

/// What oxc's parser reports for a source text of a given source type.
pub uninterp spec fn parse_outcome(source: Seq<char>, source_type: SourceType) -> (
    Seq<char>,
    Seq<EngineComment>,
    Seq<(Seq<char>, Seq<(u32, u32)>)>,
);

/// The source type that oxc infers from a file name, if its extension is known.
pub uninterp spec fn path_source_type(path: Seq<char>) -> Option<SourceType>;

/// Relies on `SourceType::from_path` of oxc_span: a function of the file name,
/// which fails for a name without a known extension.
#[verifier::external_body]
fn source_type_from_path(path: &str) -> (r: Option<SourceType>)
    ensures
        r == path_source_type(path@),
{
    SourceType::from_path(path).ok()
}

/// Relies on `SourceType::default` of oxc_span (an ES module).
#[verifier::external_body]
fn default_source_type() -> (r: SourceType) {
    SourceType::default()
}

/// Relies on oxc's `Parser::parse`: the program serialised by
/// `Program::to_estree_json`, each comment's kind and full span, and each
/// diagnostic's message with the offset and length of each of its labels.
/// All of it is determined by the source text and the source type.
#[verifier::external_body]
fn run_parser(source_text: &str, source_type: SourceType) -> (r: EngineOutput)
    ensures
        r.0@ == parse_outcome(source_text@, source_type).0,
        r.1@ == parse_outcome(source_text@, source_type).1,
        errors_view(r.2@) == parse_outcome(source_text@, source_type).2,
{
    let allocator = Allocator::default();
    let ret = Parser::new(&allocator, source_text, source_type).parse();
    let comments = ret.program.comments.iter().map(|c| (c.is_block(), c.span.start, c.span.end));
    let errors = ret.diagnostics.iter().map(
        |e| (e.to_string(), e.labels.as_slice().iter().map(|l| (l.offset(), l.len())).collect()),
    );
    (ret.program.to_estree_json(true, false), comments.collect(), errors.collect())
}

#[derive(Clone, Copy, Debug, PartialEq, Eq, Structural)]
pub enum CommentType {
    Line,
    Block,
}

/// A comment of the source: `value` is its text without delimiters, `start`
/// and `end` the byte offsets of the whole comment, delimiters included.
#[derive(Debug)]
pub struct Comment {
    pub kind: CommentType,
    pub value: String,
    pub start: u32,
    pub end: u32,
}

#[derive(Clone, Copy, Debug, PartialEq, Eq, Structural)]
pub enum Severity {
    Error,
    Warning,
}

/// One labelled span of an engine diagnostic, in byte offsets.
#[derive(Debug)]
pub struct Diagnostic {
    pub start: usize,
    pub end: usize,
    pub severity: Severity,
    pub message: String,
}

pub open spec fn kind_of(block: bool) -> CommentType {
    if block {
        CommentType::Block
    } else {
        CommentType::Line
    }
}

/// The bytes that open a comment of the given kind.
pub open spec fn opening(kind: CommentType) -> Seq<u8> {
    match kind {
        CommentType::Line => seq![0x2fu8, 0x2fu8],
        CommentType::Block => seq![0x2fu8, 0x2au8],
    }
}

/// The bytes that close a comment of the given kind.
pub open spec fn closing(kind: CommentType) -> Seq<u8> {
    match kind {
        CommentType::Line => Seq::empty(),
        CommentType::Block => seq![0x2au8, 0x2fu8],
    }
}

pub open spec fn content_start(c: EngineComment) -> int {
    c.1 + opening(kind_of(c.0)).len()
}

pub open spec fn content_end(c: EngineComment) -> int {
    c.2 - closing(kind_of(c.0)).len()
}

/// The comment's span lies in the source and leaves room for its delimiters
/// (two bytes before the content, and two after it for a block comment), and
/// its content starts and ends on character boundaries. The delimiters are
/// not inspected: the engine also reports HTML-like comments (`<!--`, `-->`)
/// as line comments.
pub open spec fn well_formed_comment(bytes: Seq<u8>, c: EngineComment) -> bool {
    &&& content_start(c) <= content_end(c)
    &&& c.2 <= bytes.len()
    &&& is_char_boundary(bytes, content_start(c))
    &&& is_char_boundary(bytes, content_end(c))
}

/// The comment opens and closes with the delimiters of its kind.
pub open spec fn delimited(bytes: Seq<u8>, c: EngineComment) -> bool {
    &&& bytes.subrange(c.1 as int, content_start(c)) == opening(kind_of(c.0))
    &&& bytes.subrange(content_end(c), c.2 as int) == closing(kind_of(c.0))
}

/// Each comment ends before any later one starts.
pub open spec fn comments_in_order(cs: Seq<EngineComment>) -> bool {
    forall|i: int, j: int| 0 <= i < j < cs.len() ==> #[trigger] cs[i].2 <= #[trigger] cs[j].1
}

/// `out` is the comment that the engine's comment `c` describes in `bytes`.
pub open spec fn comment_of(bytes: Seq<u8>, c: EngineComment, out: Comment) -> bool {
    &&& out.kind == kind_of(c.0)
    &&& out.start == c.1
    &&& out.end == c.2
    &&& encode_utf8(out.value@) == bytes.subrange(content_start(c), content_end(c))
}

/// Every label ends within a source of `len` bytes.
pub open spec fn labels_within(errors: Seq<(Seq<char>, Seq<(u32, u32)>)>, len: int) -> bool {
    forall|i: int, j: int|
        0 <= i < errors.len() && 0 <= j < errors[i].1.len() ==> #[trigger] errors[i].1[j].0
            + errors[i].1[j].1 <= len
}

/// The diagnostics of one engine error: one per label, each with the error's message.
pub open spec fn label_diagnostics(e: (Seq<char>, Seq<(u32, u32)>)) -> Seq<(int, int, Seq<char>)> {
    e.1.map_values(|l: (u32, u32)| (l.0 as int, l.0 + l.1, e.0))
}

/// The diagnostics of all engine errors, error by error, in order.
pub open spec fn fan_out(errors: Seq<(Seq<char>, Seq<(u32, u32)>)>) -> Seq<(int, int, Seq<char>)>
    decreases errors.len(),
{
    if errors.len() == 0 {
        Seq::empty()
    } else {
        fan_out(errors.drop_last()) + label_diagnostics(errors.last())
    }
}

pub open spec fn diagnostics_view(d: Seq<Diagnostic>) -> Seq<(int, int, Seq<char>)> {
    d.map_values(|x: Diagnostic| (x.start as int, x.end as int, x.message@))
}

/// The text between two byte offsets of `text`, both on character boundaries.
fn slice_text(text: &str, start: usize, end: usize) -> (r: String)
    requires
        start <= end <= text.spec_bytes().len(),
        is_char_boundary(text.spec_bytes(), start as int),
        is_char_boundary(text.spec_bytes(), end as int),
    ensures
        encode_utf8(r@) == text.spec_bytes().subrange(start as int, end as int),
{
    let ghost bytes = text.spec_bytes();
    proof {
        encode_utf8_valid_utf8(text@);
        valid_utf8_split(bytes, end as int);
    }
    let (head, _) = text.split_at(end);
    proof {
        let prefix = bytes.subrange(0, end as int);
        assert(head.spec_bytes() == prefix);
        if start == end {
            is_char_boundary_start_end_of_seq(prefix);
        } else if start > 0 {
            is_char_boundary_iff_not_is_continuation_byte(bytes, start as int);
            is_char_boundary_iff_not_is_continuation_byte(prefix, start as int);
        }
    }
    let (_, mid) = head.split_at(start);
    proof {
        assert(mid.spec_bytes() =~= bytes.subrange(start as int, end as int));
    }
    mid.to_owned()
}

/// Whether the engine's comment `c` is well formed in `text`.
fn comment_is_well_formed(text: &str, c: EngineComment) -> (r: bool)
    ensures
        r == well_formed_comment(text.spec_bytes(), c),
{
    let (block, start, end) = c;
    let close: u64 = if block {
        2
    } else {
        0
    };
    if start as u64 + 2 + close > end as u64 || end as usize > text.as_bytes().len() {
        return false;
    }
    text.is_char_boundary(start as usize + 2) && text.is_char_boundary(end as usize - close as usize)
}

/// The comments of a source text, built from the engine's comments in the
/// same order, each with the text of its content span (two bytes in from the
/// start, and two in from the end for a block comment); `None` exactly when
/// one of them is not well formed in the text or they are out of order.
pub fn package_comments(source_text: &str, raw: &Vec<EngineComment>) -> (r: Option<Vec<Comment>>)
    ensures
        r is Some <==> (forall|i: int|
            0 <= i < raw@.len() ==> well_formed_comment(source_text.spec_bytes(), #[trigger] raw@[i]))
            && comments_in_order(raw@),
        r is Some ==> r->0@.len() == raw@.len(),
        r is Some ==> forall|i: int|
            0 <= i < raw@.len() ==> comment_of(source_text.spec_bytes(), raw@[i], #[trigger] r->0@[i]),
{
    if raw.len() == 0 {
        return Some(Vec::new());
    }
    let ghost bytes = source_text.spec_bytes();
    let mut out: Vec<Comment> = Vec::new();
    let mut i: usize = 0;
    let mut prev_end: u32 = 0;
    while i < raw.len()
        invariant
            i <= raw@.len(),
            bytes == source_text.spec_bytes(),
            out@.len() == i,
            i == 0 ==> prev_end == 0,
            i > 0 ==> prev_end == raw@[i - 1].2,
            forall|k: int| 0 <= k < i ==> raw@[k].2 <= prev_end,
            forall|k: int, m: int| 0 <= k < m < i ==> #[trigger] raw@[k].2 <= #[trigger] raw@[m].1,
            forall|k: int| 0 <= k < i ==> well_formed_comment(bytes, #[trigger] raw@[k]),
            forall|k: int| 0 <= k < i ==> comment_of(bytes, raw@[k], #[trigger] out@[k]),
        decreases raw@.len() - i,
    {
        let c = raw[i];
        if !comment_is_well_formed(source_text, c) {
            assert(!well_formed_comment(bytes, raw@[i as int]));
            return None;
        }
        let (block, start, end) = c;
        if start < prev_end {
            assert(raw@[i - 1].2 > raw@[i as int].1);
            return None;
        }
        let kind = if block {
            CommentType::Block
        } else {
            CommentType::Line
        };
        let close: usize = if block {
            2
        } else {
            0
        };
        let value = slice_text(source_text, start as usize + 2, end as usize - close);
        out.push(Comment { kind, value, start, end });
        prev_end = end;
        i = i + 1;
    }
    Some(out)
}

/// The diagnostics of the engine's errors: one per label, in order, each with
/// its error's message and `Error` severity; `None` exactly when a label ends
/// past the end of a source of `source_len` bytes.
pub fn fan_out_diagnostics(errors: &Vec<EngineError>, source_len: usize) -> (r: Option<Vec<Diagnostic>>)
    ensures
        r is Some <==> labels_within(errors_view(errors@), source_len as int),
        r is Some ==> diagnostics_view(r->0@) == fan_out(errors_view(errors@)),
        r is Some ==> forall|k: int| 0 <= k < r->0@.len() ==> (#[trigger] r->0@[k]).severity == Severity::Error,
        r is Some ==> forall|k: int|
            0 <= k < r->0@.len() ==> (#[trigger] r->0@[k]).start <= r->0@[k].end <= source_len,
{
    let ghost ev = errors_view(errors@);
    if errors.len() == 0 {
        proof {
            assert(diagnostics_view(Seq::<Diagnostic>::empty()) =~= fan_out(ev));
        }
        return Some(Vec::new());
    }
    let mut out: Vec<Diagnostic> = Vec::new();
    let mut i: usize = 0;
    proof {
        assert(ev.subrange(0, 0) =~= Seq::<(Seq<char>, Seq<(u32, u32)>)>::empty());
        assert(diagnostics_view(out@) =~= fan_out(ev.subrange(0, 0)));
    }
    while i < errors.len()
        invariant
            i <= errors@.len(),
            ev == errors_view(errors@),
            labels_within(ev.subrange(0, i as int), source_len as int),
            diagnostics_view(out@) == fan_out(ev.subrange(0, i as int)),
            forall|k: int| 0 <= k < out@.len() ==> (#[trigger] out@[k]).severity == Severity::Error,
            forall|k: int| 0 <= k < out@.len() ==> (#[trigger] out@[k]).start <= out@[k].end <= source_len,
        decreases errors@.len() - i,
    {
        let message = &errors[i].0;
        let labels = &errors[i].1;
        let ghost before = fan_out(ev.subrange(0, i as int));
        let mut j: usize = 0;
        proof {
            assert(diagnostics_view(out@) =~= before + label_diagnostics(ev[i as int]).subrange(0, 0));
        }
        while j < labels.len()
            invariant
                i < errors@.len(),
                j <= labels@.len(),
                ev == errors_view(errors@),
                message@ == ev[i as int].0,
                labels@ == ev[i as int].1,
                labels_within(ev.subrange(0, i as int), source_len as int),
                forall|m: int| 0 <= m < j ==> #[trigger] labels@[m].0 + labels@[m].1 <= source_len,
                diagnostics_view(out@) == before + label_diagnostics(ev[i as int]).subrange(0, j as int),
                forall|k: int| 0 <= k < out@.len() ==> (#[trigger] out@[k]).severity == Severity::Error,
                forall|k: int| 0 <= k < out@.len() ==> (#[trigger] out@[k]).start <= out@[k].end <= source_len,
            forall|k: int| 0 <= k < out@.len() ==> (#[trigger] out@[k]).start <= out@[k].end <= source_len,
            decreases labels@.len() - j,
        {
            let (offset, len) = labels[j];
            if offset as u64 + len as u64 > source_len as u64 {
                proof {
                    assert(ev[i as int].1[j as int] == labels@[j as int]);
                    assert(!labels_within(ev, source_len as int));
                }
                return None;
            }
            let d = Diagnostic {
                start: offset as usize,
                end: offset as usize + len as usize,
                severity: Severity::Error,
                message: message.clone(),
            };
            let ghost old_out = out@;
            out.push(d);
            proof {
                assert(diagnostics_view(out@) =~= diagnostics_view(old_out).push(
                    (d.start as int, d.end as int, d.message@),
                ));
                assert(label_diagnostics(ev[i as int]).subrange(0, j + 1) =~= label_diagnostics(
                    ev[i as int],
                ).subrange(0, j as int).push(label_diagnostics(ev[i as int])[j as int]));
            }
            j = j + 1;
        }
        proof {
            let next = ev.subrange(0, i + 1);
            assert(next.drop_last() =~= ev.subrange(0, i as int));
            assert(next.last() == ev[i as int]);
            assert(label_diagnostics(ev[i as int]).subrange(0, j as int) =~= label_diagnostics(
                ev[i as int],
            ));
            assert forall|a: int, b: int|
                0 <= a < next.len() && 0 <= b < next[a].1.len() implies #[trigger] next[a].1[b].0
                + next[a].1[b].1 <= source_len by {
                if a < i {
                    assert(next[a] == ev.subrange(0, i as int)[a]);
                } else {
                    assert(next[a].1 == labels@);
                }
            }
        }
        i = i + 1;
    }
    proof {
        assert(ev.subrange(0, i as int) =~= ev);
    }
    Some(out)
}

/// Whether two texts are the same.
fn same_text(a: &str, b: &str) -> (r: bool)
    ensures
        r == (a@ == b@),
{
    let x = a.as_bytes();
    let y = b.as_bytes();
    proof {
        encode_utf8_decode_utf8(a@);
        encode_utf8_decode_utf8(b@);
    }
    if x.len() != y.len() {
        return false;
    }
    let mut i: usize = 0;
    while i < x.len()
        invariant
            i <= x@.len(),
            x@.len() == y@.len(),
            x@ == a.spec_bytes(),
            y@ == b.spec_bytes(),
            forall|k: int| 0 <= k < i ==> x@[k] == y@[k],
        decreases x@.len() - i,
    {
        if x[i] != y[i] {
            return false;
        }
        i = i + 1;
    }
    proof {
        assert(x@ =~= y@);
    }
    true
}

/// How a parse call chooses the source type: from the file name when one is
/// given, then overridden by an explicit "script" or "module".
#[derive(Debug)]
pub struct ParserOptions {
    pub source_type: Option<String>,
    pub source_filename: Option<String>,
}

impl Default for ParserOptions {
    fn default() -> (r: Self)
        ensures
            r.source_type is None,
            r.source_filename is None,
    {
        ParserOptions { source_type: None, source_filename: None }
    }
}

/// The boundary-safe result of a parse: the program as ESTree JSON, the
/// comments and the diagnostics, each in source order.
#[derive(Debug)]
pub struct ParseResult {
    pub program: String,
    pub comments: Vec<Comment>,
    pub errors: Vec<Diagnostic>,
}

#[derive(Clone, Copy, Debug, PartialEq, Eq, Structural)]
pub enum ParseError {
    /// The file name given to infer the source type has no known extension.
    InvalidFileName,
    /// The engine's output cannot be represented at the boundary.
    Marshaling,
}

pub type OutcomeView = (Seq<char>, Seq<EngineComment>, Seq<(Seq<char>, Seq<(u32, u32)>)>);

pub open spec fn output_view(o: EngineOutput) -> OutcomeView {
    (o.0@, o.1@, errors_view(o.2@))
}

/// Whether an engine outcome on the source bytes can cross the boundary.
pub open spec fn packable(bytes: Seq<u8>, o: OutcomeView) -> bool {
    &&& forall|i: int| 0 <= i < o.1.len() ==> well_formed_comment(bytes, #[trigger] o.1[i])
    &&& comments_in_order(o.1)
    &&& labels_within(o.2, bytes.len() as int)
}

/// `r` is the boundary form of the engine outcome `o` on the source bytes.
pub open spec fn packaged(bytes: Seq<u8>, o: OutcomeView, r: ParseResult) -> bool {
    &&& r.program@ == o.0
    &&& r.comments@.len() == o.1.len()
    &&& forall|i: int| 0 <= i < o.1.len() ==> comment_of(bytes, o.1[i], #[trigger] r.comments@[i])
    &&& diagnostics_view(r.errors@) == fan_out(o.2)
    &&& forall|k: int| 0 <= k < r.errors@.len() ==> (#[trigger] r.errors@[k]).severity == Severity::Error
    &&& forall|k: int|
        0 <= k < r.errors@.len() ==> (#[trigger] r.errors@[k]).start <= r.errors@[k].end <= bytes.len()
}

/// Whether the options name a file whose extension tells no source type.
pub open spec fn file_name_refused(options: Option<ParserOptions>) -> bool {
    match options {
        Some(o) => match o.source_filename {
            Some(f) => path_source_type(f@) is None,
            None => false,
        },
        None => false,
    }
}

/// Whether `base` is the source type that the options' file name gives; any
/// type qualifies when no file name is given, and the engine's default is used.
pub open spec fn base_type_of(options: Option<ParserOptions>, base: SourceType) -> bool {
    match options {
        Some(o) => match o.source_filename {
            Some(f) => path_source_type(f@) == Some(base),
            None => true,
        },
        None => true,
    }
}

/// The base type overridden by an explicit "script" or "module"; any other
/// word leaves it as it is.
pub open spec fn chosen_type(options: Option<ParserOptions>, base: SourceType) -> SourceType {
    match options {
        Some(o) => match o.source_type {
            Some(k) => if k@ == "script"@ {
                with_script_of(base, true)
            } else if k@ == "module"@ {
                with_module_of(base, true)
            } else {
                base
            },
            None => base,
        },
        None => base,
    }
}

/// Turns the engine's output on a source text into the boundary form.
pub fn package_parse(source_text: &str, output: EngineOutput) -> (r: Result<ParseResult, ParseError>)
    ensures
        r is Ok <==> packable(source_text.spec_bytes(), output_view(output)),
        r is Ok ==> packaged(source_text.spec_bytes(), output_view(output), r->Ok_0),
        r is Err ==> r->Err_0 == ParseError::Marshaling,
{
    let ghost o = output_view(output);
    let (program, raw_comments, raw_errors) = output;
    proof {
        assert(o.1 == raw_comments@);
        assert(o.2 == errors_view(raw_errors@));
    }
    let comments = match package_comments(source_text, &raw_comments) {
        Some(c) => c,
        None => return Err(ParseError::Marshaling),
    };
    let errors = match fan_out_diagnostics(&raw_errors, source_text.as_bytes().len()) {
        Some(e) => e,
        None => return Err(ParseError::Marshaling),
    };
    Ok(ParseResult { program, comments, errors })
}

/// Parses a source text and returns its program, comments and diagnostics.
/// Fails exactly when a file name is given whose extension is unknown, or
/// when the engine's output cannot cross the boundary.
pub fn parse_sync(source_text: String, options: Option<ParserOptions>) -> (r: Result<ParseResult, ParseError>)
    ensures
        (r is Err && r->Err_0 == ParseError::InvalidFileName) <==> file_name_refused(options),
        r is Ok ==> exists|base: SourceType|
            #![trigger chosen_type(options, base)]
            base_type_of(options, base) && packable(
                encode_utf8(source_text@),
                parse_outcome(source_text@, chosen_type(options, base)),
            ) && packaged(
                encode_utf8(source_text@),
                parse_outcome(source_text@, chosen_type(options, base)),
                r->Ok_0,
            ),
        (r is Err && r->Err_0 == ParseError::Marshaling) ==> exists|base: SourceType|
            #![trigger chosen_type(options, base)]
            base_type_of(options, base) && !packable(
                encode_utf8(source_text@),
                parse_outcome(source_text@, chosen_type(options, base)),
            ),
{
    let ghost given = options;
    let options = match options {
        Some(o) => o,
        None => ParserOptions::default(),
    };
    let base = match &options.source_filename {
        Some(name) => match source_type_from_path(name.as_str()) {
            Some(st) => st,
            None => return Err(ParseError::InvalidFileName),
        },
        None => default_source_type(),
    };
    let source_type = match &options.source_type {
        Some(kind) => if same_text(kind.as_str(), "script") {
            base.with_script(true)
        } else if same_text(kind.as_str(), "module") {
            base.with_module(true)
        } else {
            base
        },
        None => base,
    };
    let output = run_parser(source_text.as_str(), source_type);
    let r = package_parse(source_text.as_str(), output);
    proof {
        assert(base_type_of(given, base));
        assert(source_type == chosen_type(given, base));
        assert(output_view(output) == parse_outcome(source_text@, chosen_type(given, base)));
    }
    r
}

/// The whole span of a packaged comment that opens with `//` or `/*` is its
/// opening delimiter, its value and its closing delimiter, in that order.
pub proof fn comment_span_frames_value(bytes: Seq<u8>, c: EngineComment, out: Comment)
    requires
        well_formed_comment(bytes, c),
        delimited(bytes, c),
        comment_of(bytes, c, out),
    ensures
        out.end <= bytes.len(),
        bytes.subrange(out.start as int, out.end as int) == opening(out.kind) + encode_utf8(
            out.value@,
        ) + closing(out.kind),
{
    let s = c.1 as int;
    let e = c.2 as int;
    assert(bytes.subrange(s, e) =~= bytes.subrange(s, content_start(c)) + bytes.subrange(
        content_start(c),
        content_end(c),
    ) + bytes.subrange(content_end(c), e));
}

/// An error with no label adds no diagnostic; an error with N labels adds
/// exactly N, all with the error's message, one per label span in order.
pub proof fn fan_out_per_error(
    errors: Seq<(Seq<char>, Seq<(u32, u32)>)>,
    e: (Seq<char>, Seq<(u32, u32)>),
)
    ensures
        fan_out(errors.push(e)) == fan_out(errors) + label_diagnostics(e),
        label_diagnostics(e).len() == e.1.len(),
        forall|k: int| 0 <= k < e.1.len() ==> (#[trigger] label_diagnostics(e)[k]) == (
            e.1[k].0 as int,
            e.1[k].0 + e.1[k].1,
            e.0,
        ),
        e.1.len() == 0 ==> fan_out(errors.push(e)) == fan_out(errors),
{
    assert(errors.push(e).drop_last() =~= errors);
    if e.1.len() == 0 {
        assert(fan_out(errors) + label_diagnostics(e) =~= fan_out(errors));
    }
}

/// An engine outcome with no comments and no errors always crosses the
/// boundary, as empty collections.
pub proof fn empty_outcome_packs_empty(bytes: Seq<u8>, program: Seq<char>, r: ParseResult)
    ensures
        packable(bytes, (program, Seq::empty(), Seq::empty())),
        packaged(bytes, (program, Seq::empty(), Seq::empty()), r) ==> r.comments@.len() == 0
            && r.errors@.len() == 0,
{
    let none = Seq::<(Seq<char>, Seq<(u32, u32)>)>::empty();
    assert(fan_out(none) == Seq::<(int, int, Seq<char>)>::empty());
    if packaged(bytes, (program, Seq::empty(), Seq::empty()), r) {
        assert(diagnostics_view(r.errors@).len() == r.errors@.len());
    }
}

} // verus!
