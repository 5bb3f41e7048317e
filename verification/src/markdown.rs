//! The article HTML of a Markdown file, written by pulldown-cmark, and its ties to the
//! source: UTF-16 offsets, as the editor counts them, for the byte offsets the parser
//! reports, and the marks that carry them.
use vstd::prelude::*;
use vstd::utf8::{encode_scalar, encode_utf8};
use crate::text::{chars_of, push_str};
use pulldown_cmark::Event as E;
use pulldown_cmark::Event::{Rule, Start};
use pulldown_cmark::Tag::{BlockQuote, CodeBlock, DefinitionList, FootnoteDefinition, Heading, List, Paragraph, Table};
use pulldown_cmark::{html, Options, Parser};
use self::MarkdownEvent::{
    BlockQuoteStart, Code, CodeBlockStart, DefinitionListStart, FootnoteStart, HeadingStart, Html, InlineHtml, ListStart,
    Other, ParagraphStart, TableStart, Text, ThematicBreak,
};

verus! {

broadcast use vstd::string::group_string_axioms;

/// How many UTF-16 code units encode `s`.
pub open spec fn utf16_len(s: Seq<char>) -> nat
    decreases s.len(),
{
    if s.len() == 0 {
        0
    } else {
        utf16_len(s.drop_last()) + if (s.last() as u32) > 0xFFFF {
            2nat
        } else {
            1nat
        }
    }
}

/// The UTF-16 offset of the byte offset `byte` of `source`, which lies between two
/// characters: the UTF-16 length of the characters before it.
pub open spec fn utf16_offset(source: Seq<char>, byte: int) -> nat {
    utf16_len(source.take(choose|k: int| 0 <= k <= source.len() && encode_utf8(source.take(k)).len() == byte))
}

/// The byte offset `byte` lies between two characters of `source`.
pub open spec fn is_boundary(source: Seq<char>, byte: int) -> bool {
    exists|k: int| 0 <= k <= source.len() && encode_utf8(source.take(k)).len() == byte
}

proof fn lemma_encode_append(a: Seq<char>, c: char)
    ensures
        encode_utf8(a.push(c)) == encode_utf8(a) + encode_scalar(c as u32),
    decreases a.len(),
{
    if a.len() == 0 {
        assert(a.push(c).drop_first() =~= Seq::<char>::empty());
        assert(encode_utf8(a.push(c)) =~= encode_scalar(c as u32) + encode_utf8(Seq::<char>::empty()));
        assert(encode_utf8(a) =~= Seq::<u8>::empty());
    } else {
        assert(a.push(c).drop_first() =~= a.drop_first().push(c));
        lemma_encode_append(a.drop_first(), c);
        assert(encode_utf8(a.push(c)) =~= encode_scalar(a[0] as u32) + encode_utf8(a.drop_first().push(c)));
    }
}

proof fn lemma_encoded_lengths_grow(s: Seq<char>, j: int, k: int)
    requires
        0 <= j < k <= s.len(),
    ensures
        encode_utf8(s.take(j)).len() < encode_utf8(s.take(k)).len(),
    decreases k - j,
{
    assert(s.take(k) =~= s.take(k - 1).push(s[k - 1]));
    lemma_encode_append(s.take(k - 1), s[k - 1]);
    vstd::utf8::char_is_scalar(s[k - 1]);
    if j < k - 1 {
        lemma_encoded_lengths_grow(s, j, k - 1);
    }
}

fn utf8_width(c: char) -> (w: usize)
    ensures
        w == encode_scalar(c as u32).len(),
{
    proof {
        vstd::utf8::char_is_scalar(c);
    }
    let v = c as u32;
    if v <= 0x7F {
        1
    } else if v <= 0x7FF {
        2
    } else if v <= 0xFFFF {
        3
    } else {
        4
    }
}

/// The byte and UTF-16 offsets of every character boundary of a Markdown source.
pub struct Utf16Offsets {
    bytes: Vec<usize>,
    units: Vec<usize>,
    source: Ghost<Seq<char>>,
}

impl Utf16Offsets {
    pub closed spec fn wf(&self) -> bool {
        let s = self.source@;
        &&& self.bytes@.len() == s.len() + 1
        &&& self.units@.len() == s.len() + 1
        &&& forall|k: int| 0 <= k <= s.len() ==> #[trigger] self.bytes@[k] == encode_utf8(s.take(k)).len()
        &&& forall|k: int| 0 <= k <= s.len() ==> #[trigger] self.units@[k] == utf16_len(s.take(k))
    }

    /// The source the offsets are of.
    pub closed spec fn source(&self) -> Seq<char> {
        self.source@
    }

    /// Measures `source`.
    pub fn new(source: &str) -> (r: Self)
        requires
            encode_utf8(source@).len() <= usize::MAX,
        ensures
            r.wf(),
            r.source() == source@,
    {
        let cs = chars_of(source);
        let mut bytes: Vec<usize> = Vec::new();
        let mut units: Vec<usize> = Vec::new();
        bytes.push(0);
        units.push(0);
        let mut i: usize = 0;
        proof {
            assert(cs@.take(0) =~= Seq::<char>::empty());
        }
        while i < cs.len()
            invariant
                cs@ == source@,
                encode_utf8(source@).len() <= usize::MAX,
                i <= cs@.len(),
                bytes@.len() == i + 1,
                units@.len() == i + 1,
                forall|k: int| 0 <= k <= i ==> #[trigger] bytes@[k] == encode_utf8(cs@.take(k)).len(),
                forall|k: int| 0 <= k <= i ==> #[trigger] units@[k] == utf16_len(cs@.take(k)),
                units@[i as int] <= bytes@[i as int],
            decreases cs@.len() - i,
        {
            let c = cs[i];
            let b = bytes[i];
            let u = units[i];
            proof {
                assert(cs@.take(i + 1) =~= cs@.take(i as int).push(c));
                assert(cs@.take(i + 1).drop_last() =~= cs@.take(i as int));
                lemma_encode_append(cs@.take(i as int), c);
                if i + 1 < cs@.len() {
                    lemma_encoded_lengths_grow(cs@, i + 1, cs@.len() as int);
                }
                assert(cs@.take(cs@.len() as int) =~= cs@);
                vstd::utf8::char_is_scalar(c);
            }
            let w = utf8_width(c);
            bytes.push(b + w);
            units.push(if (c as u32) > 0xFFFF { u + 2 } else { u + 1 });
            i = i + 1;
        }
        Utf16Offsets { bytes, units, source: Ghost(source@) }
    }

    /// The UTF-16 offset of the byte offset `byte`, which must lie between two
    /// characters.
    pub fn offset(&self, byte: usize) -> (r: usize)
        requires
            self.wf(),
            is_boundary(self.source(), byte as int),
        ensures
            r == utf16_offset(self.source(), byte as int),
    {
        let ghost s = self.source@;
        let ghost k = choose|k: int| 0 <= k <= s.len() && encode_utf8(s.take(k)).len() == byte;
        let mut lo: usize = 0;
        let mut hi: usize = self.bytes.len() - 1;
        while lo < hi
            invariant
                self.wf(),
                s == self.source@,
                0 <= k <= s.len(),
                encode_utf8(s.take(k)).len() == byte,
                lo <= k <= hi,
                hi <= s.len(),
            decreases hi - lo,
        {
            let mid = lo + (hi - lo) / 2;
            if self.bytes[mid] < byte {
                proof {
                    if mid >= k {
                        if mid > k {
                            lemma_encoded_lengths_grow(s, k, mid as int);
                        }
                    }
                }
                lo = mid + 1;
            } else {
                proof {
                    if mid < k {
                        lemma_encoded_lengths_grow(s, mid as int, k);
                    }
                }
                hi = mid;
            }
        }
        self.units[lo]
    }

    /// Whether the byte offset `byte` lies between two characters of the source.
    pub fn is_boundary_at(&self, byte: usize) -> (r: bool)
        requires
            self.wf(),
        ensures
            r == is_boundary(self.source(), byte as int),
    {
        let ghost s = self.source@;
        let ghost k = choose|k: int| 0 <= k <= s.len() && encode_utf8(s.take(k)).len() == byte;
        let mut lo: usize = 0;
        let mut hi: usize = self.bytes.len() - 1;
        while lo < hi
            invariant
                self.wf(),
                s == self.source@,
                hi <= s.len(),
                lo <= hi,
                is_boundary(s, byte as int) ==> 0 <= k <= s.len() && encode_utf8(s.take(k)).len() == byte
                    && lo <= k <= hi,
            decreases hi - lo,
        {
            let mid = lo + (hi - lo) / 2;
            if self.bytes[mid] < byte {
                proof {
                    if is_boundary(s, byte as int) && mid >= k {
                        if mid > k {
                            lemma_encoded_lengths_grow(s, k, mid as int);
                        }
                    }
                }
                lo = mid + 1;
            } else {
                proof {
                    if is_boundary(s, byte as int) && mid < k {
                        lemma_encoded_lengths_grow(s, mid as int, k);
                    }
                }
                hi = mid;
            }
        }
        let found = self.bytes[lo] == byte;
        proof {
            if found {
                assert(encode_utf8(s.take(lo as int)).len() == byte);
            }
        }
        found
    }

    /// The UTF-16 length of the source between two byte offsets.
    pub fn span(&self, start: usize, end: usize) -> (r: usize)
        requires
            self.wf(),
            is_boundary(self.source(), start as int),
            is_boundary(self.source(), end as int),
            start <= end,
        ensures
            r == utf16_offset(self.source(), end as int) - utf16_offset(self.source(), start as int),
    {
        let a = self.offset(start);
        let b = self.offset(end);
        proof {
            let s = self.source@;
            let ka = choose|k: int| 0 <= k <= s.len() && encode_utf8(s.take(k)).len() == start;
            let kb = choose|k: int| 0 <= k <= s.len() && encode_utf8(s.take(k)).len() == end;
            if kb < ka {
                lemma_encoded_lengths_grow(s, kb, ka);
            }
            lemma_utf16_monotone(s, ka, kb);
        }
        b - a
    }
}

proof fn lemma_utf16_monotone(s: Seq<char>, j: int, k: int)
    requires
        0 <= j <= k <= s.len(),
    ensures
        utf16_len(s.take(j)) <= utf16_len(s.take(k)),
    decreases k - j,
{
    if j < k {
        assert(s.take(k).drop_last() =~= s.take(k - 1));
        lemma_utf16_monotone(s, j, k - 1);
    }
}

/// The mark placed before a block: it carries the block's UTF-16 source offset.
pub open spec fn anchor_mark(offset: nat) -> Seq<char> {
    "<span class=\"sync-anchor\" data-source-offset=\""@ + crate::respond::decimal(offset)
        + "\" aria-hidden=\"true\"></span>"@
}

pub fn render_anchor_mark(offset: usize) -> (r: String)
    ensures
        r@ == anchor_mark(offset as nat),
{
    let mut r = String::new();
    push_str(&mut r, "<span class=\"sync-anchor\" data-source-offset=\"");
    crate::respond::push_decimal(&mut r, offset as u64);
    push_str(&mut r, "\" aria-hidden=\"true\"></span>");
    proof {
        assert(r@ =~= anchor_mark(offset as nat));
    }
    r
}

/// The opening of the span around a run of text: it carries the run's UTF-16 source
/// range.
pub open spec fn source_run_mark(start: nat, end: nat) -> Seq<char> {
    "<span class=\"source-run\" data-source-start=\""@ + crate::respond::decimal(start)
        + "\" data-source-end=\""@ + crate::respond::decimal(end) + "\">"@
}

pub fn render_source_run_mark(start: usize, end: usize) -> (r: String)
    ensures
        r@ == source_run_mark(start as nat, end as nat),
{
    let mut r = String::new();
    push_str(&mut r, "<span class=\"source-run\" data-source-start=\"");
    crate::respond::push_decimal(&mut r, start as u64);
    push_str(&mut r, "\" data-source-end=\"");
    crate::respond::push_decimal(&mut r, end as u64);
    push_str(&mut r, "\">");
    proof {
        assert(r@ =~= source_run_mark(start as nat, end as nat));
    }
    r
}

/// One event of parsed Markdown, as far as its marks depend on it: the opening of
/// each kind of block that gets an anchor, and the events that carry source text.
#[derive(Debug)]
pub enum MarkdownEvent {
    ParagraphStart,
    HeadingStart,
    BlockQuoteStart,
    CodeBlockStart,
    ListStart,
    FootnoteStart,
    DefinitionListStart,
    TableStart,
    /// A thematic break.
    ThematicBreak,
    /// A line of a block of raw HTML, with that HTML.
    Html(String),
    /// Raw HTML inside a paragraph, with that HTML.
    InlineHtml(String),
    Text,
    Code,
    /// Any other event: the opening of another tag, a closing tag, a break.
    Other,
}

/// Events that get an anchor carrying their source offset.
pub open spec fn is_block(event: MarkdownEvent) -> bool {
    !(event is InlineHtml || event is Text || event is Code || event is Other)
}

/// Events of raw HTML, which the article shows as text.
pub open spec fn is_raw_html(event: MarkdownEvent) -> bool {
    event is Html || event is InlineHtml
}

/// Events whose text is wrapped in a span carrying its source range.
pub open spec fn is_run(event: MarkdownEvent) -> bool {
    event is Text || event is Code || is_raw_html(event)
}

/// The HTML put before and after an event whose source is the byte range
/// `start..end` of `source`.
pub open spec fn event_marks_of(source: Seq<char>, event: MarkdownEvent, start: int, end: int) -> (Seq<char>, Seq<char>) {
    let s = utf16_offset(source, start);
    let e = utf16_offset(source, end);
    (
        (if is_block(event) { anchor_mark(s) } else { Seq::<char>::empty() }) + (if is_run(event) {
            source_run_mark(s, e)
        } else {
            Seq::<char>::empty()
        }),
        if is_run(event) { "</span>"@ } else { Seq::<char>::empty() },
    )
}

/// The marks around one event of the Markdown the offsets measure, whose source is
/// the byte range `start..end`.
pub fn event_marks(offsets: &Utf16Offsets, event: &MarkdownEvent, start: usize, end: usize) -> (r: (String, String))
    requires
        offsets.wf(),
        is_boundary(offsets.source(), start as int),
        is_boundary(offsets.source(), end as int),
    ensures
        (r.0@, r.1@) == event_marks_of(offsets.source(), *event, start as int, end as int),
{
    let block = match event {
        InlineHtml(_) | Text | Code | Other => false,
        _ => true,
    };
    let run = match event {
        Text | Code | Html(_) | InlineHtml(_) => true,
        _ => false,
    };
    let s = offsets.offset(start);
    let e = offsets.offset(end);
    let mut before = String::new();
    if block {
        let anchor = render_anchor_mark(s);
        push_str(&mut before, anchor.as_str());
    }
    let mut after = String::new();
    if run {
        let mark = render_source_run_mark(s, e);
        push_str(&mut before, mark.as_str());
        push_str(&mut after, "</span>");
    }
    proof {
        assert(before@ =~= event_marks_of(offsets.source(), *event, start as int, end as int).0);
        assert(after@ =~= event_marks_of(offsets.source(), *event, start as int, end as int).1);
    }
    (before, after)
}

/// Every event's source range lies between characters of `source`.
pub open spec fn ranges_between_chars(source: Seq<char>, events: Seq<(MarkdownEvent, usize, usize)>) -> bool {
    forall|i: int|
        0 <= i < events.len() ==> is_boundary(source, #[trigger] events[i].1 as int) && is_boundary(
            source,
            events[i].2 as int,
        )
}

/// One piece of the article handed to the HTML writer: HTML written as it is, text
/// written escaped, or the `i`-th event of the parsed Markdown.
#[derive(Debug, PartialEq, Eq)]
pub enum ArticlePiece {
    Html(String),
    Text(String),
    Event(usize),
}

/// An article piece as plain values.
pub ghost enum PieceView {
    Html(Seq<char>),
    Text(Seq<char>),
    Event(int),
}

impl View for ArticlePiece {
    type V = PieceView;

    open spec fn view(&self) -> PieceView {
        match self {
            ArticlePiece::Html(s) => PieceView::Html(s@),
            ArticlePiece::Text(s) => PieceView::Text(s@),
            ArticlePiece::Event(i) => PieceView::Event(*i as int),
        }
    }
}

pub open spec fn piece_views(pieces: Seq<ArticlePiece>) -> Seq<PieceView> {
    pieces.map_values(|p: ArticlePiece| p@)
}

/// The pieces written for the `i`-th event of `source`: its opening marks, then the
/// event itself, or its raw HTML as text, then its closing marks.
pub open spec fn event_pieces(source: Seq<char>, events: Seq<(MarkdownEvent, usize, usize)>, i: int) -> Seq<PieceView> {
    let e = events[i];
    let marks = event_marks_of(source, e.0, e.1 as int, e.2 as int);
    let body = match e.0 {
        MarkdownEvent::Html(v) => PieceView::Text(v@),
        MarkdownEvent::InlineHtml(v) => PieceView::Text(v@),
        _ => PieceView::Event(i),
    };
    seq![PieceView::Html(marks.0), body, PieceView::Html(marks.1)]
}

/// The pieces written for the first `n` events of `source`, in order.
pub open spec fn article_pieces_upto(source: Seq<char>, events: Seq<(MarkdownEvent, usize, usize)>, n: int) -> Seq<PieceView>
    decreases n,
{
    if n <= 0 {
        Seq::empty()
    } else {
        article_pieces_upto(source, events, n - 1) + event_pieces(source, events, n - 1)
    }
}

/// The pieces of the article of `source`, whose parsed events are `events`.
pub open spec fn article_pieces(source: Seq<char>, events: Seq<(MarkdownEvent, usize, usize)>) -> Seq<PieceView> {
    article_pieces_upto(source, events, events.len() as int)
}

/// Raw HTML in the Markdown is never handed to the writer as HTML: the `i`-th event,
/// where it is raw HTML, becomes a text piece holding that HTML, between a span that
/// carries its source range and the span's end.
pub proof fn law_raw_html_shown_as_text(source: Seq<char>, events: Seq<(MarkdownEvent, usize, usize)>, i: int)
    requires
        0 <= i < events.len(),
        is_raw_html(events[i].0),
    ensures
        event_pieces(source, events, i)[1] == PieceView::Text(
            match events[i].0 {
                MarkdownEvent::Html(v) => v@,
                MarkdownEvent::InlineHtml(v) => v@,
                _ => Seq::<char>::empty(),
            },
        ),
        event_pieces(source, events, i)[2] == PieceView::Html("</span>"@),
{
}

/// The pieces of the article of the Markdown the offsets measure.
pub fn pieces_of_article(offsets: &Utf16Offsets, events: &Vec<(MarkdownEvent, usize, usize)>) -> (r: Vec<ArticlePiece>)
    requires
        offsets.wf(),
        ranges_between_chars(offsets.source(), events@),
    ensures
        piece_views(r@) == article_pieces(offsets.source(), events@),
{
    let mut r: Vec<ArticlePiece> = Vec::new();
    let mut i: usize = 0;
    while i < events.len()
        invariant
            offsets.wf(),
            ranges_between_chars(offsets.source(), events@),
            i <= events.len(),
            piece_views(r@) == article_pieces_upto(offsets.source(), events@, i as int),
        decreases events.len() - i,
    {
        let start = events[i].1;
        let end = events[i].2;
        let event = &events[i].0;
        proof {
            assert(is_boundary(offsets.source(), events@[i as int].1 as int));
        }
        let (before, after) = event_marks(offsets, event, start, end);
        let body = match event {
            Html(v) => ArticlePiece::Text(v.clone()),
            InlineHtml(v) => ArticlePiece::Text(v.clone()),
            _ => ArticlePiece::Event(i),
        };
        let ghost prev = r@;
        r.push(ArticlePiece::Html(before));
        r.push(body);
        r.push(ArticlePiece::Html(after));
        proof {
            assert(piece_views(r@) =~= piece_views(prev) + event_pieces(offsets.source(), events@, i as int));
        }
        i = i + 1;
    }
    r
}

/// The events pulldown-cmark reports for `markdown`, with the extensions this
/// library enables (GitHub flavour, tables, strikethrough, task lists, footnotes,
/// smart punctuation, definition lists), each with the byte range of its source.
pub uninterp spec fn markdown_events(markdown: Seq<char>) -> Seq<(MarkdownEvent, usize, usize)>;

/// `pulldown_cmark::Parser::new_ext(..).into_offset_iter()`: the events of `markdown`
/// with their byte ranges, each event told apart by its variant, raw HTML with its
/// text. Nothing is claimed of the ranges beyond what the name holds.
#[verifier::external_body]
fn parse_markdown(markdown: &str) -> (r: Vec<(MarkdownEvent, usize, usize)>)
    ensures
        r@ == markdown_events(markdown@),
{
    Parser::new_ext(markdown, Options::ENABLE_GFM | Options::ENABLE_TABLES | Options::ENABLE_STRIKETHROUGH
        | Options::ENABLE_TASKLISTS | Options::ENABLE_FOOTNOTES | Options::ENABLE_SMART_PUNCTUATION
        | Options::ENABLE_DEFINITION_LIST).into_offset_iter().map(|(event, range)| (match event {
        Start(Paragraph) => ParagraphStart, Start(Heading { .. }) => HeadingStart,
        Start(BlockQuote(_)) => BlockQuoteStart, Start(CodeBlock(_)) => CodeBlockStart,
        Start(List(_)) => ListStart, Start(FootnoteDefinition(_)) => FootnoteStart,
        Start(DefinitionList) => DefinitionListStart, Start(Table(_)) => TableStart,
        Rule => ThematicBreak, E::Html(v) => Html(v.into()), E::InlineHtml(v) => InlineHtml(v.into()),
        E::Text(_) => Text, E::Code(_) => Code, _ => Other,
    }, range.start, range.end)).collect()
}

/// The HTML pulldown-cmark's `html::push_html` writes for `pieces`: an HTML piece
/// written as it is, a text piece as escaped text, and `Event(i)` as the `i`-th event
/// of `markdown` parsed with the same extensions.
pub uninterp spec fn written_article(markdown: Seq<char>, pieces: Seq<PieceView>) -> Seq<char>;

/// `c` is the ASCII letter `lower` in either case.
pub open spec fn is_letter(c: char, lower: char) -> bool {
    c == lower || (c as u32) + 32 == lower as u32
}

/// A `<script` tag, in any case, opens at position `i` of `s`.
pub open spec fn opens_script(s: Seq<char>, i: int) -> bool {
    &&& 0 <= i
    &&& i + 7 <= s.len()
    &&& s[i] == '<'
    &&& is_letter(s[i + 1], 's')
    &&& is_letter(s[i + 2], 'c')
    &&& is_letter(s[i + 3], 'r')
    &&& is_letter(s[i + 4], 'i')
    &&& is_letter(s[i + 5], 'p')
    &&& is_letter(s[i + 6], 't')
}

/// Every `<` of `s` is followed within `s` by two characters that are not `sc` in
/// any case: no script tag can open in it, nor across its end.
pub open spec fn opens_no_script(s: Seq<char>) -> bool {
    forall|i: int|
        0 <= i < s.len() && #[trigger] s[i] == '<' ==> i + 2 < s.len() && !(is_letter(s[i + 1], 's') && is_letter(
            s[i + 2],
            'c',
        ))
}

/// Every event a piece names is one of the parsed events of `markdown`.
pub open spec fn pieces_name_events(markdown: Seq<char>, pieces: Seq<PieceView>) -> bool {
    forall|k: int|
        0 <= k < pieces.len() ==> (#[trigger] pieces[k] matches PieceView::Event(i) ==> 0 <= i < markdown_events(
            markdown,
        ).len())
}

/// The pieces keep no raw HTML event of `markdown` and their HTML opens no script.
pub open spec fn pieces_open_no_script(markdown: Seq<char>, pieces: Seq<PieceView>) -> bool {
    forall|k: int|
        0 <= k < pieces.len() ==> match #[trigger] pieces[k] {
            PieceView::Html(h) => opens_no_script(h),
            PieceView::Text(_) => true,
            PieceView::Event(i) => !is_raw_html(markdown_events(markdown)[i].0),
        }
}

/// `pulldown_cmark::html::push_html` on the pieces, turned one for one into
/// `Event::Html`, `Event::Text`, or the event of `Parser::new_ext` on `markdown` that
/// the piece names. The writer writes text, code, link targets and attributes
/// escaped, so that a `<` of its own begins one of its fixed tags, none of which is a
/// script tag; raw HTML it writes as it is. So where no raw HTML event is kept and
/// no HTML piece can open a script tag, the article has none.
#[verifier::external_body]
fn write_article(markdown: &str, pieces: &Vec<ArticlePiece>) -> (r: String)
    requires
        pieces_name_events(markdown@, piece_views(pieces@)),
    ensures
        r@ == written_article(markdown@, piece_views(pieces@)),
        pieces_open_no_script(markdown@, piece_views(pieces@)) ==> forall|i: int| !opens_script(r@, i),
{
    let options = Options::ENABLE_GFM | Options::ENABLE_TABLES | Options::ENABLE_STRIKETHROUGH
        | Options::ENABLE_TASKLISTS | Options::ENABLE_FOOTNOTES | Options::ENABLE_SMART_PUNCTUATION
        | Options::ENABLE_DEFINITION_LIST;
    let events: Vec<E> = Parser::new_ext(markdown, options).collect();
    let stream = pieces.iter().map(|piece| match piece {
        ArticlePiece::Html(s) => E::Html(s.clone().into()),
        ArticlePiece::Text(s) => E::Text(s.clone().into()),
        ArticlePiece::Event(i) => events[*i].clone(),
    });
    let mut article = String::new();
    html::push_html(&mut article, stream);
    article
}


proof fn lemma_no_script_concat(a: Seq<char>, b: Seq<char>)
    requires
        opens_no_script(a),
        opens_no_script(b),
    ensures
        opens_no_script(a + b),
{
    let s = a + b;
    assert forall|i: int| 0 <= i < s.len() && #[trigger] s[i] == '<' implies i + 2 < s.len() && !(is_letter(
        s[i + 1],
        's',
    ) && is_letter(s[i + 2], 'c')) by {
        if i < a.len() {
            assert(a[i] == '<');
            assert(s[i + 1] == a[i + 1] && s[i + 2] == a[i + 2]);
        } else {
            assert(b[i - a.len()] == '<');
            assert(s[i + 1] == b[i - a.len() + 1] && s[i + 2] == b[i - a.len() + 2]);
        }
    }
}

proof fn lemma_decimal_no_angle(n: nat)
    ensures
        opens_no_script(crate::respond::decimal(n)),
        forall|i: int| 0 <= i < crate::respond::decimal(n).len() ==> #[trigger] crate::respond::decimal(n)[i] != '<',
    decreases n,
{
    if n >= 10 {
        lemma_decimal_no_angle(n / 10);
    }
}

proof fn lemma_marks_no_script(s: nat, e: nat)
    ensures
        opens_no_script(anchor_mark(s)),
        opens_no_script(source_run_mark(s, e)),
        opens_no_script("</span>"@),
        opens_no_script(Seq::<char>::empty()),
{
    reveal_strlit("<span class=\"sync-anchor\" data-source-offset=\"");
    reveal_strlit("\" aria-hidden=\"true\"></span>");
    reveal_strlit("<span class=\"source-run\" data-source-start=\"");
    reveal_strlit("\" data-source-end=\"");
    reveal_strlit("\">");
    reveal_strlit("</span>");
    let l1 = "<span class=\"sync-anchor\" data-source-offset=\""@;
    let l2 = "\" aria-hidden=\"true\"></span>"@;
    let l3 = "<span class=\"source-run\" data-source-start=\""@;
    let l4 = "\" data-source-end=\""@;
    let l5 = "\">"@;
    let l6 = "</span>"@;
    assert(opens_no_script(l1));
    assert(opens_no_script(l2));
    assert(opens_no_script(l3));
    assert(opens_no_script(l4));
    assert(opens_no_script(l5));
    assert(opens_no_script(l6));
    lemma_decimal_no_angle(s);
    lemma_decimal_no_angle(e);
    lemma_no_script_concat(l1, crate::respond::decimal(s));
    lemma_no_script_concat(l1 + crate::respond::decimal(s), l2);
    lemma_no_script_concat(l3, crate::respond::decimal(s));
    lemma_no_script_concat(l3 + crate::respond::decimal(s), l4);
    lemma_no_script_concat(l3 + crate::respond::decimal(s) + l4, crate::respond::decimal(e));
    lemma_no_script_concat(l3 + crate::respond::decimal(s) + l4 + crate::respond::decimal(e), l5);
}

proof fn lemma_event_marks_no_script(source: Seq<char>, event: MarkdownEvent, start: int, end: int)
    ensures
        opens_no_script(event_marks_of(source, event, start, end).0),
        opens_no_script(event_marks_of(source, event, start, end).1),
{
    let s = utf16_offset(source, start);
    let e = utf16_offset(source, end);
    lemma_marks_no_script(s, e);
    let a = if is_block(event) { anchor_mark(s) } else { Seq::<char>::empty() };
    let b = if is_run(event) { source_run_mark(s, e) } else { Seq::<char>::empty() };
    lemma_no_script_concat(a, b);
}

proof fn lemma_article_pieces_safe(markdown: Seq<char>, events: Seq<(MarkdownEvent, usize, usize)>, n: int)
    requires
        events == markdown_events(markdown),
        0 <= n <= events.len(),
    ensures
        pieces_open_no_script(markdown, article_pieces_upto(markdown, events, n)),
        pieces_name_events(markdown, article_pieces_upto(markdown, events, n)),
    decreases n,
{
    if n > 0 {
        lemma_article_pieces_safe(markdown, events, n - 1);
        let e = events[n - 1];
        lemma_event_marks_no_script(markdown, e.0, e.1 as int, e.2 as int);
        let prev = article_pieces_upto(markdown, events, n - 1);
        let last = event_pieces(markdown, events, n - 1);
        let all = article_pieces_upto(markdown, events, n);
        assert(all == prev + last);
        assert forall|k: int| 0 <= k < all.len() implies match #[trigger] all[k] {
            PieceView::Html(h) => opens_no_script(h),
            PieceView::Text(_) => true,
            PieceView::Event(i) => !is_raw_html(markdown_events(markdown)[i].0),
        } && (all[k] matches PieceView::Event(i) ==> 0 <= i < markdown_events(markdown).len()) by {
            if k < prev.len() {
                assert(all[k] == prev[k]);
            } else {
                assert(all[k] == last[k - prev.len()]);
            }
        }
    }
}

/// The article HTML of `markdown`: each block marked with the UTF-16 offset of its
/// source, each run of text with its UTF-16 source range, and embedded HTML shown as
/// text, so that no script tag opens in it. `None` where the parser reports a range
/// that does not lie between characters.
pub fn render_markdown_article(markdown: &str) -> (r: Option<String>)
    requires
        encode_utf8(markdown@).len() <= usize::MAX,
    ensures
        r is Some <==> ranges_between_chars(markdown@, markdown_events(markdown@)),
        r matches Some(article) ==> article@ == written_article(
            markdown@,
            article_pieces(markdown@, markdown_events(markdown@)),
        ),
        r matches Some(article) ==> forall|i: int| !opens_script(article@, i),
{
    let offsets = Utf16Offsets::new(markdown);
    let events = parse_markdown(markdown);
    let mut i: usize = 0;
    while i < events.len()
        invariant
            offsets.wf(),
            offsets.source() == markdown@,
            events@ == markdown_events(markdown@),
            i <= events.len(),
            ranges_between_chars(markdown@, events@.take(i as int)),
        decreases events.len() - i,
    {
        let start = events[i].1;
        let end = events[i].2;
        if !offsets.is_boundary_at(start) || !offsets.is_boundary_at(end) {
            return None;
        }
        proof {
            assert(events@[i as int].1 == start && events@[i as int].2 == end);
            assert(is_boundary(markdown@, start as int) && is_boundary(markdown@, end as int));
            assert forall|j: int| 0 <= j < i + 1 implies is_boundary(markdown@, #[trigger] events@.take(i + 1)[j].1 as int)
                && is_boundary(markdown@, events@.take(i + 1)[j].2 as int) by {
                assert(events@.take(i + 1)[j] == events@[j]);
                if j < i {
                    assert(events@.take(i as int)[j] == events@[j]);
                    assert(is_boundary(markdown@, events@.take(i as int)[j].1 as int));
                }
            }
            assert(ranges_between_chars(markdown@, events@.take(i + 1)));
        }
        i = i + 1;
    }
    proof {
        assert(events@.take(events@.len() as int) =~= events@);
    }
    let pieces = pieces_of_article(&offsets, &events);
    proof {
        lemma_article_pieces_safe(markdown@, events@, events@.len() as int);
    }
    Some(write_article(markdown, &pieces))
}

} // verus!
