//! Readable text from HTML: headings, paragraphs, list items, quotes and
//! table cells, one line each, with page chrome (scripts, navigation,
//! headers, footers, sidebars, frames) left out.
use vstd::prelude::*;
use crate::text::{chars_of, collapse_whitespace, collapse_ws, join, lemma_join_push};

verus! {

/// An element picked out of a document: its tag name, the text nodes below
/// it in document order, and the tag names of its element ancestors.
pub struct ScrapedElement {
    pub tag: String,
    pub text_pieces: Vec<String>,
    pub ancestor_tags: Vec<String>,
}

/// The plain contents of a `ScrapedElement`.
pub struct ScrapedElementView {
    pub tag: Seq<char>,
    pub pieces: Seq<Seq<char>>,
    pub ancestors: Seq<Seq<char>>,
}

impl ScrapedElement {
    pub open spec fn view_of(&self) -> ScrapedElementView {
        ScrapedElementView {
            tag: self.tag@,
            pieces: self.text_pieces@.map_values(|s: String| s@),
            ancestors: self.ancestor_tags@.map_values(|s: String| s@),
        }
    }
}

/// The plain contents of a list of elements.
pub open spec fn elements_view(v: Seq<ScrapedElement>) -> Seq<ScrapedElementView> {
    v.map_values(|e: ScrapedElement| e.view_of())
}

/// What scraper selects from `html` with the CSS selector `selector`: for
/// each matching element in document order, its tag, text nodes and element
/// ancestors; `None` when the selector does not parse.
pub uninterp spec fn html_select(html: Seq<char>, selector: Seq<char>) -> Option<Seq<ScrapedElementView>>;

/// Parses `html` as a document with scraper and selects the elements that
/// match `selector`, handing out each as plain values (the claim: the result
/// is `html_select(html, selector)`, a function of the two strings alone).
#[verifier::external_body]
fn select_elements(html: &str, selector: &str) -> (r: Option<Vec<ScrapedElement>>)
    ensures
        r is Some == html_select(html@, selector@) is Some,
        r matches Some(v) ==> html_select(html@, selector@) == Some(elements_view(v@)),
{
    let doc = scraper::Html::parse_document(html);
    let sel = scraper::Selector::parse(selector).ok()?;
    let picked = doc.select(&sel).map(|e| ScrapedElement {
        tag: e.value().name().to_string(),
        text_pieces: e.text().map(|t| t.to_string()).collect(),
        ancestor_tags: e.ancestors().filter_map(scraper::ElementRef::wrap).map(|a| a.value().name().to_string()).collect(),
    });
    Some(picked.collect())
}

/// The selector of the elements that carry readable text.
pub open spec fn content_selector() -> Seq<char> {
    "title, h1, h2, h3, h4, h5, h6, p, li, blockquote, pre, td, th"@
}

/// Tags whose content is page chrome, not readable text.
pub open spec fn noise_tag(t: Seq<char>) -> bool {
    ||| t == "script"@
    ||| t == "style"@
    ||| t == "noscript"@
    ||| t == "nav"@
    ||| t == "footer"@
    ||| t == "header"@
    ||| t == "aside"@
    ||| t == "iframe"@
}

/// Some ancestor of the element is a noise tag.
pub open spec fn inside_noise(e: ScrapedElementView) -> bool {
    exists|k: int| 0 <= k < e.ancestors.len() && noise_tag(#[trigger] e.ancestors[k])
}

/// The element's text: its text nodes joined by spaces, with runs of
/// whitespace collapsed to one space and no leading or trailing space.
pub open spec fn element_text(e: ScrapedElementView) -> Seq<char> {
    collapse_ws(join(e.pieces, seq![' ']))
}

/// The marker put before a line of the given tag.
pub open spec fn line_prefix(tag: Seq<char>) -> Seq<char> {
    if tag == "title"@ || tag == "h1"@ {
        "# "@
    } else if tag == "h2"@ {
        "## "@
    } else if tag == "h3"@ {
        "### "@
    } else if tag == "h4"@ || tag == "h5"@ || tag == "h6"@ {
        "#### "@
    } else if tag == "li"@ {
        "- "@
    } else {
        seq![]
    }
}

/// An element yields a line: it is outside page chrome and has text.
pub open spec fn yields_line(e: ScrapedElementView) -> bool {
    !inside_noise(e) && element_text(e).len() > 0
}

/// The lines of the first `n` elements.
pub open spec fn text_lines(els: Seq<ScrapedElementView>, n: int) -> Seq<Seq<char>>
    decreases n,
{
    if n <= 0 {
        seq![]
    } else {
        let rest = text_lines(els, n - 1);
        let e = els[n - 1];
        if yields_line(e) {
            rest.push(line_prefix(e.tag) + element_text(e))
        } else {
            rest
        }
    }
}

/// The readable text of a list of elements: their lines joined by newlines.
pub open spec fn rendered_text(els: Seq<ScrapedElementView>) -> Seq<char> {
    join(text_lines(els, els.len() as int), seq!['\n'])
}

fn seq_equal(a: &[char], b: &[char]) -> (r: bool)
    ensures
        r == (a@ == b@),
{
    if a.len() != b.len() {
        return false;
    }
    let n = a.len();
    for i in 0..n
        invariant
            n == a@.len(),
            n == b@.len(),
            forall|j: int| 0 <= j < i ==> a@[j] == b@[j],
    {
        if a[i] != b[i] {
            return false;
        }
    }
    assert(a@ =~= b@);
    true
}

fn str_equal(a: &[char], b: &str) -> (r: bool)
    ensures
        r == (a@ == b@),
{
    let bv = chars_of(b);
    seq_equal(a, bv.as_slice())
}

fn is_noise_tag(t: &str) -> (r: bool)
    ensures
        r == noise_tag(t@),
{
    let v = chars_of(t);
    let s = v.as_slice();
    str_equal(s, "script") || str_equal(s, "style") || str_equal(s, "noscript") || str_equal(s, "nav")
        || str_equal(s, "footer") || str_equal(s, "header") || str_equal(s, "aside") || str_equal(
        s,
        "iframe",
    )
}

fn is_inside_noise(e: &ScrapedElement) -> (r: bool)
    ensures
        r == inside_noise(e.view_of()),
{
    let n = e.ancestor_tags.len();
    let ghost v = e.view_of();
    for i in 0..n
        invariant
            n == e.ancestor_tags@.len(),
            v == e.view_of(),
            forall|j: int| 0 <= j < i ==> !noise_tag(#[trigger] v.ancestors[j]),
    {
        if is_noise_tag(e.ancestor_tags[i].as_str()) {
            assert(noise_tag(v.ancestors[i as int]));
            return true;
        }
    }
    assert(!inside_noise(v)) by {
        if inside_noise(v) {
            let k = choose|k: int| 0 <= k < v.ancestors.len() && noise_tag(#[trigger] v.ancestors[k]);
            assert(!noise_tag(v.ancestors[k]));
        }
    }
    false
}

fn joined_pieces(pieces: &Vec<String>) -> (r: Vec<char>)
    ensures
        r@ == join(pieces@.map_values(|s: String| s@), seq![' ']),
{
    let ghost ps = pieces@.map_values(|s: String| s@);
    let mut out: Vec<char> = Vec::new();
    let n = pieces.len();
    for i in 0..n
        invariant
            n == pieces@.len(),
            ps == pieces@.map_values(|s: String| s@),
            out@ == join(ps.take(i as int), seq![' ']),
    {
        let piece = chars_of(pieces[i].as_str());
        let ghost before = out@;
        if i > 0 {
            out.push(' ');
        }
        let m = piece.len();
        for k in 0..m
            invariant
                m == piece@.len(),
                out@ == if i > 0 { before + seq![' '] + piece@.take(k as int) } else { before + piece@.take(k as int) },
        {
            out.push(piece[k]);
            assert(piece@.take(k + 1) == piece@.take(k as int).push(piece@[k as int]));
        }
        proof {
            assert(piece@.take(m as int) == piece@);
            assert(ps.take(i + 1).drop_last() == ps.take(i as int));
            assert(ps.take(i + 1).last() == piece@);
            if i > 0 {
                assert(join(ps.take(i + 1), seq![' ']) == join(ps.take(i as int), seq![' ']) + seq![' '] + piece@);
            } else {
                assert(ps.take(1) == seq![piece@]);
                assert(before.len() == 0);
            }
        }
    }
    assert(ps.take(n as int) == ps);
    out
}

fn prefix_for(tag: &str) -> (r: &'static str)
    ensures
        r@ == line_prefix(tag@),
{
    let v = chars_of(tag);
    let s = v.as_slice();
    if str_equal(s, "title") || str_equal(s, "h1") {
        "# "
    } else if str_equal(s, "h2") {
        "## "
    } else if str_equal(s, "h3") {
        "### "
    } else if str_equal(s, "h4") || str_equal(s, "h5") || str_equal(s, "h6") {
        "#### "
    } else if str_equal(s, "li") {
        "- "
    } else {
        proof {
            reveal_strlit("");
        }
        ""
    }
}

/// The lines of the first `m` elements begin the lines of the first `n`.
pub proof fn lemma_lines_prefix(els: Seq<ScrapedElementView>, m: int, n: int)
    requires
        0 <= m <= n,
    ensures
        text_lines(els, m).len() <= text_lines(els, n).len(),
        forall|j: int| 0 <= j < text_lines(els, m).len() ==> #[trigger] text_lines(els, n)[j] == text_lines(els, m)[j],
    decreases n - m,
{
    if m < n {
        lemma_lines_prefix(els, m, n - 1);
        let p = text_lines(els, n - 1);
        let q = text_lines(els, n);
        assert forall|j: int| 0 <= j < text_lines(els, m).len() implies #[trigger] q[j] == text_lines(els, m)[j] by {
            assert(q[j] == p[j]);
        }
    }
}

/// The line of an element of readable text: a title or `h1` is marked
/// `# `, an `h2` `## `, an `h3` `### `, an `h4`, `h5` or `h6` `#### `, a
/// list item `- `, and every other element (paragraph, quote, preformatted
/// text, table cell) is its text alone; that line is among the lines of the
/// whole page, right after the lines of the elements before it.
pub proof fn law_line_markers(els: Seq<ScrapedElementView>, k: int)
    requires
        0 <= k < els.len(),
        yields_line(els[k]),
    ensures
        ({
            let line = text_lines(els, k + 1).last();
            let t = els[k].tag;
            let x = element_text(els[k]);
            &&& (t == "title"@ || t == "h1"@) ==> line == "# "@ + x
            &&& t == "h2"@ ==> line == "## "@ + x
            &&& t == "h3"@ ==> line == "### "@ + x
            &&& (t == "h4"@ || t == "h5"@ || t == "h6"@) ==> line == "#### "@ + x
            &&& t == "li"@ ==> line == "- "@ + x
            &&& (t == "p"@ || t == "blockquote"@ || t == "pre"@ || t == "td"@ || t == "th"@) ==> line == x
        }),
        text_lines(els, k + 1).len() == text_lines(els, k).len() + 1,
        text_lines(els, els.len() as int).len() > text_lines(els, k).len(),
        text_lines(els, els.len() as int)[text_lines(els, k).len() as int] == text_lines(els, k + 1).last(),
{
    reveal_strlit("title");
    reveal_strlit("h1");
    reveal_strlit("h2");
    reveal_strlit("h3");
    reveal_strlit("h4");
    reveal_strlit("h5");
    reveal_strlit("h6");
    reveal_strlit("li");
    reveal_strlit("p");
    reveal_strlit("blockquote");
    reveal_strlit("pre");
    reveal_strlit("td");
    reveal_strlit("th");
    let t = els[k].tag;
    assert("h1"@[1] == '1' && "h2"@[1] == '2' && "h3"@[1] == '3' && "title"@.len() == 5);
    assert("li"@[0] == 'l' && "p"@.len() == 1 && "blockquote"@.len() == 10 && "pre"@.len() == 3);
    assert("td"@[0] == 't' && "th"@[0] == 't' && "h4"@[1] == '4' && "h5"@[1] == '5' && "h6"@[1] == '6');
    assert("h1"@.len() == 2 && "h2"@.len() == 2 && "h3"@.len() == 2 && "li"@.len() == 2);
    assert("h4"@.len() == 2 && "h5"@.len() == 2 && "h6"@.len() == 2 && "td"@.len() == 2 && "th"@.len() == 2);
    assert(line_prefix(t) == line_prefix(els[k].tag));
    lemma_lines_prefix(els, k + 1, els.len() as int);
    let q = text_lines(els, k + 1);
    assert(text_lines(els, els.len() as int)[q.len() - 1] == q[q.len() - 1]);
}

/// Every line is non-empty.
pub proof fn lemma_lines_nonempty(els: Seq<ScrapedElementView>, n: int)
    ensures
        forall|k: int| 0 <= k < text_lines(els, n).len() ==> #[trigger] text_lines(els, n)[k].len() > 0,
    decreases n,
{
    if n > 0 {
        lemma_lines_nonempty(els, n - 1);
        let rest = text_lines(els, n - 1);
        let e = els[n - 1];
        if yields_line(e) {
            let q = rest.push(line_prefix(e.tag) + element_text(e));
            assert forall|k: int| 0 <= k < q.len() implies #[trigger] q[k].len() > 0 by {
                if k < rest.len() {
                    assert(q[k] == rest[k]);
                }
            }
        }
    }
}

/// The readable text of already selected elements: one line per element
/// that is outside page chrome and has text, each line being the tag's
/// marker (`# `, `## `, `### `, `#### ` or `- `) and the element's collapsed
/// text, lines joined by newlines.
pub fn render_text_lines(elements: &[ScrapedElement]) -> (r: String)
    ensures
        r@ == rendered_text(elements_view(elements@)),
{
    let ghost els = elements_view(elements@);
    let mut out = String::new();
    let mut any = false;
    let n = elements.len();
    for i in 0..n
        invariant
            n == elements@.len(),
            els == elements_view(elements@),
            out@ == join(text_lines(els, i as int), seq!['\n']),
            any == (text_lines(els, i as int).len() > 0),
    {
        let e = &elements[i];
        proof {
            assert(els[i as int] == e.view_of());
            lemma_lines_nonempty(els, i as int);
            crate::text::lemma_join_empty(text_lines(els, i as int), seq!['\n']);
        }
        if !is_inside_noise(e) {
            let raw = joined_pieces(&e.text_pieces);
            let collapsed = collapse_whitespace(raw.as_slice());
            if !collapsed.as_str().is_empty() {
                let line = prefix_for(e.tag.as_str()).to_owned().concat(collapsed.as_str());
                proof {
                    assert(collapsed@.len() > 0);
                    assert(yields_line(els[i as int]));
                    assert(line@ == line_prefix(els[i as int].tag) + element_text(els[i as int]));
                }
                if any {
                    proof {
                        lemma_join_push(text_lines(els, i as int), seq!['\n'], line@);
                    }
                    out.push('\n');
                    out.append(line.as_str());
                    assert(out@ == join(text_lines(els, i as int), seq!['\n']) + seq!['\n'] + line@);
                } else {
                    out = line;
                    assert(text_lines(els, i as int).len() == 0);
                    assert(text_lines(els, i + 1) == seq![out@]);
                }
                any = true;
            } else {
                assert(!yields_line(els[i as int]));
            }
        } else {
            assert(!yields_line(els[i as int]));
        }
    }
    out
}

/// `text` is the readable text of `html`: the rendering of its content
/// elements, or nothing when they cannot be selected.
pub open spec fn is_page_text(html: Seq<char>, text: Seq<char>) -> bool {
    &&& html_select(html, content_selector()) matches Some(els) ==> text == rendered_text(els)
    &&& html_select(html, content_selector()) is None ==> text.len() == 0
}

/// The readable text of an HTML document: `render_text_lines` applied to its
/// title, heading, paragraph, list-item, quote, preformatted and table-cell
/// elements. The selector is a fixed one that scraper accepts; should it be
/// refused the text is empty.
pub fn extract_text(html: &str) -> (r: String)
    ensures
        html_select(html@, content_selector()) matches Some(els) ==> r@ == rendered_text(els),
        html_select(html@, content_selector()) is None ==> r@.len() == 0,
        is_page_text(html@, r@),
{
    let selector = "title, h1, h2, h3, h4, h5, h6, p, li, blockquote, pre, td, th";
    proof {
        assert(selector@ == content_selector());
    }
    match select_elements(html, selector) {
        Some(els) => render_text_lines(els.as_slice()),
        None => String::new(),
    }
}

} // verus!
