use vstd::prelude::*;
use vstd::string::StringExecFns;

verus! {

// ---------------------------------------------------------------------------
// Markdown parsing and HTML sanitization, through the outside crates.
// ---------------------------------------------------------------------------

/// The HTML fragment that the Markdown parser produces for a given input.
/// The parser is deterministic: the fragment depends on the input text alone.
pub uninterp spec fn html_of(markdown: Seq<char>) -> Seq<char>;

/// The sanitized form of an HTML fragment under the sanitizer's default
/// allow-list.  The sanitizer is deterministic: the result depends on the
/// input fragment alone.
pub uninterp spec fn sanitized_of(html: Seq<char>) -> Seq<char>;

/// Relies on pulldown_cmark::Parser::new_ext and pulldown_cmark::html::push_html:
/// parsing the input as CommonMark with every extension enabled and writing the
/// corresponding HTML fragment.  Malformed Markdown does not fail; it degrades
/// to plain text per the parser's rules.
#[verifier::external_body]
pub(crate) fn markdown_to_html(input: &str) -> (r: String)
    ensures
        r@ == html_of(input@),
{
    let parser = pulldown_cmark::Parser::new_ext(input, pulldown_cmark::Options::all());
    let mut html = String::new();
    pulldown_cmark::html::push_html(&mut html, parser);
    html
}

/// Relies on ammonia::Builder::new and ammonia::Builder::clean: sanitizing an
/// HTML fragment under the default allow-list, which strips script execution
/// vectors such as `script` elements and event-handler attributes.
#[verifier::external_body]
pub(crate) fn sanitize_html(input: &str) -> (r: String)
    ensures
        r@ == sanitized_of(input@),
{
    ammonia::Builder::new().clean(input).to_string()
}

// ---------------------------------------------------------------------------
// The fixed page template.
// ---------------------------------------------------------------------------

/// The template text up to and including the opening of the `title` element.
pub open spec fn doc_prologue() -> Seq<char> {
    "<!DOCTYPE html>\n<html>\n<head>\n<meta http-equiv=\"content-type\" content=\"text/html; charset=utf-8\">\n<title>"@
}

/// The template text that closes the title.
pub open spec fn doc_title_close() -> Seq<char> {
    "</title>\n"@
}

/// The opening of a stylesheet link, up to the `href` value.
pub open spec fn link_href_open() -> Seq<char> {
    "<link rel=\"stylesheet\" href=\""@
}

/// The closing of a stylesheet link, after the `href` value.
pub open spec fn link_close() -> Seq<char> {
    "\" type=\"text/css\">"@
}

/// The template text that closes the head and opens the body.
pub open spec fn head_close_body_open() -> Seq<char> {
    "\n</head>\n<body>\n"@
}

/// The template text between the title and a stylesheet link's `href` value.
pub open spec fn doc_css_open() -> Seq<char> {
    doc_title_close() + link_href_open()
}

/// The template text from the end of a stylesheet link's `href` value to the
/// opening of the `body` element.
pub open spec fn doc_css_close() -> Seq<char> {
    link_close() + head_close_body_open()
}

/// The template text between the title and the opening of the `body` element
/// when no stylesheet was given.
pub open spec fn doc_no_css() -> Seq<char> {
    "</title>\n</head>\n<body>\n"@
}

/// The template text that closes the document after the body.
pub open spec fn doc_epilogue() -> Seq<char> {
    "\n</body>\n</html>\n"@
}

/// The head of the rendered document: everything before the body fragment.
pub open spec fn doc_head(title: Seq<char>, css_name: Option<Seq<char>>) -> Seq<char> {
    match css_name {
        Some(name) => doc_prologue() + title + doc_css_open() + name + doc_css_close(),
        None => doc_prologue() + title + doc_no_css(),
    }
}

/// The complete rendered document: the head, the body fragment verbatim, and
/// the fixed epilogue.
pub open spec fn document_of(title: Seq<char>, body: Seq<char>, css_name: Option<Seq<char>>) -> Seq<char> {
    doc_head(title, css_name) + body + doc_epilogue()
}

/// The view of an optional owned string.
pub open spec fn opt_str_view(s: Option<String>) -> Option<Seq<char>> {
    match s {
        Some(inner) => Some(inner@),
        None => None,
    }
}

fn doc_prologue_str() -> (r: &'static str)
    ensures
        r@ == doc_prologue(),
{
    "<!DOCTYPE html>\n<html>\n<head>\n<meta http-equiv=\"content-type\" content=\"text/html; charset=utf-8\">\n<title>"
}

fn doc_css_open_str() -> (r: &'static str)
    ensures
        r@ == doc_css_open(),
{
    proof {
        reveal_strlit("</title>\n<link rel=\"stylesheet\" href=\"");
        reveal_strlit("</title>\n");
        reveal_strlit("<link rel=\"stylesheet\" href=\"");
        assert("</title>\n<link rel=\"stylesheet\" href=\""@ =~= doc_css_open());
    }
    "</title>\n<link rel=\"stylesheet\" href=\""
}

fn doc_css_close_str() -> (r: &'static str)
    ensures
        r@ == doc_css_close(),
{
    proof {
        reveal_strlit("\" type=\"text/css\">\n</head>\n<body>\n");
        reveal_strlit("\" type=\"text/css\">");
        reveal_strlit("\n</head>\n<body>\n");
        assert("\" type=\"text/css\">\n</head>\n<body>\n"@ =~= doc_css_close());
    }
    "\" type=\"text/css\">\n</head>\n<body>\n"
}

fn doc_no_css_str() -> (r: &'static str)
    ensures
        r@ == doc_no_css(),
{
    "</title>\n</head>\n<body>\n"
}

fn doc_epilogue_str() -> (r: &'static str)
    ensures
        r@ == doc_epilogue(),
{
    "\n</body>\n</html>\n"
}

/// Substitute a title, a body fragment and an optional stylesheet name into
/// the fixed page template.  The result is exactly `document_of` applied to
/// the arguments: the body is inserted verbatim, and a stylesheet link
/// appears exactly when a stylesheet name is given.
pub fn render_page(title: &str, body: &str, css_name: &Option<String>) -> (r: String)
    ensures
        r@ == document_of(title@, body@, opt_str_view(*css_name)),
{
    let mut page = String::new();
    page.append(doc_prologue_str());
    page.append(title);
    match css_name {
        Some(name) => {
            page.append(doc_css_open_str());
            page.append(name.as_str());
            page.append(doc_css_close_str());
        },
        None => {
            page.append(doc_no_css_str());
        },
    }
    page.append(body);
    page.append(doc_epilogue_str());
    proof {
        assert(page@ =~= document_of(title@, body@, opt_str_view(*css_name)));
    }
    page
}

// ---------------------------------------------------------------------------
// Substring occurrences, and what the template does and does not add.
// ---------------------------------------------------------------------------

/// The pattern `p` occurs in `s` starting at position `i`.
pub open spec fn occurs_at(s: Seq<char>, p: Seq<char>, i: int) -> bool {
    &&& 0 <= i
    &&& i + p.len() <= s.len()
    &&& forall|k: int| 0 <= k < p.len() ==> s[i + k] == p[k]
}

/// The pattern `p` occurs somewhere in `s`.
pub open spec fn contains_seq(s: Seq<char>, p: Seq<char>) -> bool {
    exists|i: int| occurs_at(s, p, i)
}

/// The opening of a script element.
pub open spec fn script_open() -> Seq<char> {
    "<script"@
}

/// The opening of a link element.
pub open spec fn link_open() -> Seq<char> {
    "<link"@
}

/// An occurrence in a concatenation lies in the left part, lies in the right
/// part, or spans the boundary; a spanning occurrence fixes the last char of
/// the left part and the first char of the right part to chars of the
/// pattern.
pub(crate) proof fn lemma_occurs_split(a: Seq<char>, b: Seq<char>, p: Seq<char>, i: int)
    requires
        occurs_at(a + b, p, i),
        p.len() >= 1,
    ensures
        i + p.len() <= a.len() ==> occurs_at(a, p, i),
        i >= a.len() ==> occurs_at(b, p, i - a.len()),
        i < a.len() && i + p.len() > a.len() ==> b.len() >= 1 && a.len() >= 1 && 1 <= a.len() - i
            < p.len() && b[0] == p[a.len() - i] && a[a.len() - 1] == p[a.len() - 1 - i],
{
    if i + p.len() <= a.len() {
        assert forall|k: int| 0 <= k < p.len() implies a[i + k] == p[k] by {
            assert((a + b)[i + k] == p[k]);
        }
    } else if i >= a.len() {
        assert forall|k: int| 0 <= k < p.len() implies b[i - a.len() + k] == p[k] by {
            assert((a + b)[i + k] == p[k]);
        }
    } else {
        assert((a + b)[a.len() as int] == p[a.len() - i]);
        assert((a + b)[a.len() - 1] == p[a.len() - 1 - i]);
    }
}

/// A concatenation holds no occurrence of `p` when neither part does and no
/// occurrence can span the boundary because the right part starts with a
/// char that appears nowhere in the pattern's tail.
pub(crate) proof fn lemma_concat_free_right_guard(a: Seq<char>, b: Seq<char>, p: Seq<char>)
    requires
        p.len() >= 1,
        !contains_seq(a, p),
        !contains_seq(b, p),
        forall|j: int| 1 <= j < p.len() ==> b.len() == 0 || b[0] != p[j],
    ensures
        !contains_seq(a + b, p),
{
    assert forall|i: int| !occurs_at(a + b, p, i) by {
        if occurs_at(a + b, p, i) {
            lemma_occurs_split(a, b, p, i);
        }
    }
}

/// A concatenation holds no occurrence of `p` when neither part does and no
/// occurrence can span the boundary because the left part ends with a char
/// that appears nowhere in the pattern but possibly at its last position.
pub(crate) proof fn lemma_concat_free_left_guard(a: Seq<char>, b: Seq<char>, p: Seq<char>)
    requires
        p.len() >= 1,
        !contains_seq(a, p),
        !contains_seq(b, p),
        forall|m: int| 0 <= m < p.len() - 1 ==> a.len() == 0 || a[a.len() - 1] != p[m],
    ensures
        !contains_seq(a + b, p),
{
    assert forall|i: int| !occurs_at(a + b, p, i) by {
        if occurs_at(a + b, p, i) {
            lemma_occurs_split(a, b, p, i);
        }
    }
}

/// A sequence without the pattern's two opening chars in adjacent positions
/// holds no occurrence of a pattern of length at least two.
pub(crate) proof fn lemma_digram_absent(s: Seq<char>, p: Seq<char>)
    requires
        p.len() >= 2,
        forall|i: int| 0 <= i && i + 1 < s.len() ==> !((#[trigger] s[i]) == p[0] && s[i + 1]
            == p[1]),
    ensures
        !contains_seq(s, p),
{
    assert forall|i: int| !occurs_at(s, p, i) by {
        if occurs_at(s, p, i) {
            assert(s[i + 0] == p[0]);
            assert(s[i + 1] == p[1]);
        }
    }
}

/// No piece of the fixed template holds an occurrence of `<script`, and
/// their boundary chars exclude occurrences that would span into or out of
/// the substituted parts.
proof fn lemma_template_pieces_script_free()
    ensures
        !contains_seq(doc_prologue(), script_open()),
        !contains_seq(doc_css_open(), script_open()),
        !contains_seq(doc_css_close(), script_open()),
        !contains_seq(doc_no_css(), script_open()),
        !contains_seq(doc_epilogue(), script_open()),
{
    reveal_strlit(
        "<!DOCTYPE html>\n<html>\n<head>\n<meta http-equiv=\"content-type\" content=\"text/html; charset=utf-8\">\n<title>",
    );
    reveal_strlit("</title>\n");
    reveal_strlit("<link rel=\"stylesheet\" href=\"");
    reveal_strlit("\" type=\"text/css\">");
    reveal_strlit("\n</head>\n<body>\n");
    reveal_strlit("</title>\n</head>\n<body>\n");
    reveal_strlit("\n</body>\n</html>\n");
    reveal_strlit("<script");
    lemma_digram_absent(doc_prologue(), script_open());
    lemma_digram_absent(doc_css_open(), script_open());
    lemma_digram_absent(doc_css_close(), script_open());
    lemma_digram_absent(doc_no_css(), script_open());
    lemma_digram_absent(doc_epilogue(), script_open());
}

/// The template adds no script element: when the title, the body fragment
/// and the stylesheet name each hold no occurrence of `<script`, the whole
/// rendered document holds none either — also none spanning the seams where
/// the parts are substituted into the template.
pub proof fn lemma_template_adds_no_script(
    title: Seq<char>,
    body: Seq<char>,
    css_name: Option<Seq<char>>,
)
    requires
        !contains_seq(title, script_open()),
        !contains_seq(body, script_open()),
        css_name matches Some(name) ==> !contains_seq(name, script_open()),
    ensures
        !contains_seq(document_of(title, body, css_name), script_open()),
{
    reveal_strlit(
        "<!DOCTYPE html>\n<html>\n<head>\n<meta http-equiv=\"content-type\" content=\"text/html; charset=utf-8\">\n<title>",
    );
    reveal_strlit("</title>\n");
    reveal_strlit("<link rel=\"stylesheet\" href=\"");
    reveal_strlit("\" type=\"text/css\">");
    reveal_strlit("\n</head>\n<body>\n");
    reveal_strlit("</title>\n</head>\n<body>\n");
    reveal_strlit("\n</body>\n</html>\n");
    reveal_strlit("<script");
    lemma_template_pieces_script_free();
    let p = script_open();
    match css_name {
        Some(name) => {
            let h1 = doc_prologue() + title;
            lemma_concat_free_left_guard(doc_prologue(), title, p);
            let h2 = h1 + doc_css_open();
            lemma_concat_free_right_guard(h1, doc_css_open(), p);
            let h3 = h2 + name;
            assert(h2[h2.len() - 1] == doc_css_open()[doc_css_open().len() - 1]);
            lemma_concat_free_left_guard(h2, name, p);
            let h4 = h3 + doc_css_close();
            lemma_concat_free_right_guard(h3, doc_css_close(), p);
            let h5 = h4 + body;
            assert(h4[h4.len() - 1] == doc_css_close()[doc_css_close().len() - 1]);
            lemma_concat_free_left_guard(h4, body, p);
            lemma_concat_free_right_guard(h5, doc_epilogue(), p);
            assert(document_of(title, body, css_name) == h5 + doc_epilogue());
        },
        None => {
            let h1 = doc_prologue() + title;
            lemma_concat_free_left_guard(doc_prologue(), title, p);
            let h2 = h1 + doc_no_css();
            lemma_concat_free_right_guard(h1, doc_no_css(), p);
            let h3 = h2 + body;
            assert(h2[h2.len() - 1] == doc_no_css()[doc_no_css().len() - 1]);
            lemma_concat_free_left_guard(h2, body, p);
            lemma_concat_free_right_guard(h3, doc_epilogue(), p);
            assert(document_of(title, body, css_name) == h3 + doc_epilogue());
        },
    }
}

/// The body fragment stands verbatim in the rendered document, between the
/// head and the fixed epilogue: rendering inserts it unchanged.
pub proof fn lemma_body_inserted_verbatim(
    title: Seq<char>,
    body: Seq<char>,
    css_name: Option<Seq<char>>,
)
    ensures
        document_of(title, body, css_name).len() == doc_head(title, css_name).len() + body.len()
            + doc_epilogue().len(),
        document_of(title, body, css_name).subrange(
            doc_head(title, css_name).len() as int,
            doc_head(title, css_name).len() + body.len() as int,
        ) == body,
{
    let h = doc_head(title, css_name);
    assert(document_of(title, body, css_name).subrange(h.len() as int, h.len() + body.len() as int)
        =~= body);
}

/// Where the stylesheet link stands in the head: right after the closed
/// title.
pub open spec fn link_pos(title: Seq<char>) -> int {
    doc_prologue().len() + title.len() + doc_title_close().len() as int
}

/// The complete stylesheet link for a given relative name.
pub open spec fn stylesheet_link_tag(name: Seq<char>) -> Seq<char> {
    link_href_open() + name + link_close()
}

/// A document rendered with a stylesheet holds exactly one stylesheet link
/// in its head, and that link references the given name: the full link tag
/// occurs right after the closed title, and no other occurrence of `<link`
/// stands anywhere in the head — provided the title and the name themselves
/// hold no `<link`.
pub proof fn lemma_head_has_one_stylesheet_link(title: Seq<char>, name: Seq<char>)
    requires
        !contains_seq(title, link_open()),
        !contains_seq(name, link_open()),
    ensures
        occurs_at(doc_head(title, Some(name)), stylesheet_link_tag(name), link_pos(title)),
        forall|i: int|
            occurs_at(doc_head(title, Some(name)), link_open(), i) ==> i == link_pos(title),
{
    reveal_strlit(
        "<!DOCTYPE html>\n<html>\n<head>\n<meta http-equiv=\"content-type\" content=\"text/html; charset=utf-8\">\n<title>",
    );
    reveal_strlit("</title>\n");
    reveal_strlit("<link rel=\"stylesheet\" href=\"");
    reveal_strlit("\" type=\"text/css\">");
    reveal_strlit("\n</head>\n<body>\n");
    reveal_strlit("<link");
    let p = link_open();
    let pr = doc_prologue();
    let tc = doc_title_close();
    let lo = link_href_open();
    let lc = link_close();
    let hb = head_close_body_open();
    let x2 = pr + title;
    let a3 = doc_css_open();
    let x3 = x2 + a3;
    let x4 = x3 + name;
    let a5 = doc_css_close();
    let h = doc_head(title, Some(name));
    let pos = link_pos(title);
    let tag = stylesheet_link_tag(name);
    assert(h == x4 + a5);
    assert forall|k: int| 0 <= k < tag.len() implies h[pos + k] == tag[k] by {
        if k < lo.len() {
            assert(tag[k] == lo[k]);
            assert(h[pos + k] == a3[tc.len() + k]);
        } else if k < lo.len() + name.len() {
            assert(tag[k] == name[k - lo.len()]);
            assert(h[pos + k] == x4[x3.len() + (k - lo.len())]);
        } else {
            assert(tag[k] == lc[k - lo.len() - name.len()]);
            assert(h[pos + k] == a5[k - lo.len() - name.len()]);
        }
    }
    assert(occurs_at(h, tag, pos));
    lemma_digram_absent(pr, p);
    lemma_digram_absent(tc, p);
    lemma_digram_absent(lc, p);
    lemma_digram_absent(hb, p);
    lemma_concat_free_right_guard(lc, hb, p);
    lemma_concat_free_left_guard(pr, title, p);
    assert forall|i: int| occurs_at(a3, p, i) implies i == tc.len() by {
        lemma_occurs_split(tc, lo, p, i);
        if i + p.len() <= tc.len() {
            assert(contains_seq(tc, p));
        } else if i >= tc.len() {
            assert(lo[i - tc.len()] == p[0]);
            assert(forall|j: int| 1 <= j < lo.len() ==> lo[j] != '<');
        }
    }
    assert forall|i: int| occurs_at(x3, p, i) implies i == pos by {
        lemma_occurs_split(x2, a3, p, i);
        if i + p.len() <= x2.len() {
            assert(contains_seq(x2, p));
        } else if i >= x2.len() {
            assert(occurs_at(a3, p, i - x2.len()));
        } else {
            assert(a3[0] == tc[0]);
        }
    }
    assert forall|i: int| occurs_at(x4, p, i) implies i == pos by {
        lemma_occurs_split(x3, name, p, i);
        if i + p.len() <= x3.len() {
            assert(occurs_at(x3, p, i));
        } else if i >= x3.len() {
            assert(contains_seq(name, p));
        } else {
            assert(x3[x3.len() - 1] == lo[lo.len() - 1]);
        }
    }
    assert forall|i: int| occurs_at(h, p, i) implies i == pos by {
        lemma_occurs_split(x4, a5, p, i);
        if i + p.len() <= x4.len() {
            assert(occurs_at(x4, p, i));
        } else if i >= x4.len() {
            assert(contains_seq(a5, p));
        } else {
            assert(a5[0] == lc[0]);
        }
    }
}

/// A document rendered without a stylesheet holds no stylesheet link at
/// all: no occurrence of `<link` stands in its head — provided the title
/// holds none.
pub proof fn lemma_head_has_no_stylesheet_link(title: Seq<char>)
    requires
        !contains_seq(title, link_open()),
    ensures
        !contains_seq(doc_head(title, None), link_open()),
{
    reveal_strlit(
        "<!DOCTYPE html>\n<html>\n<head>\n<meta http-equiv=\"content-type\" content=\"text/html; charset=utf-8\">\n<title>",
    );
    reveal_strlit("</title>\n</head>\n<body>\n");
    reveal_strlit("<link");
    let p = link_open();
    lemma_digram_absent(doc_prologue(), p);
    lemma_digram_absent(doc_no_css(), p);
    lemma_concat_free_left_guard(doc_prologue(), title, p);
    lemma_concat_free_right_guard(doc_prologue() + title, doc_no_css(), p);
}

} // verus!
