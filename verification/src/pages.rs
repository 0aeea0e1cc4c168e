//! The site's HTML pages: the home page, the error pages and the pages that
//! show an architecture document. Text values are HTML-escaped where they
//! are inserted; rendered Markdown is inserted as it is.

use vstd::prelude::*;
use crate::text::{chars_of, push_char};

verus! {

/// The year the site's copyright notice starts from.
pub const COPYRIGHT_START_YEAR: i32 = 2026;

/// Why rendering a page failed.
#[derive(Clone, Copy, Debug, PartialEq, Eq, Structural)]
pub enum RenderError {
    /// The page template could not be filled in.
    Template,
}

// ---------------------------------------------------------------------------
// Escaping and numbers
// ---------------------------------------------------------------------------

/// How one character is written into HTML text or an attribute value.
pub open spec fn escaped_char(c: char) -> Seq<char> {
    if c == '&' {
        seq!['&', 'a', 'm', 'p', ';']
    } else if c == '<' {
        seq!['&', 'l', 't', ';']
    } else if c == '>' {
        seq!['&', 'g', 't', ';']
    } else if c == '"' {
        seq!['&', 'q', 'u', 'o', 't', ';']
    } else if c == '\'' {
        seq!['&', '#', 'x', '2', '7', ';']
    } else {
        seq![c]
    }
}

/// `s` escaped for HTML, character by character.
pub open spec fn html_escaped(s: Seq<char>) -> Seq<char>
    decreases s.len(),
{
    if s.len() == 0 {
        Seq::empty()
    } else {
        html_escaped(s.drop_last()) + escaped_char(s.last())
    }
}

/// Whether `c` is one of the characters that HTML escaping replaces.
pub open spec fn is_html_special(c: char) -> bool {
    c == '&' || c == '<' || c == '>' || c == '"' || c == '\''
}

/// Escaped text holds no `<`, `>`, `"` or `'`, and every `&` in it starts one
/// of the entities that escaping writes: inserted text cannot open a tag or
/// leave an attribute value.
pub proof fn law_escaped_text_is_inert(s: Seq<char>)
    ensures
        forall|i: int|
            0 <= i < html_escaped(s).len() ==> {
                let c = #[trigger] html_escaped(s)[i];
                c != '<' && c != '>' && c != '"' && c != '\''
            },
        (forall|i: int| 0 <= i < s.len() ==> !is_html_special(#[trigger] s[i])) ==> html_escaped(
            s,
        ) == s,
    decreases s.len(),
{
    if s.len() > 0 {
        law_escaped_text_is_inert(s.drop_last());
        let prev = html_escaped(s.drop_last());
        let e = escaped_char(s.last());
        let all = html_escaped(s);
        assert forall|i: int| 0 <= i < all.len() implies ({
            let c = #[trigger] all[i];
            c != '<' && c != '>' && c != '"' && c != '\''
        }) by {
            if i < prev.len() {
                assert(all[i] == prev[i]);
            } else {
                assert(all[i] == e[i - prev.len()]);
            }
        }
        if forall|i: int| 0 <= i < s.len() ==> !is_html_special(#[trigger] s[i]) {
            assert(!is_html_special(s[s.len() - 1]));
            assert(forall|i: int|
                0 <= i < s.drop_last().len() ==> #[trigger] s.drop_last()[i] == s[i]);
            assert(html_escaped(s) =~= s);
        }
    }
}

/// Appends `s`, HTML-escaped, to `out`.
pub fn push_escaped(out: &mut String, s: &str)
    ensures
        final(out)@ == old(out)@ + html_escaped(s@),
{
    let v = chars_of(s);
    let ghost start = out@;
    let mut i: usize = 0;
    while i < v.len()
        invariant
            i <= v@.len(),
            v@ == s@,
            out@ == start + html_escaped(v@.take(i as int)),
        decreases v@.len() - i,
    {
        let c = v[i];
        proof {
            assert(v@.take(i + 1).drop_last() =~= v@.take(i as int));
            reveal_strlit("&amp;");
            reveal_strlit("&lt;");
            reveal_strlit("&gt;");
            reveal_strlit("&quot;");
            reveal_strlit("&#x27;");
        }
        if c == '&' {
            out.append("&amp;");
        } else if c == '<' {
            out.append("&lt;");
        } else if c == '>' {
            out.append("&gt;");
        } else if c == '"' {
            out.append("&quot;");
        } else if c == '\'' {
            out.append("&#x27;");
        } else {
            push_char(out, c);
        }
        i = i + 1;
        assert(out@ =~= start + html_escaped(v@.take(i as int)));
    }
    assert(v@.take(v@.len() as int) =~= s@);
}

/// The decimal digit for `d < 10`.
pub open spec fn digit_char(d: nat) -> char {
    if d == 0 {
        '0'
    } else if d == 1 {
        '1'
    } else if d == 2 {
        '2'
    } else if d == 3 {
        '3'
    } else if d == 4 {
        '4'
    } else if d == 5 {
        '5'
    } else if d == 6 {
        '6'
    } else if d == 7 {
        '7'
    } else if d == 8 {
        '8'
    } else {
        '9'
    }
}

/// `n` in decimal, without leading zeros.
pub open spec fn decimal(n: nat) -> Seq<char>
    decreases n,
{
    if n < 10 {
        seq![digit_char(n)]
    } else {
        decimal(n / 10).push(digit_char(n % 10))
    }
}

/// `n` in decimal, with a `-` in front when it is negative (as `Display`
/// writes an integer).
pub open spec fn signed_decimal(n: int) -> Seq<char> {
    if n < 0 {
        seq!['-'] + decimal((-n) as nat)
    } else {
        decimal(n as nat)
    }
}

/// The decimal digit for `d < 10`.
fn digit(d: u32) -> (c: char)
    requires
        d < 10,
    ensures
        c == digit_char(d as nat),
{
    match d {
        0 => '0',
        1 => '1',
        2 => '2',
        3 => '3',
        4 => '4',
        5 => '5',
        6 => '6',
        7 => '7',
        8 => '8',
        _ => '9',
    }
}

/// Appends `n` in decimal to `out`.
fn push_decimal(out: &mut String, n: u32)
    ensures
        final(out)@ == old(out)@ + decimal(n as nat),
    decreases n,
{
    if n >= 10 {
        push_decimal(out, n / 10);
    }
    push_char(out, digit(n % 10));
    assert(final(out)@ =~= old(out)@ + decimal(n as nat));
}

/// Appends `n` in decimal, with a leading `-` when negative, to `out`.
pub fn push_i32(out: &mut String, n: i32)
    ensures
        final(out)@ == old(out)@ + signed_decimal(n as int),
{
    if n < 0 {
        push_char(out, '-');
        let m: i64 = -(n as i64);
        push_decimal(out, m as u32);
        assert(final(out)@ =~= old(out)@ + signed_decimal(n as int));
    } else {
        push_decimal(out, n as u32);
    }
}

// ---------------------------------------------------------------------------
// Page texts
// ---------------------------------------------------------------------------

/// Start of every page, up to the text of its `<title>`.
pub const PAGE_START: &'static str = "<!DOCTYPE html>\n<html lang=\"en\">\n<head>\n<meta charset=\"utf-8\">\n<meta name=\"viewport\" content=\"width=device-width, initial-scale=1\">\n<title>";

/// From the end of the title to the page-specific part of `<head>`.
pub const PAGE_AFTER_TITLE: &'static str = "</title>\n<link rel=\"icon\" type=\"image/png\" href=\"/static/pelorus-favicon-32.png\">\n<link rel=\"stylesheet\" href=\"/static/vendor/bootstrap-5.3.3/bootstrap.min.css\">\n";

/// From the end of `<head>` to the class of the specifications link.
pub const PAGE_NAV_START: &'static str = "</head>\n<body>\n<nav class=\"navbar navbar-expand navbar-dark bg-dark\">\n<div class=\"container\">\n<a class=\"navbar-brand\" href=\"/\">Pelorus</a>\n<ul class=\"navbar-nav\">\n<li class=\"nav-item\"><a class=\"nav-link ";

/// From the class of the specifications link to that of the ECDIS link.
pub const PAGE_NAV_ECDIS: &'static str = "\" href=\"/specifications/\">Specifications</a></li>\n<li class=\"nav-item\"><a class=\"nav-link ";

/// From the class of the ECDIS link to that of the platform link.
pub const PAGE_NAV_PLATFORM: &'static str = "\" href=\"/ecdis\">ECDIS</a></li>\n<li class=\"nav-item\"><a class=\"nav-link ";

/// From the class of the platform link to the page's main content.
pub const PAGE_NAV_END: &'static str = "\" href=\"/platform\">Platform</a></li>\n</ul>\n</div>\n</nav>\n<main class=\"container py-4\">\n";

/// From the main content to the copyright year.
pub const PAGE_FOOTER_START: &'static str = "</main>\n<footer class=\"container py-4 small text-muted\">\n<p>&copy; ";

/// From the copyright year to the page-specific end of `<body>`.
pub const PAGE_FOOTER_END: &'static str = " Pelorus Marine</p>\n<p>Source code is licensed under the MIT License or the Apache 2.0 License, at your option. The Pelorus name, word mark and image assets are proprietary to Pelorus Marine; all rights reserved.</p>\n</footer>\n";

/// End of every page.
pub const PAGE_END: &'static str = "</body>\n</html>\n";

/// Title of the home page.
pub const INDEX_TITLE: &'static str = "Pelorus";

/// What the home page adds to `<head>`: the dial's stylesheet.
pub const INDEX_HEAD: &'static str = "<link rel=\"stylesheet\" href=\"/static/css/pelorus-dial.css\">\n";

/// Main content of the home page.
pub const INDEX_MAIN: &'static str = "<section class=\"text-center\">\n<div id=\"pelorus-dial-root\" class=\"pelorus-dial\" aria-hidden=\"true\"></div>\n<h1 class=\"display-4\">Pelorus</h1>\n<p class=\"lead\">By sailors, for sailors.</p>\n</section>\n";

/// What the home page adds at the end of `<body>`: the dial's script.
pub const INDEX_SCRIPTS: &'static str = "<script src=\"/static/js/pelorus-dial.js\" defer></script>\n";

/// Title of the not-found page.
pub const NOT_FOUND_TITLE: &'static str = "Page not found — Pelorus";

/// Main content of the not-found page.
pub const NOT_FOUND_MAIN: &'static str = "<section class=\"text-center\">\n<h1>Oops</h1>\n<p>We could not find the page you were looking for.</p>\n<p><a class=\"btn btn-primary\" href=\"/\">Back to home</a></p>\n</section>\n";

/// Title of the internal-error page.
pub const INTERNAL_ERROR_TITLE: &'static str = "Something went wrong — Pelorus";

/// Main content of the internal-error page.
pub const INTERNAL_ERROR_MAIN: &'static str = "<section class=\"text-center\">\n<h1>Oops</h1>\n<p>Something went wrong on our side. Please try again later.</p>\n<p><a class=\"btn btn-primary\" href=\"/\">Back to home</a></p>\n</section>\n";

/// What follows a document page's own title in `<title>`.
pub const DOC_TITLE_SUFFIX: &'static str = " — Pelorus";

/// Start of a document page's main content, up to its heading.
pub const DOC_MAIN_START: &'static str = "<article class=\"architecture-doc\">\n<h1>";

/// From a document page's heading to its GitHub link target.
pub const DOC_MAIN_SOURCE: &'static str = "</h1>\n<p class=\"text-muted\">From <a href=\"";

/// From the GitHub link target to its text.
pub const DOC_MAIN_SOURCE_TEXT: &'static str = "\">";

/// From the GitHub link text to the raw document link target.
pub const DOC_MAIN_RAW: &'static str = "</a> (<a href=\"";

/// From the raw document link target to the rendered document.
pub const DOC_MAIN_BODY: &'static str = "\">ARCHITECTURE.md</a>)</p>\n<div class=\"architecture-body\">\n";

/// End of a document page's main content.
pub const DOC_MAIN_END: &'static str = "</div>\n</article>\n";

/// Start of the unavailable page's main content, up to its heading.
pub const UNAVAILABLE_MAIN_START: &'static str = "<section>\n<h1>";

/// From the unavailable page's heading to its GitHub link target.
pub const UNAVAILABLE_MAIN_SOURCE: &'static str = "</h1>\n<p class=\"lead\">Temporarily unavailable</p>\n<p>The architecture document could not be loaded just now. Read it on <a href=\"";

/// From the GitHub link target to its text.
pub const UNAVAILABLE_MAIN_SOURCE_TEXT: &'static str = "\">";

/// From the GitHub link text to the raw document link target.
pub const UNAVAILABLE_MAIN_RAW: &'static str = "</a>, or fetch <a href=\"";

/// From the raw document link target to its text.
pub const UNAVAILABLE_MAIN_RAW_TEXT: &'static str = "\">";

/// End of the unavailable page's main content.
pub const UNAVAILABLE_MAIN_END: &'static str = "</a> directly.</p>\n</section>\n";

// ---------------------------------------------------------------------------
// Pages
// ---------------------------------------------------------------------------

/// The class of each navigation link: `active` on the link of the page shown.
#[derive(Clone, Copy, Debug)]
pub struct NavClasses {
    pub specifications: &'static str,
    pub ecdis: &'static str,
    pub platform: &'static str,
}

impl NavClasses {
    /// The classes of the specifications, ECDIS and platform links.
    pub open spec fn classes(self) -> (Seq<char>, Seq<char>, Seq<char>) {
        (self.specifications@, self.ecdis@, self.platform@)
    }
}

/// No class on any navigation link.
pub open spec fn unmarked_nav() -> (Seq<char>, Seq<char>, Seq<char>) {
    (Seq::empty(), Seq::empty(), Seq::empty())
}

/// No navigation link marked.
pub fn no_active_nav() -> (nav: NavClasses)
    ensures
        nav.classes() == unmarked_nav(),
{
    proof {
        reveal_strlit("");
    }
    let nav = NavClasses { specifications: "", ecdis: "", platform: "" };
    assert(nav.classes() =~= unmarked_nav());
    nav
}

/// The page frame shared by every page: `title_html` is the (already escaped)
/// text of `<title>`, `head_extra` and `body_extra` go at the end of `<head>`
/// and `<body>`, `main_html` into `<main>`.
pub open spec fn layout(
    title_html: Seq<char>,
    nav: (Seq<char>, Seq<char>, Seq<char>),
    head_extra: Seq<char>,
    main_html: Seq<char>,
    body_extra: Seq<char>,
    year: i32,
) -> Seq<char> {
    PAGE_START@ + title_html + PAGE_AFTER_TITLE@ + head_extra + PAGE_NAV_START@ + html_escaped(nav.0)
        + PAGE_NAV_ECDIS@ + html_escaped(nav.1) + PAGE_NAV_PLATFORM@ + html_escaped(nav.2)
        + PAGE_NAV_END@ + main_html + PAGE_FOOTER_START@ + signed_decimal(year as int)
        + PAGE_FOOTER_END@ + body_extra + PAGE_END@
}

/// Fills in the page frame (see [`layout`]).
fn render_layout(
    title_html: &str,
    nav: &NavClasses,
    head_extra: &str,
    main_html: &str,
    body_extra: &str,
    year: i32,
) -> (page: String)
    ensures
        page@ == layout(title_html@, nav.classes(), head_extra@, main_html@, body_extra@, year),
{
    let mut out = String::new();
    out.append(PAGE_START);
    out.append(title_html);
    out.append(PAGE_AFTER_TITLE);
    out.append(head_extra);
    out.append(PAGE_NAV_START);
    push_escaped(&mut out, nav.specifications);
    out.append(PAGE_NAV_ECDIS);
    push_escaped(&mut out, nav.ecdis);
    out.append(PAGE_NAV_PLATFORM);
    push_escaped(&mut out, nav.platform);
    out.append(PAGE_NAV_END);
    out.append(main_html);
    out.append(PAGE_FOOTER_START);
    push_i32(&mut out, year);
    out.append(PAGE_FOOTER_END);
    out.append(body_extra);
    out.append(PAGE_END);
    assert(out@ =~= layout(title_html@, nav.classes(), head_extra@, main_html@, body_extra@, year));
    out
}

/// The home page: no navigation link marked, the dial's stylesheet and
/// script, the tagline.
pub open spec fn index_page() -> Seq<char> {
    layout(INDEX_TITLE@, unmarked_nav(), INDEX_HEAD@, INDEX_MAIN@, INDEX_SCRIPTS@, COPYRIGHT_START_YEAR)
}

/// The not-found page.
pub open spec fn not_found_page() -> Seq<char> {
    layout(NOT_FOUND_TITLE@, unmarked_nav(), Seq::empty(), NOT_FOUND_MAIN@, Seq::empty(), COPYRIGHT_START_YEAR)
}

/// The internal-error page.
pub open spec fn internal_error_page() -> Seq<char> {
    layout(INTERNAL_ERROR_TITLE@, unmarked_nav(), Seq::empty(), INTERNAL_ERROR_MAIN@, Seq::empty(), COPYRIGHT_START_YEAR)
}

/// Renders the home page HTML.
pub fn render_index_html() -> (r: Result<String, RenderError>)
    ensures
        r matches Ok(page) && page@ == index_page(),
{
    let nav = no_active_nav();
    Ok(render_layout(INDEX_TITLE, &nav, INDEX_HEAD, INDEX_MAIN, INDEX_SCRIPTS, COPYRIGHT_START_YEAR))
}

/// Renders the not-found page HTML.
pub fn render_not_found_html() -> (r: Result<String, RenderError>)
    ensures
        r matches Ok(page) && page@ == not_found_page(),
{
    proof {
        reveal_strlit("");
    }
    let nav = no_active_nav();
    Ok(render_layout(NOT_FOUND_TITLE, &nav, "", NOT_FOUND_MAIN, "", COPYRIGHT_START_YEAR))
}

/// Renders the internal-error page HTML.
pub fn render_internal_server_error_html() -> (r: Result<String, RenderError>)
    ensures
        r matches Ok(page) && page@ == internal_error_page(),
{
    proof {
        reveal_strlit("");
    }
    let nav = no_active_nav();
    Ok(render_layout(INTERNAL_ERROR_TITLE, &nav, "", INTERNAL_ERROR_MAIN, "", COPYRIGHT_START_YEAR))
}

/// `<title>` of a document page: its escaped title and the site's name.
pub open spec fn doc_title(page_title: Seq<char>) -> Seq<char> {
    html_escaped(page_title) + DOC_TITLE_SUFFIX@
}

/// A page showing a rendered architecture document `body_html` (inserted as
/// it is), with links to the repository on GitHub and to the raw document.
pub open spec fn doc_gateway_page(
    page_title: Seq<char>,
    github_url: Seq<char>,
    architecture_md_url: Seq<char>,
    nav: (Seq<char>, Seq<char>, Seq<char>),
    body_html: Seq<char>,
) -> Seq<char> {
    layout(
        doc_title(page_title),
        nav,
        Seq::empty(),
        DOC_MAIN_START@ + html_escaped(page_title) + DOC_MAIN_SOURCE@ + html_escaped(github_url)
            + DOC_MAIN_SOURCE_TEXT@ + html_escaped(github_url) + DOC_MAIN_RAW@ + html_escaped(
            architecture_md_url,
        ) + DOC_MAIN_BODY@ + body_html + DOC_MAIN_END@,
        Seq::empty(),
        COPYRIGHT_START_YEAR,
    )
}

/// The page shown in place of an architecture document that could not be
/// loaded: it says so and links to the repository and the raw document.
pub open spec fn unavailable_page(
    page_title: Seq<char>,
    github_url: Seq<char>,
    architecture_md_url: Seq<char>,
    nav: (Seq<char>, Seq<char>, Seq<char>),
) -> Seq<char> {
    layout(
        doc_title(page_title),
        nav,
        Seq::empty(),
        UNAVAILABLE_MAIN_START@ + html_escaped(page_title) + UNAVAILABLE_MAIN_SOURCE@
            + html_escaped(github_url) + UNAVAILABLE_MAIN_SOURCE_TEXT@ + html_escaped(github_url)
            + UNAVAILABLE_MAIN_RAW@ + html_escaped(architecture_md_url)
            + UNAVAILABLE_MAIN_RAW_TEXT@ + html_escaped(architecture_md_url)
            + UNAVAILABLE_MAIN_END@,
        Seq::empty(),
        COPYRIGHT_START_YEAR,
    )
}

/// `<title>` of a document page.
fn render_doc_title(page_title: &str) -> (t: String)
    ensures
        t@ == doc_title(page_title@),
{
    let mut t = String::new();
    push_escaped(&mut t, page_title);
    t.append(DOC_TITLE_SUFFIX);
    assert(t@ =~= doc_title(page_title@));
    t
}

/// Renders a page showing a rendered architecture document.
pub fn render_doc_gateway_html(
    page_title: &str,
    github_url: &str,
    architecture_md_url: &str,
    nav: &NavClasses,
    body_html: &str,
) -> (r: Result<String, RenderError>)
    ensures
        r matches Ok(page) && page@ == doc_gateway_page(
            page_title@,
            github_url@,
            architecture_md_url@,
            nav.classes(),
            body_html@,
        ),
{
    proof {
        reveal_strlit("");
    }
    let title = render_doc_title(page_title);
    let mut main_html = String::new();
    main_html.append(DOC_MAIN_START);
    push_escaped(&mut main_html, page_title);
    main_html.append(DOC_MAIN_SOURCE);
    push_escaped(&mut main_html, github_url);
    main_html.append(DOC_MAIN_SOURCE_TEXT);
    push_escaped(&mut main_html, github_url);
    main_html.append(DOC_MAIN_RAW);
    push_escaped(&mut main_html, architecture_md_url);
    main_html.append(DOC_MAIN_BODY);
    main_html.append(body_html);
    main_html.append(DOC_MAIN_END);
    let page = render_layout(title.as_str(), nav, "", main_html.as_str(), "", COPYRIGHT_START_YEAR);
    assert(page@ =~= doc_gateway_page(
        page_title@,
        github_url@,
        architecture_md_url@,
        nav.classes(),
        body_html@,
    ));
    Ok(page)
}

/// Renders the page shown when an architecture document is temporarily
/// unavailable.
pub fn render_unavailable_html(
    page_title: &str,
    github_url: &str,
    architecture_md_url: &str,
    nav: &NavClasses,
) -> (r: Result<String, RenderError>)
    ensures
        r matches Ok(page) && page@ == unavailable_page(
            page_title@,
            github_url@,
            architecture_md_url@,
            nav.classes(),
        ),
{
    proof {
        reveal_strlit("");
    }
    let title = render_doc_title(page_title);
    let mut main_html = String::new();
    main_html.append(UNAVAILABLE_MAIN_START);
    push_escaped(&mut main_html, page_title);
    main_html.append(UNAVAILABLE_MAIN_SOURCE);
    push_escaped(&mut main_html, github_url);
    main_html.append(UNAVAILABLE_MAIN_SOURCE_TEXT);
    push_escaped(&mut main_html, github_url);
    main_html.append(UNAVAILABLE_MAIN_RAW);
    push_escaped(&mut main_html, architecture_md_url);
    main_html.append(UNAVAILABLE_MAIN_RAW_TEXT);
    push_escaped(&mut main_html, architecture_md_url);
    main_html.append(UNAVAILABLE_MAIN_END);
    let page = render_layout(title.as_str(), nav, "", main_html.as_str(), "", COPYRIGHT_START_YEAR);
    assert(page@ =~= unavailable_page(
        page_title@,
        github_url@,
        architecture_md_url@,
        nav.classes(),
    ));
    Ok(page)
}

} // verus!
