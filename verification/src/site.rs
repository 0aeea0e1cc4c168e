//! Request routing, the architecture pages' settings and responses, and the
//! server's configuration values (document URLs, git ref, listen port).

use vstd::prelude::*;
use crate::cache::{ArchitectureDocSlot, ResolveMarkdownError};
use crate::links::{
    architecture_markdown_to_html, cmark_event_destinations, cmark_html, rewritten_event_destinations,
    ArchitectureGithubRepo, ARCHITECTURE_MARKDOWN_OPTIONS, ECDIS_REPO_WEB, PLATFORM_REPO_WEB,
    SPECS_REPO_WEB,
};
use crate::pages::{
    decimal, digit_char, doc_gateway_page, internal_error_page, not_found_page,
    render_doc_gateway_html, render_internal_server_error_html, render_not_found_html,
    render_unavailable_html, unavailable_page, NavClasses, RenderError,
};
use crate::text::chars_of;

verus! {

// ---------------------------------------------------------------------------
// Routing
// ---------------------------------------------------------------------------

/// What a `GET` request's path is answered with, before static files are
/// looked up.
#[derive(Clone, Copy, Debug, PartialEq, Eq, Structural)]
pub enum Route {
    /// The home page (`/`, and `/pelorus`).
    Index,
    /// A permanent redirect from `/specifications` to `/specifications/`.
    SpecificationsRedirect,
    /// The page of an architecture document.
    Architecture(ArchitectureDocSlot),
    /// None of the pages: static files, the favicon, or not found.
    Unmatched,
}

/// The path without its leading slash, which is where segment matching
/// starts.
pub open spec fn path_rest(path: Seq<char>) -> Seq<char> {
    if path.len() > 0 && path[0] == '/' {
        path.drop_first()
    } else {
        path
    }
}

/// Whether the path (without its leading slash) is exactly the segment
/// `name`, optionally followed by one slash.
pub open spec fn is_single_segment(rest: Seq<char>, name: Seq<char>) -> bool {
    rest == name || rest == name.push('/')
}

/// The route of a `GET` request path.
pub open spec fn route_of(path: Seq<char>) -> Route {
    let rest = path_rest(path);
    if rest.len() == 0 || is_single_segment(rest, "pelorus"@) {
        Route::Index
    } else if path == "/specifications"@ {
        Route::SpecificationsRedirect
    } else if path == "/specifications/"@ {
        Route::Architecture(ArchitectureDocSlot::Specifications)
    } else if is_single_segment(rest, "ecdis"@) {
        Route::Architecture(ArchitectureDocSlot::Ecdis)
    } else if is_single_segment(rest, "platform"@) {
        Route::Architecture(ArchitectureDocSlot::Platform)
    } else {
        Route::Unmatched
    }
}

/// Whether `v[lo..]` equals `w`.
fn tail_equals(v: &Vec<char>, lo: usize, w: &Vec<char>) -> (res: bool)
    requires
        lo <= v@.len(),
    ensures
        res == (v@.subrange(lo as int, v@.len() as int) == w@),
{
    let ghost s = v@.subrange(lo as int, v@.len() as int);
    if v.len() - lo != w.len() {
        return false;
    }
    let mut i: usize = 0;
    while i < w.len()
        invariant
            lo + w@.len() == v@.len(),
            v@.len() <= usize::MAX,
            lo <= v@.len(),
            s == v@.subrange(lo as int, v@.len() as int),
            i <= w@.len(),
            forall|j: int| 0 <= j < i ==> s[j] == w@[j],
        decreases w@.len() - i,
    {
        if v[lo + i] != w[i] {
            assert(s[i as int] != w@[i as int]);
            return false;
        }
        i = i + 1;
    }
    assert(s =~= w@);
    true
}

/// Whether `v[lo..]` is the segment `name`, optionally followed by a slash.
fn tail_is_single_segment(v: &Vec<char>, lo: usize, name: &Vec<char>) -> (res: bool)
    requires
        lo <= v@.len(),
    ensures
        res == is_single_segment(v@.subrange(lo as int, v@.len() as int), name@),
{
    let ghost s = v@.subrange(lo as int, v@.len() as int);
    if tail_equals(v, lo, name) {
        return true;
    }
    let mut with_slash = name.clone();
    with_slash.push('/');
    assert(with_slash@ =~= name@.push('/'));
    tail_equals(v, lo, &with_slash)
}

/// Routes a `GET` request by its path, as the site's filters match it: `/`
/// and `/pelorus` are the home page; `/specifications` redirects to
/// `/specifications/`, the specifications page; `/ecdis` and `/platform` are
/// their pages (each also with one trailing slash).
pub fn route(path: &str) -> (r: Route)
    ensures
        r == route_of(path@),
{
    let v = chars_of(path);
    let lo: usize = if v.len() > 0 && v[0] == '/' {
        1
    } else {
        0
    };
    proof {
        assert(v@.subrange(0, v@.len() as int) =~= v@);
        assert(v@.drop_first() =~= v@.subrange(1, v@.len() as int));
    }
    assert(v@.subrange(lo as int, v@.len() as int) == path_rest(path@));
    if lo == v.len() || tail_is_single_segment(&v, lo, &chars_of("pelorus")) {
        Route::Index
    } else if tail_equals(&v, 0, &chars_of("/specifications")) {
        Route::SpecificationsRedirect
    } else if tail_equals(&v, 0, &chars_of("/specifications/")) {
        Route::Architecture(ArchitectureDocSlot::Specifications)
    } else if tail_is_single_segment(&v, lo, &chars_of("ecdis")) {
        Route::Architecture(ArchitectureDocSlot::Ecdis)
    } else if tail_is_single_segment(&v, lo, &chars_of("platform")) {
        Route::Architecture(ArchitectureDocSlot::Platform)
    } else {
        Route::Unmatched
    }
}

// ---------------------------------------------------------------------------
// Architecture pages
// ---------------------------------------------------------------------------

/// The settings of an architecture page.
#[derive(Clone, Copy, Debug)]
pub struct GatewayPage {
    pub slot: ArchitectureDocSlot,
    pub page_title: &'static str,
    pub github_url: &'static str,
    pub nav: NavClasses,
}

/// The page title of a slot's page.
pub open spec fn page_title_of(slot: ArchitectureDocSlot) -> Seq<char> {
    match slot {
        ArchitectureDocSlot::Specifications => "Specifications"@,
        ArchitectureDocSlot::Ecdis => "ECDIS"@,
        ArchitectureDocSlot::Platform => "Platform"@,
    }
}

/// The repository whose document a slot shows.
pub open spec fn repo_of(slot: ArchitectureDocSlot) -> ArchitectureGithubRepo {
    match slot {
        ArchitectureDocSlot::Specifications => ArchitectureGithubRepo::Specifications,
        ArchitectureDocSlot::Ecdis => ArchitectureGithubRepo::Ecdis,
        ArchitectureDocSlot::Platform => ArchitectureGithubRepo::Platform,
    }
}

/// The navigation classes of a slot's page: its own link is `active`.
pub open spec fn nav_of(slot: ArchitectureDocSlot) -> (Seq<char>, Seq<char>, Seq<char>) {
    match slot {
        ArchitectureDocSlot::Specifications => ("active"@, Seq::empty(), Seq::empty()),
        ArchitectureDocSlot::Ecdis => (Seq::empty(), "active"@, Seq::empty()),
        ArchitectureDocSlot::Platform => (Seq::empty(), Seq::empty(), "active"@),
    }
}

/// The organisation's GitHub web base, under which each repository lies.
pub open spec fn organisation_web_base() -> Seq<char> {
    "https://github.com/pelorus-marine/"@
}

/// Each page shows the repository of its own name: the repository's web base
/// is the organisation's base followed by the slot's key.
pub proof fn law_page_repository_matches_its_slot(slot: ArchitectureDocSlot)
    ensures
        repo_of(slot).web_base_spec() == organisation_web_base() + slot.key_spec(),
{
    reveal_strlit("https://github.com/pelorus-marine/");
    reveal_strlit("https://github.com/pelorus-marine/specifications");
    reveal_strlit("https://github.com/pelorus-marine/ecdis");
    reveal_strlit("https://github.com/pelorus-marine/platform");
    reveal_strlit("specifications");
    reveal_strlit("ecdis");
    reveal_strlit("platform");
    assert(repo_of(slot).web_base_spec() =~= organisation_web_base() + slot.key_spec());
}

/// The repository whose document a slot shows.
pub fn repo_for_slot(slot: ArchitectureDocSlot) -> (repo: ArchitectureGithubRepo)
    ensures
        repo == repo_of(slot),
{
    match slot {
        ArchitectureDocSlot::Specifications => ArchitectureGithubRepo::Specifications,
        ArchitectureDocSlot::Ecdis => ArchitectureGithubRepo::Ecdis,
        ArchitectureDocSlot::Platform => ArchitectureGithubRepo::Platform,
    }
}

/// The settings of a slot's page: its title, its repository's GitHub URL and
/// its own navigation link marked active.
pub fn gateway_page(slot: ArchitectureDocSlot) -> (p: GatewayPage)
    ensures
        p.slot == slot,
        p.page_title@ == page_title_of(slot),
        p.github_url@ == repo_of(slot).web_base_spec(),
        p.github_url@ == organisation_web_base() + slot.key_spec(),
        p.nav.classes() == nav_of(slot),
{
    proof {
        reveal_strlit("");
        law_page_repository_matches_its_slot(slot);
    }
    let p = match slot {
        ArchitectureDocSlot::Specifications => GatewayPage {
            slot,
            page_title: "Specifications",
            github_url: SPECS_REPO_WEB,
            nav: NavClasses { specifications: "active", ecdis: "", platform: "" },
        },
        ArchitectureDocSlot::Ecdis => GatewayPage {
            slot,
            page_title: "ECDIS",
            github_url: ECDIS_REPO_WEB,
            nav: NavClasses { specifications: "", ecdis: "active", platform: "" },
        },
        ArchitectureDocSlot::Platform => GatewayPage {
            slot,
            page_title: "Platform",
            github_url: PLATFORM_REPO_WEB,
            nav: NavClasses { specifications: "", ecdis: "", platform: "active" },
        },
    };
    assert(p.nav.classes() =~= nav_of(slot));
    p
}

/// An HTML response: its status code and body.
pub struct PageResponse {
    pub status: u16,
    pub body: String,
}

/// The HTML a document renders to on a slot's page.
pub open spec fn rendered_document(slot: ArchitectureDocSlot, md: Seq<char>, github_ref: Seq<char>) -> Seq<char> {
    cmark_html(
        md,
        ARCHITECTURE_MARKDOWN_OPTIONS,
        rewritten_event_destinations(
            cmark_event_destinations(md, ARCHITECTURE_MARKDOWN_OPTIONS),
            repo_of(slot).web_base_spec(),
            github_ref,
        ),
    )
}

/// The response of an architecture page once its document has been
/// resolved: the rendered document (200), or the temporarily-unavailable
/// page (503) when there is none.
pub fn render_architecture_gateway(
    page: &GatewayPage,
    architecture_md_url: &str,
    github_ref: &str,
    resolved: Result<String, ResolveMarkdownError>,
) -> (r: Result<PageResponse, RenderError>)
    ensures
        match resolved {
            Ok(md) => r matches Ok(resp) && resp.status == 200 && resp.body@ == doc_gateway_page(
                page.page_title@,
                page.github_url@,
                architecture_md_url@,
                page.nav.classes(),
                rendered_document(page.slot, md@, github_ref@),
            ),
            Err(_) => r matches Ok(resp) && resp.status == 503 && resp.body@ == unavailable_page(
                page.page_title@,
                page.github_url@,
                architecture_md_url@,
                page.nav.classes(),
            ),
        },
{
    match resolved {
        Ok(md) => {
            let repo = repo_for_slot(page.slot);
            let body_html = architecture_markdown_to_html(md.as_str(), repo, github_ref);
            match render_doc_gateway_html(
                page.page_title,
                page.github_url,
                architecture_md_url,
                &page.nav,
                body_html.as_str(),
            ) {
                Ok(html) => Ok(PageResponse { status: 200, body: html }),
                Err(e) => Err(e),
            }
        },
        Err(_) => {
            match render_unavailable_html(
                page.page_title,
                page.github_url,
                architecture_md_url,
                &page.nav,
            ) {
                Ok(html) => Ok(PageResponse { status: 503, body: html }),
                Err(e) => Err(e),
            }
        },
    }
}

/// The response to a request that no route accepted: the not-found page
/// (404) when nothing matched, the internal-error page (500) otherwise.
pub fn rejection_response(not_found: bool) -> (resp: PageResponse)
    ensures
        not_found ==> resp.status == 404 && resp.body@ == not_found_page(),
        !not_found ==> resp.status == 500 && resp.body@ == internal_error_page(),
{
    if not_found {
        match render_not_found_html() {
            Ok(body) => PageResponse { status: 404, body },
            Err(_) => PageResponse { status: 404, body: String::from_str("<p>Not found</p>") },
        }
    } else {
        match render_internal_server_error_html() {
            Ok(html) => PageResponse { status: 500, body: html },
            Err(_) => PageResponse {
                status: 500,
                body: String::from_str(
                    "<!DOCTYPE html><title>Error</title><p>Internal Server Error</p>",
                ),
            },
        }
    }
}

// ---------------------------------------------------------------------------
// Configuration values
// ---------------------------------------------------------------------------

/// The git ref used when none is configured.
pub const DEFAULT_GITHUB_REF: &'static str = "main";

/// Where raw files of the organisation's repositories are served from.
pub const RAW_GITHUB_BASE: &'static str = "https://raw.githubusercontent.com/pelorus-marine/";

/// The name of the raw document under a repository and ref.
pub const ARCHITECTURE_FILE_PATH: &'static str = "/ARCHITECTURE.md";

/// The git ref to read documents from: the configured one, else `main`.
pub fn github_ref_or_default(configured: Option<String>) -> (r: String)
    ensures
        r@ == match configured {
            Some(s) => s@,
            None => DEFAULT_GITHUB_REF@,
        },
{
    match configured {
        Some(s) => s,
        None => String::from_str(DEFAULT_GITHUB_REF),
    }
}

/// The environment variable that overrides the URL of a slot's document.
pub fn architecture_url_env_var(slot: ArchitectureDocSlot) -> (name: &'static str)
    ensures
        name@ == match slot {
            ArchitectureDocSlot::Specifications => "PELOURS_SPECIFICATIONS_ARCHITECTURE_URL"@,
            ArchitectureDocSlot::Ecdis => "PELOURS_ECDIS_ARCHITECTURE_URL"@,
            ArchitectureDocSlot::Platform => "PELOURS_PLATFORM_ARCHITECTURE_URL"@,
        },
{
    match slot {
        ArchitectureDocSlot::Specifications => "PELOURS_SPECIFICATIONS_ARCHITECTURE_URL",
        ArchitectureDocSlot::Ecdis => "PELOURS_ECDIS_ARCHITECTURE_URL",
        ArchitectureDocSlot::Platform => "PELOURS_PLATFORM_ARCHITECTURE_URL",
    }
}

/// The raw URL of a slot's `ARCHITECTURE.md` in the repository of the same
/// name, on `github_ref`.
pub open spec fn default_architecture_md_url(slot: ArchitectureDocSlot, github_ref: Seq<char>) -> Seq<char> {
    RAW_GITHUB_BASE@ + slot.key_spec() + seq!['/'] + github_ref + ARCHITECTURE_FILE_PATH@
}

/// With no configured URL, a slot's document is fetched from
/// `https://raw.githubusercontent.com/pelorus-marine/<key>/<ref>/ARCHITECTURE.md`,
/// so different refs (or different slots) give different URLs, and the ref
/// can be read back from the URL.
pub proof fn law_default_url_names_repository_and_ref(
    slot: ArchitectureDocSlot,
    github_ref: Seq<char>,
    other_ref: Seq<char>,
)
    ensures
        default_architecture_md_url(slot, github_ref) == "https://raw.githubusercontent.com/pelorus-marine/"@
            + slot.key_spec() + "/"@ + github_ref + "/ARCHITECTURE.md"@,
        default_architecture_md_url(slot, github_ref) == default_architecture_md_url(slot, other_ref)
            ==> github_ref == other_ref,
{
    reveal_strlit("https://raw.githubusercontent.com/pelorus-marine/");
    reveal_strlit("/");
    reveal_strlit("/ARCHITECTURE.md");
    let p = RAW_GITHUB_BASE@ + slot.key_spec() + seq!['/'];
    let u1 = default_architecture_md_url(slot, github_ref);
    let u2 = default_architecture_md_url(slot, other_ref);
    assert(u1 =~= "https://raw.githubusercontent.com/pelorus-marine/"@ + slot.key_spec() + "/"@
        + github_ref + "/ARCHITECTURE.md"@);
    if u1 == u2 {
        assert(u1 =~= p + github_ref + ARCHITECTURE_FILE_PATH@);
        assert(u2 =~= p + other_ref + ARCHITECTURE_FILE_PATH@);
        assert(github_ref.len() == other_ref.len());
        assert(u1.subrange(p.len() as int, p.len() + github_ref.len() as int) =~= github_ref);
        assert(u2.subrange(p.len() as int, p.len() + other_ref.len() as int) =~= other_ref);
    }
}

/// The URL a slot's document is fetched from: the configured one, else the
/// raw GitHub URL of the repository's `ARCHITECTURE.md` on `github_ref`.
pub fn architecture_md_url(slot: ArchitectureDocSlot, configured: Option<String>, github_ref: &str) -> (url: String)
    ensures
        url@ == match configured {
            Some(u) => u@,
            None => default_architecture_md_url(slot, github_ref@),
        },
{
    match configured {
        Some(u) => u,
        None => {
            let mut url = String::from_str(RAW_GITHUB_BASE);
            url.append(slot.key());
            crate::text::push_char(&mut url, '/');
            url.append(github_ref);
            url.append(ARCHITECTURE_FILE_PATH);
            assert(url@ =~= default_architecture_md_url(slot, github_ref@));
            url
        },
    }
}

/// The port listened on when none (or no valid one) is configured.
pub const DEFAULT_PORT: u16 = 8080;

/// Whether `c` is an ASCII decimal digit.
pub open spec fn is_digit(c: char) -> bool {
    '0' <= c <= '9'
}

/// The number that a string of decimal digits writes.
pub open spec fn digits_value(s: Seq<char>) -> nat
    decreases s.len(),
{
    if s.len() == 0 {
        0
    } else {
        digits_value(s.drop_last()) * 10 + ((s.last() as u32) - ('0' as u32)) as nat
    }
}

/// `s` without one leading `+`.
pub open spec fn unsigned_digits(s: Seq<char>) -> Seq<char> {
    if s.len() > 0 && s[0] == '+' {
        s.drop_first()
    } else {
        s
    }
}

/// Whether every character of `d` is a decimal digit.
pub open spec fn all_digits(d: Seq<char>) -> bool {
    forall|i: int| 0 <= i < d.len() ==> is_digit(#[trigger] d[i])
}

/// What `u16::from_str` gives for `s`: an optional `+`, then at least one
/// decimal digit and nothing else, for a value that fits in 16 bits.
pub open spec fn parsed_u16(s: Seq<char>) -> Option<u16> {
    let d = unsigned_digits(s);
    if d.len() > 0 && all_digits(d) && digits_value(d) <= u16::MAX {
        Some(digits_value(d) as u16)
    } else {
        None
    }
}

/// Parses a port number as `u16::from_str` does.
pub fn parse_port(s: &str) -> (r: Option<u16>)
    ensures
        r == parsed_u16(s@),
{
    let v = chars_of(s);
    let start: usize = if v.len() > 0 && v[0] == '+' {
        1
    } else {
        0
    };
    let ghost d = v@.subrange(start as int, v@.len() as int);
    proof {
        if start == 1 {
            assert(v@.drop_first() =~= v@.subrange(1, v@.len() as int));
        } else {
            assert(v@.subrange(0, v@.len() as int) =~= v@);
        }
    }
    assert(d == unsigned_digits(s@));
    if start == v.len() {
        return None;
    }
    let mut value: u32 = 0;
    let mut too_big = false;
    let mut i = start;
    while i < v.len()
        invariant
            start <= i <= v@.len(),
            v@ == s@,
            d == v@.subrange(start as int, v@.len() as int),
            d == unsigned_digits(s@),
            forall|j: int| start <= j < i ==> is_digit(#[trigger] v@[j]),
            too_big <==> digits_value(v@.subrange(start as int, i as int)) > u16::MAX,
            !too_big ==> value == digits_value(v@.subrange(start as int, i as int)),
        decreases v@.len() - i,
    {
        let c = v[i];
        if !('0' <= c && c <= '9') {
            assert(d[i - start] == c);
            assert(!is_digit(d[i - start]));
            assert(!all_digits(d));
            return None;
        }
        let ghost prev = v@.subrange(start as int, i as int);
        assert(v@.subrange(start as int, i + 1).drop_last() =~= prev);
        if !too_big {
            value = value * 10 + (c as u32 - '0' as u32);
            if value > 65535 {
                too_big = true;
            }
        }
        i = i + 1;
    }
    assert(v@.subrange(start as int, v@.len() as int) == d);
    assert(all_digits(d)) by {
        assert forall|j: int| 0 <= j < d.len() implies is_digit(#[trigger] d[j]) by {
            assert(d[j] == v@[start + j]);
        }
    }
    if too_big {
        None
    } else {
        Some(value as u16)
    }
}

/// The value of the digit written for `d < 10` is `d`.
proof fn lemma_digit_value(d: nat)
    requires
        d < 10,
    ensures
        is_digit(digit_char(d)),
        (digit_char(d) as u32) - ('0' as u32) == d,
{
    assert('0' as u32 == 48 && '1' as u32 == 49 && '2' as u32 == 50 && '3' as u32 == 51 && '4' as u32
        == 52 && '5' as u32 == 53 && '6' as u32 == 54 && '7' as u32 == 55 && '8' as u32 == 56 && '9'
        as u32 == 57);
}

/// Decimal text is digits only, starts with no `+`, and reads back as the
/// number it was written from.
proof fn lemma_decimal_reads_back(n: nat)
    ensures
        decimal(n).len() > 0,
        all_digits(decimal(n)),
        decimal(n)[0] != '+',
        digits_value(decimal(n)) == n,
    decreases n,
{
    lemma_digit_value(n % 10);
    if n < 10 {
        lemma_digit_value(n);
        assert(decimal(n).drop_last() =~= Seq::<char>::empty());
        assert(digits_value(Seq::<char>::empty()) == 0);
    } else {
        lemma_decimal_reads_back(n / 10);
        let p = decimal(n / 10);
        assert(decimal(n).drop_last() =~= p);
        assert(decimal(n).last() == digit_char(n % 10));
        assert(digits_value(decimal(n)) == digits_value(p) * 10 + n % 10);
        assert((n / 10) * 10 + n % 10 == n);
        assert forall|i: int| 0 <= i < decimal(n).len() implies is_digit(#[trigger] decimal(n)[i]) by {
            if i < p.len() {
                assert(decimal(n)[i] == p[i]);
            }
        }
    }
}

/// A port written in decimal parses back to the same port, so a listen port
/// configured as the text of a port number is that port.
pub proof fn law_port_text_round_trip(port: u16)
    ensures
        parsed_u16(decimal(port as nat)) == Some(port),
{
    lemma_decimal_reads_back(port as nat);
}

/// The port to listen on: the configured one when it parses, else 8080.
pub fn listen_port(configured: Option<String>) -> (port: u16)
    ensures
        port == match configured {
            Some(s) => match parsed_u16(s@) {
                Some(p) => p,
                None => DEFAULT_PORT,
            },
            None => DEFAULT_PORT,
        },
{
    match configured {
        Some(s) => match parse_port(s.as_str()) {
            Some(p) => p,
            None => DEFAULT_PORT,
        },
        None => DEFAULT_PORT,
    }
}

} // verus!
