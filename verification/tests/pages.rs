use website::pages::{
    no_active_nav, push_escaped, push_i32, render_doc_gateway_html, render_index_html,
    render_internal_server_error_html, render_not_found_html, render_unavailable_html,
    NavClasses, COPYRIGHT_START_YEAR,
};

#[test]
fn rendered_html_contains_tagline_title_and_copyright_year() {
    let html = render_index_html().expect("template should render");
    assert!(html.contains("By sailors, for sailors."));
    assert!(html.contains("<title>Pelorus</title>"));
    assert!(html.contains("pelorus-dial-root"));
    assert!(html.contains("/static/js/pelorus-dial.js"));
    assert!(html.contains("/static/css/pelorus-dial.css"));
    assert!(html.contains("href=\"/platform\""));
    assert!(html.contains(&format!("&copy; {COPYRIGHT_START_YEAR} Pelorus Marine")));
}

#[test]
fn rendered_html_contains_license_footer_text() {
    let html = render_index_html().expect("template should render");
    assert!(html.contains("Apache 2.0"));
    assert!(html.contains("proprietary"));
}

#[test]
fn internal_error_template_renders_html() {
    let html = render_internal_server_error_html().expect("500 template");
    assert!(html.contains("Something went wrong"));
    assert!(html.contains("Oops"));
    assert!(html.contains("<title>Something went wrong — Pelorus</title>"));
}

#[test]
fn not_found_page_offers_way_home() {
    let html = render_not_found_html().expect("404 template");
    assert!(html.contains("Oops"));
    assert!(html.contains("Back to home"));
}

#[test]
fn escaping_replaces_special_characters() {
    let mut out = String::from("x");
    push_escaped(&mut out, "a<b>&\"c'");
    assert_eq!(out, "xa&lt;b&gt;&amp;&quot;c&#x27;");
    let mut plain = String::new();
    push_escaped(&mut plain, "https://raw.githubusercontent.com/pelorus-marine/ecdis/main/ARCHITECTURE.md");
    assert_eq!(plain, "https://raw.githubusercontent.com/pelorus-marine/ecdis/main/ARCHITECTURE.md");
}

#[test]
fn integers_written_in_decimal() {
    let mut out = String::new();
    push_i32(&mut out, 2026);
    push_i32(&mut out, 0);
    push_i32(&mut out, -45);
    push_i32(&mut out, i32::MIN);
    assert_eq!(out, format!("20260-45{}", i32::MIN));
}

#[test]
fn document_page_inserts_rendered_html_and_escaped_links() {
    let nav = NavClasses { specifications: "", ecdis: "active", platform: "" };
    let html = render_doc_gateway_html(
        "ECDIS",
        "https://github.com/pelorus-marine/ecdis",
        "https://raw.githubusercontent.com/pelorus-marine/ecdis/main/ARCHITECTURE.md?a=1&b=2",
        &nav,
        "<h1>Doc</h1>",
    )
    .unwrap();
    assert!(html.contains("<title>ECDIS — Pelorus</title>"));
    assert!(html.contains("<h1>Doc</h1>"));
    assert!(html.contains("github.com/pelorus-marine/ecdis"));
    assert!(html.contains("ARCHITECTURE.md?a=1&amp;b=2"));
    assert!(html.contains("nav-link active\" href=\"/ecdis\""));
}

#[test]
fn unavailable_page_says_so() {
    let html = render_unavailable_html(
        "Platform",
        "https://github.com/pelorus-marine/platform",
        "https://raw.githubusercontent.com/pelorus-marine/platform/main/ARCHITECTURE.md",
        &no_active_nav(),
    )
    .unwrap();
    assert!(html.contains("Temporarily unavailable"));
    assert!(html.contains("raw.githubusercontent.com/pelorus-marine/platform"));
    assert!(html.contains("<title>Platform — Pelorus</title>"));
}
