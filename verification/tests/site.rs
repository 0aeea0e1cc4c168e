use website::cache::{ArchitectureDocSlot, ResolveMarkdownError};
use website::site::{
    architecture_md_url, architecture_url_env_var, gateway_page, github_ref_or_default,
    listen_port, parse_port, rejection_response, render_architecture_gateway, route, Route,
    DEFAULT_PORT,
};

#[test]
fn home_and_pelorus_are_the_same_page() {
    assert_eq!(route("/"), Route::Index);
    assert_eq!(route("/pelorus"), Route::Index);
    assert_eq!(route("/pelorus/"), Route::Index);
    assert_eq!(route("/pelorus//"), Route::Unmatched);
}

#[test]
fn specifications_paths() {
    assert_eq!(route("/specifications"), Route::SpecificationsRedirect);
    assert_eq!(
        route("/specifications/"),
        Route::Architecture(ArchitectureDocSlot::Specifications)
    );
    assert_eq!(route("/specifications/x"), Route::Unmatched);
}

#[test]
fn document_pages_and_unmatched_paths() {
    assert_eq!(route("/ecdis"), Route::Architecture(ArchitectureDocSlot::Ecdis));
    assert_eq!(route("/ecdis/"), Route::Architecture(ArchitectureDocSlot::Ecdis));
    assert_eq!(route("/platform"), Route::Architecture(ArchitectureDocSlot::Platform));
    assert_eq!(route("/missing-page"), Route::Unmatched);
    assert_eq!(route("/static/js/pelorus-dial.js"), Route::Unmatched);
    assert_eq!(route("/favicon.ico"), Route::Unmatched);
    assert_eq!(route("//"), Route::Unmatched);
}

#[test]
fn rejections_map_to_error_pages() {
    let nf = rejection_response(true);
    assert_eq!(nf.status, 404);
    assert!(nf.body.contains("Oops"));
    assert!(nf.body.contains("Back to home"));
    let err = rejection_response(false);
    assert_eq!(err.status, 500);
    assert!(err.body.contains("Something went wrong"));
}

#[test]
fn gateway_renders_document_or_unavailable_page() {
    let page = gateway_page(ArchitectureDocSlot::Ecdis);
    let url = "https://raw.githubusercontent.com/pelorus-marine/ecdis/main/ARCHITECTURE.md";
    let ok = render_architecture_gateway(&page, url, "main", Ok(String::from("See [diagram](./d.png)")))
        .unwrap();
    assert_eq!(ok.status, 200);
    assert!(ok.body.contains("github.com/pelorus-marine/ecdis"));
    assert!(ok.body.contains("raw.githubusercontent.com/pelorus-marine/ecdis"));
    assert!(ok.body.contains("https://github.com/pelorus-marine/ecdis/blob/main/d.png"));
    let down = render_architecture_gateway(
        &page,
        url,
        "main",
        Err(ResolveMarkdownError::NoCacheAndUpstreamFailed),
    )
    .unwrap();
    assert_eq!(down.status, 503);
    assert!(down.body.contains("Temporarily unavailable"));
}

#[test]
fn gateway_pages_per_slot() {
    let s = gateway_page(ArchitectureDocSlot::Specifications);
    assert_eq!(s.page_title, "Specifications");
    assert_eq!(s.github_url, "https://github.com/pelorus-marine/specifications");
    assert_eq!(s.nav.specifications, "active");
    let p = gateway_page(ArchitectureDocSlot::Platform);
    assert_eq!(p.page_title, "Platform");
    assert_eq!(p.nav.platform, "active");
    assert_eq!(p.nav.ecdis, "");
}

#[test]
fn document_urls() {
    assert_eq!(
        architecture_md_url(ArchitectureDocSlot::Ecdis, None, "main"),
        "https://raw.githubusercontent.com/pelorus-marine/ecdis/main/ARCHITECTURE.md"
    );
    assert_eq!(
        architecture_md_url(ArchitectureDocSlot::Specifications, Some(String::from("http://127.0.0.1:1/a.md")), "main"),
        "http://127.0.0.1:1/a.md"
    );
    assert_eq!(github_ref_or_default(None), "main");
    assert_eq!(github_ref_or_default(Some(String::from("v1"))), "v1");
    assert_eq!(
        architecture_url_env_var(ArchitectureDocSlot::Ecdis),
        "PELOURS_ECDIS_ARCHITECTURE_URL"
    );
}

#[test]
fn port_parsing() {
    assert_eq!(listen_port(None), 8080);
    assert_eq!(listen_port(Some(String::from("9555"))), 9555);
    assert_eq!(listen_port(Some(String::from("not-a-port"))), DEFAULT_PORT);
    assert_eq!(parse_port("+80"), Some(80));
    assert_eq!(parse_port("65535"), Some(65535));
    assert_eq!(parse_port("65536"), None);
    assert_eq!(parse_port("000123"), Some(123));
    assert_eq!(parse_port(""), None);
    assert_eq!(parse_port("+"), None);
    assert_eq!(parse_port("-1"), None);
    assert_eq!(parse_port(" 80"), None);
    assert_eq!(parse_port("99999999999999999999"), None);
}
