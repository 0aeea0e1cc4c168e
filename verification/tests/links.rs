use website::links::{
    architecture_markdown_to_html, normalize_repo_relative_path, rewrite_event_destinations,
    rewrite_markdown_link_dest, skip_rewrite_dest, split_anchor, ArchitectureGithubRepo,
    ECDIS_REPO_WEB, PLATFORM_REPO_WEB, SPECS_REPO_WEB,
};

#[test]
fn dot_slash_md_becomes_blob_url() {
    assert_eq!(
        rewrite_markdown_link_dest("./stream/01-overview.md", SPECS_REPO_WEB, "main"),
        "https://github.com/pelorus-marine/specifications/blob/main/stream/01-overview.md"
    );
}

#[test]
fn hash_only_points_at_architecture_md() {
    assert_eq!(
        rewrite_markdown_link_dest("#lmde", SPECS_REPO_WEB, "main"),
        "https://github.com/pelorus-marine/specifications/blob/main/ARCHITECTURE.md#lmde"
    );
}

#[test]
fn absolute_https_left_alone() {
    assert_eq!(
        rewrite_markdown_link_dest("https://example.com/foo", SPECS_REPO_WEB, "main"),
        "https://example.com/foo"
    );
}

#[test]
fn mailto_and_protocol_relative_skipped() {
    assert_eq!(
        rewrite_markdown_link_dest("mailto:a@b.c", SPECS_REPO_WEB, "main"),
        "mailto:a@b.c"
    );
    assert_eq!(
        rewrite_markdown_link_dest("//evil.example/foo", SPECS_REPO_WEB, "main"),
        "//evil.example/foo"
    );
}

#[test]
fn parent_segments_normalized() {
    assert_eq!(
        rewrite_markdown_link_dest("../LICENSE", ECDIS_REPO_WEB, "feature/x"),
        "https://github.com/pelorus-marine/ecdis/blob/feature/x/LICENSE"
    );
}

#[test]
fn markdown_to_html_renders_table() {
    let md = "| a | b |\n|---|---|\n| 1 | 2 |\n";
    let html = architecture_markdown_to_html(md, ArchitectureGithubRepo::Specifications, "main");
    assert!(html.contains("<table>"));
    assert!(html.contains("<td>"));
}

#[test]
fn architecture_html_contains_blob_url_for_relative_link() {
    let md = "[Stream](./stream/01-overview.md)";
    let html = architecture_markdown_to_html(md, ArchitectureGithubRepo::Specifications, "main");
    assert!(html.contains("pelorus-marine/specifications/blob/main/stream/01-overview.md"));
}

#[test]
fn image_relative_rewrites_to_blob() {
    let md = "![d](./diagram.png)";
    let html = architecture_markdown_to_html(md, ArchitectureGithubRepo::Ecdis, "main");
    assert!(html.contains("pelorus-marine/ecdis/blob/main/diagram.png"));
}

#[test]
fn absolute_link_kept_in_rendered_html() {
    let html = architecture_markdown_to_html(
        "See [docs](https://example.com/x) and [top](#intro).",
        ArchitectureGithubRepo::Platform,
        "v2",
    );
    assert!(html.contains("href=\"https://example.com/x\""));
    assert!(html.contains("href=\"https://github.com/pelorus-marine/platform/blob/v2/ARCHITECTURE.md#intro\""));
}

#[test]
fn markdown_extensions_enabled() {
    let html = architecture_markdown_to_html(
        "~~old~~\n\n- [x] done\n\n\"quoted\"",
        ArchitectureGithubRepo::Specifications,
        "main",
    );
    assert!(html.contains("<del>old</del>"));
    assert!(html.contains("checkbox"));
    assert!(html.contains("\u{201c}quoted\u{201d}"));
}

#[test]
fn whitespace_around_destination_is_trimmed() {
    assert_eq!(
        rewrite_markdown_link_dest("  docs/a.md \n", SPECS_REPO_WEB, "main"),
        "https://github.com/pelorus-marine/specifications/blob/main/docs/a.md"
    );
    assert_eq!(
        rewrite_markdown_link_dest(" \t ", SPECS_REPO_WEB, "main"),
        ""
    );
}

#[test]
fn root_relative_and_dot_segments() {
    assert_eq!(
        rewrite_markdown_link_dest("/LICENSE#mit", PLATFORM_REPO_WEB, "main"),
        "https://github.com/pelorus-marine/platform/blob/main/LICENSE#mit"
    );
    assert_eq!(
        rewrite_markdown_link_dest("a/./b//c/../d.md", SPECS_REPO_WEB, "main"),
        "https://github.com/pelorus-marine/specifications/blob/main/a/b/d.md"
    );
    assert_eq!(
        rewrite_markdown_link_dest("../..", SPECS_REPO_WEB, "main"),
        "https://github.com/pelorus-marine/specifications/blob/main/ARCHITECTURE.md"
    );
}

#[test]
fn trailing_slashes_of_base_dropped() {
    assert_eq!(
        rewrite_markdown_link_dest("x.md", "https://github.com/o/r//", "dev"),
        "https://github.com/o/r/blob/dev/x.md"
    );
}

#[test]
fn other_schemes_left_alone() {
    for dest in ["http://a", "ftp:x", "data:text/plain,hi", "javascript:void(0)", ""] {
        assert_eq!(rewrite_markdown_link_dest(dest, SPECS_REPO_WEB, "main"), dest);
        assert!(skip_rewrite_dest(dest));
    }
    assert!(!skip_rewrite_dest("docs/x.md"));
    assert!(!skip_rewrite_dest("HTTPS://upper.example"));
}

#[test]
fn split_anchor_at_first_hash() {
    assert_eq!(split_anchor("a.md#x#y"), ("a.md", Some("x#y")));
    assert_eq!(split_anchor("a.md"), ("a.md", None));
    assert_eq!(split_anchor("#"), ("", Some("")));
}

#[test]
fn normalize_paths() {
    assert_eq!(normalize_repo_relative_path("./a/b"), "a/b");
    assert_eq!(normalize_repo_relative_path("///x//y/"), "x/y");
    assert_eq!(normalize_repo_relative_path("a/../../b"), "b");
    assert_eq!(normalize_repo_relative_path(" . "), "");
}

#[test]
fn event_destinations_rewritten_in_place() {
    let dests = vec![None, Some(String::from("./a.md")), Some(String::from("https://x"))];
    let out = rewrite_event_destinations(&dests, SPECS_REPO_WEB, "main");
    assert_eq!(
        out,
        vec![
            String::new(),
            String::from("https://github.com/pelorus-marine/specifications/blob/main/a.md"),
            String::from("https://x"),
        ]
    );
}

#[test]
fn repo_web_bases() {
    assert_eq!(ArchitectureGithubRepo::Specifications.web_base(), SPECS_REPO_WEB);
    assert_eq!(ArchitectureGithubRepo::Ecdis.web_base(), "https://github.com/pelorus-marine/ecdis");
    assert_eq!(ArchitectureGithubRepo::Platform.web_base(), "https://github.com/pelorus-marine/platform");
}
