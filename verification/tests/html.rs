//! The control-page splice.

use amp_core::html::get_html;

#[test]
fn the_marker_is_replaced_by_the_stylesheet() {
    let index = "<html><head><!-- pure-min.css --></head><body></body></html>";
    let out = get_html(index, "body { margin: 0; }");
    assert_eq!(
        out,
        "<html><head><style>body { margin: 0; }</style></head><body></body></html>"
    );
}

#[test]
fn only_the_first_marker_is_replaced() {
    let index = "<!-- pure-min.css --><!-- pure-min.css -->";
    let out = get_html(index, "x");
    assert_eq!(out, "<style>x</style><!-- pure-min.css -->");
}

#[test]
fn a_page_without_the_marker_is_unchanged() {
    let index = "<html><body>plain</body></html>";
    assert_eq!(get_html(index, "ignored"), index);
}

#[test]
fn an_empty_page_is_unchanged() {
    assert_eq!(get_html("", "css"), "");
}
