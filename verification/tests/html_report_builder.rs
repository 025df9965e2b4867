use report::report_builder::ReportBuilder;
use report::report_builder::html_report_builder::HtmlReportBuilder;

#[test]
fn header_then_paragraph() {
    let r = HtmlReportBuilder::new()
        .with_header("Title")
        .with_paragraph("Body")
        .finish();
    assert_eq!(r.content, "<h1>Title</h1>\n<p>Body</p>\n");
    assert_eq!(r.items, 2);
    assert_eq!(r.format, "Html\n");
}

#[test]
fn finish_without_content() {
    let r = HtmlReportBuilder::new().finish();
    assert_eq!(r.content, "");
    assert_eq!(r.items, 0);
    assert_eq!(r.format, "Html\n");
}

#[test]
fn items_counts_every_call() {
    let r = HtmlReportBuilder::new()
        .with_header("One")
        .with_paragraph("Two")
        .with_paragraph("Three")
        .with_header("Four")
        .with_paragraph("Five")
        .finish();
    assert_eq!(r.items, 5);
}

#[test]
fn fragments_concatenate_in_call_order() {
    let r = HtmlReportBuilder::new()
        .with_paragraph("first")
        .with_header("second")
        .with_paragraph("third")
        .finish();
    assert_eq!(r.content, "<p>first</p>\n<h1>second</h1>\n<p>third</p>\n");
}

#[test]
fn empty_texts_still_render_tags() {
    let r = HtmlReportBuilder::new()
        .with_header("")
        .with_paragraph("")
        .finish();
    assert_eq!(r.content, "<h1></h1>\n<p></p>\n");
    assert_eq!(r.items, 2);
}

#[test]
fn text_is_wrapped_verbatim_without_escaping() {
    let r = HtmlReportBuilder::new()
        .with_paragraph("a < b & c > d")
        .finish();
    assert_eq!(r.content, "<p>a < b & c > d</p>\n");
}

#[test]
fn format_label_is_fixed_regardless_of_content() {
    let with_content = HtmlReportBuilder::new().with_header("x").finish();
    let without_content = HtmlReportBuilder::new().finish();
    assert_eq!(with_content.format, "Html\n");
    assert_eq!(without_content.format, "Html\n");
}

#[test]
fn each_fragment_ends_with_one_line_break() {
    let r = HtmlReportBuilder::new()
        .with_header("h")
        .with_paragraph("p")
        .finish();
    assert_eq!(r.content.lines().count(), 2);
    assert!(r.content.ends_with('\n'));
}

#[test]
fn headers_only() {
    let r = HtmlReportBuilder::new()
        .with_header("a")
        .with_header("b")
        .finish();
    assert_eq!(r.content, "<h1>a</h1>\n<h1>b</h1>\n");
    assert_eq!(r.items, 2);
}
