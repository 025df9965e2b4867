use vstd::prelude::*;
use vstd::string::StringExecFns;
use crate::report::Report;
use crate::report_builder::Fragment;
use crate::report_builder::ReportBuilder;
use crate::report_builder::rendered_all;
use crate::report_builder::lemma_rendered_all_push;

verus! {

/// A builder whose reports are HTML markup: each header is wrapped verbatim
/// in `<h1>` tags and each paragraph in `<p>` tags, each followed by one
/// line break.
pub struct HtmlReportBuilder {
    content: String,
    items: i32,
    fragments: Ghost<Seq<Fragment>>,
}

impl HtmlReportBuilder {
    /// `content` holds the rendering of the accumulated fragments in call
    /// order, and `items` counts them.
    #[verifier::type_invariant]
    spec fn wf(self) -> bool {
        &&& self.items as int == self.fragments@.len() as int
        &&& self.content@ == rendered_all(
            |f: Fragment| HtmlReportBuilder::rendered(f),
            self.fragments@,
        )
    }

    /// A fresh builder with no content and no items.
    pub fn new() -> (r: HtmlReportBuilder)
        ensures
            r.fragments() == Seq::<Fragment>::empty(),
    {
        HtmlReportBuilder {
            content: String::new(),
            items: 0,
            fragments: Ghost(Seq::empty()),
        }
    }
}

impl ReportBuilder for HtmlReportBuilder {
    closed spec fn fragments(self) -> Seq<Fragment> {
        self.fragments@
    }

    open spec fn rendered(f: Fragment) -> Seq<char> {
        match f {
            Fragment::Header(text) => "<h1>"@ + text + "</h1>\n"@,
            Fragment::Paragraph(text) => "<p>"@ + text + "</p>\n"@,
        }
    }

    open spec fn format_label() -> Seq<char> {
        "Html\n"@
    }

    fn with_header(self, header: &'static str) -> (r: Self) {
        proof {
            use_type_invariant(&self);
        }
        let HtmlReportBuilder { mut content, items, fragments } = self;
        content.append("<h1>");
        content.append(header);
        content.append("</h1>\n");
        proof {
            lemma_rendered_all_push(
                |f: Fragment| HtmlReportBuilder::rendered(f),
                fragments@,
                Fragment::Header(header@),
            );
            assert(content@ =~= rendered_all(
                |f: Fragment| HtmlReportBuilder::rendered(f),
                fragments@.push(Fragment::Header(header@)),
            ));
        }
        HtmlReportBuilder {
            content,
            items: items + 1,
            fragments: Ghost(fragments@.push(Fragment::Header(header@))),
        }
    }

    fn with_paragraph(self, paragraph: &'static str) -> (r: Self) {
        proof {
            use_type_invariant(&self);
        }
        let HtmlReportBuilder { mut content, items, fragments } = self;
        content.append("<p>");
        content.append(paragraph);
        content.append("</p>\n");
        proof {
            lemma_rendered_all_push(
                |f: Fragment| HtmlReportBuilder::rendered(f),
                fragments@,
                Fragment::Paragraph(paragraph@),
            );
            assert(content@ =~= rendered_all(
                |f: Fragment| HtmlReportBuilder::rendered(f),
                fragments@.push(Fragment::Paragraph(paragraph@)),
            ));
        }
        HtmlReportBuilder {
            content,
            items: items + 1,
            fragments: Ghost(fragments@.push(Fragment::Paragraph(paragraph@))),
        }
    }

    fn finish(self) -> (r: Report) {
        proof {
            use_type_invariant(&self);
        }
        let HtmlReportBuilder { content, items, fragments: _ } = self;
        Report {
            content,
            items,
            format: "Html\n".to_owned(),
        }
    }
}

/// Every rendered fragment ends with a line break.
pub proof fn lemma_rendered_ends_with_line_break(f: Fragment)
    ensures
        HtmlReportBuilder::rendered(f).len() > 0,
        HtmlReportBuilder::rendered(f).last() == '\n',
{
    reveal_strlit("</h1>\n");
    reveal_strlit("</p>\n");
    match f {
        Fragment::Header(_) => {
            let tail = "</h1>\n"@;
            assert(HtmlReportBuilder::rendered(f).last() == tail.last());
        },
        Fragment::Paragraph(_) => {
            let tail = "</p>\n"@;
            assert(HtmlReportBuilder::rendered(f).last() == tail.last());
        },
    }
}

} // verus!
