use vstd::prelude::*;
use crate::report::Report;

pub mod html_report_builder;

verus! {

/// One piece of content handed to a builder: the text of a header or of a
/// paragraph, in the order the caller supplied it.
pub enum Fragment {
    Header(Seq<char>),
    Paragraph(Seq<char>),
}

/// The text a builder produces for the fragments `fs`: the rendering of each
/// fragment under `render`, concatenated in call order.
pub open spec fn rendered_all(render: spec_fn(Fragment) -> Seq<char>, fs: Seq<Fragment>) -> Seq<char>
    decreases fs.len(),
{
    if fs.len() == 0 {
        Seq::empty()
    } else {
        rendered_all(render, fs.drop_last()) + render(fs.last())
    }
}

/// The builder capability: accumulate headers and paragraphs through chained,
/// ownership-transferring calls, then finish into a `Report`. Each
/// implementation chooses how a fragment is rendered and which format label
/// its reports carry.
pub trait ReportBuilder: Sized {
    /// The fragments accumulated so far, in call order.
    spec fn fragments(self) -> Seq<Fragment>;

    /// The text this builder renders for a single fragment.
    spec fn rendered(f: Fragment) -> Seq<char>;

    /// The label this builder stamps on every finished report.
    spec fn format_label() -> Seq<char>;

    /// Appends a header fragment and hands the builder back for chaining.
    fn with_header(self, header: &'static str) -> (r: Self)
        requires
            self.fragments().len() < i32::MAX,
        ensures
            r.fragments() == self.fragments().push(Fragment::Header(header@)),
    ;

    /// Appends a paragraph fragment and hands the builder back for chaining.
    fn with_paragraph(self, paragraph: &'static str) -> (r: Self)
        requires
            self.fragments().len() < i32::MAX,
        ensures
            r.fragments() == self.fragments().push(Fragment::Paragraph(paragraph@)),
    ;

    /// Consumes the builder and produces the report: the accumulated
    /// fragments rendered in call order, their count, and the format label.
    fn finish(self) -> (r: Report)
        ensures
            r.items as int == self.fragments().len() as int,
            r.content@ == rendered_all(|f: Fragment| Self::rendered(f), self.fragments()),
            r.format@ == Self::format_label(),
    ;
}

/// A builder that has accumulated no fragments renders no content.
pub proof fn lemma_rendered_all_empty(render: spec_fn(Fragment) -> Seq<char>)
    ensures
        rendered_all(render, Seq::<Fragment>::empty()) == Seq::<char>::empty(),
{
}

/// Appending one fragment appends exactly its rendering at the end.
pub proof fn lemma_rendered_all_push(
    render: spec_fn(Fragment) -> Seq<char>,
    fs: Seq<Fragment>,
    f: Fragment,
)
    ensures
        rendered_all(render, fs.push(f)) == rendered_all(render, fs) + render(f),
{
    assert(fs.push(f).drop_last() =~= fs);
    assert(fs.push(f).last() == f);
}

/// Rendering concatenates in call order: the text for `fs1 + fs2` is the text
/// for `fs1` followed by the text for `fs2`.
pub proof fn lemma_rendered_all_append(
    render: spec_fn(Fragment) -> Seq<char>,
    fs1: Seq<Fragment>,
    fs2: Seq<Fragment>,
)
    ensures
        rendered_all(render, fs1 + fs2) == rendered_all(render, fs1) + rendered_all(render, fs2),
    decreases fs2.len(),
{
    if fs2.len() == 0 {
        assert(fs1 + fs2 =~= fs1);
        assert(rendered_all(render, fs1) + rendered_all(render, fs2)
            =~= rendered_all(render, fs1));
    } else {
        lemma_rendered_all_append(render, fs1, fs2.drop_last());
        assert((fs1 + fs2).drop_last() =~= fs1 + fs2.drop_last());
        assert((fs1 + fs2).last() == fs2.last());
        assert(rendered_all(render, fs1) + rendered_all(render, fs2)
            =~= (rendered_all(render, fs1) + rendered_all(render, fs2.drop_last()))
                + render(fs2.last()));
    }
}

} // verus!
