//! Line diff of two listings: the changes, the match counts, a unified diff
//! and a side-by-side HTML table.

use vstd::prelude::*;
use crate::text::ends_with_char;

verus! {

/// The part a line plays in a diff.
#[derive(Debug, Clone, Copy, PartialEq, Eq, Structural)]
pub enum ChangeTag {
    Equal,
    Delete,
    Insert,
}

/// One line of a diff: its part and its text, line ending included.
pub struct LineChange {
    pub tag: ChangeTag,
    pub text: String,
}

impl View for LineChange {
    type V = (ChangeTag, Seq<char>);

    open spec fn view(&self) -> (ChangeTag, Seq<char>) {
        (self.tag, self.text@)
    }
}

/// The line changes that a line diff of `old` against `new` gives.
pub uninterp spec fn line_diff_of(old: Seq<char>, new: Seq<char>) -> Seq<(ChangeTag, Seq<char>)>;

/// The unified diff text of `old` against `new`.
pub uninterp spec fn unified_diff_of(old: Seq<char>, new: Seq<char>) -> Seq<char>;

/// The text of one side of a diff: the lines that are equal or carry `tag`,
/// in order.
pub open spec fn side_text(cs: Seq<(ChangeTag, Seq<char>)>, tag: ChangeTag) -> Seq<char>
    decreases cs.len(),
{
    if cs.len() == 0 {
        Seq::empty()
    } else {
        side_text(cs.drop_last(), tag) + (if cs.last().0 == ChangeTag::Equal || cs.last().0 == tag {
            cs.last().1
        } else {
            Seq::empty()
        })
    }
}

/// How many changes carry `tag`.
pub open spec fn count_tag(cs: Seq<(ChangeTag, Seq<char>)>, tag: ChangeTag) -> nat
    decreases cs.len(),
{
    if cs.len() == 0 {
        0
    } else {
        count_tag(cs.drop_last(), tag) + (if cs.last().0 == tag {
            1nat
        } else {
            0nat
        })
    }
}

pub open spec fn views_of(v: Seq<LineChange>) -> Seq<(ChangeTag, Seq<char>)> {
    v.map_values(|c: LineChange| c@)
}

/// Relies on `similar::TextDiff::from_lines` and its `iter_all_changes`: the
/// texts are split into lines that keep their endings, every line of `old`
/// comes once as equal or deleted and every line of `new` once as equal or
/// inserted, in order; equal texts give equal lines only.
#[verifier::external_body]
fn diff_lines(old: &str, new: &str) -> (r: Vec<LineChange>)
    ensures
        views_of(r@) == line_diff_of(old@, new@),
        side_text(views_of(r@), ChangeTag::Delete) == old@,
        side_text(views_of(r@), ChangeTag::Insert) == new@,
        old@ == new@ ==> forall|i: int| 0 <= i < r@.len() ==> (#[trigger] r@[i]).tag == ChangeTag::Equal,
{
    let diff = similar::TextDiff::from_lines(old, new);
    diff.iter_all_changes().map(|c| LineChange {
        tag: match c.tag() {
            similar::ChangeTag::Equal => ChangeTag::Equal,
            similar::ChangeTag::Delete => ChangeTag::Delete,
            similar::ChangeTag::Insert => ChangeTag::Insert,
        },
        text: c.value().to_string(),
    }).collect()
}

/// Relies on `similar::TextDiff::from_lines` and its `unified_diff`: equal
/// texts have no hunk, so their unified diff is empty.
#[verifier::external_body]
fn unified_diff_text(old: &str, new: &str) -> (r: String)
    ensures
        r@ == unified_diff_of(old@, new@),
        old@ == new@ ==> r@.len() == 0,
{
    let diff = similar::TextDiff::from_lines(old, new);
    diff.unified_diff().to_string()
}

/// A line as a diff shows it: with a newline added when it ends in neither
/// `\r` nor `\n`.
pub open spec fn shown_line(s: Seq<char>) -> Seq<char> {
    if s.len() > 0 && (s.last() == '\n' || s.last() == '\r') {
        s
    } else {
        s + "\n"@
    }
}

/// One row of the side-by-side table: an equal line on both sides, a
/// deleted line on the left, an inserted line on the right.
pub open spec fn html_row(c: (ChangeTag, Seq<char>)) -> Seq<char> {
    let t = shown_line(c.1);
    match c.0 {
        ChangeTag::Equal => "<tr><td>"@ + t + "</td><td>"@ + t + "</td></tr>"@,
        ChangeTag::Delete => "<tr><td class=\"code-delete\">"@ + t + "</td><td></td></tr>"@,
        ChangeTag::Insert => "<tr><td></td><td class=\"code-insert\">"@ + t + "</td></tr>"@,
    }
}

/// The rows of all changes, separated by newlines.
pub open spec fn html_table(cs: Seq<(ChangeTag, Seq<char>)>) -> Seq<char>
    decreases cs.len(),
{
    if cs.len() == 0 {
        Seq::empty()
    } else if cs.len() == 1 {
        html_row(cs[0])
    } else {
        html_table(cs.drop_last()) + "\n"@ + html_row(cs.last())
    }
}

/// The row of one change, as [`html_row`] says.
pub fn create_change_line_html(change: &LineChange) -> (r: String)
    ensures
        r@ == html_row(change@),
{
    let mut shown = change.text.clone();
    let s = change.text.as_str();
    if !(ends_with_char(s, '\n') || ends_with_char(s, '\r')) {
        shown.append("\n");
    }
    assert(shown@ == shown_line(change.text@));
    let mut r: String;
    match change.tag {
        ChangeTag::Equal => {
            r = String::from_str("<tr><td>");
            r.append(shown.as_str());
            r.append("</td><td>");
            r.append(shown.as_str());
            r.append("</td></tr>");
        },
        ChangeTag::Delete => {
            r = String::from_str("<tr><td class=\"code-delete\">");
            r.append(shown.as_str());
            r.append("</td><td></td></tr>");
        },
        ChangeTag::Insert => {
            r = String::from_str("<tr><td></td><td class=\"code-insert\">");
            r.append(shown.as_str());
            r.append("</td></tr>");
        },
    }
    r
}

/// The outcome of comparing two listings.
pub struct CompareResult {
    pub orig_asm: String,
    pub new_asm: String,
    pub unified_diff: String,
    /// Lines on both sides.
    pub equal_lines: usize,
    /// Lines of the reference side only.
    pub deleted_lines: usize,
    /// Lines of the rebuilt side only.
    pub inserted_lines: usize,
    pub diff_html: String,
}

impl CompareResult {
    /// The listings are line-identical: the match ratio
    /// `2 * equal / (2 * equal + deleted + inserted)` is 1 (an empty pair of
    /// listings counts as a full match).
    pub open spec fn full_match(&self) -> bool {
        self.deleted_lines == 0 && self.inserted_lines == 0
    }

    pub fn is_full_match(&self) -> (r: bool)
        ensures
            r == self.full_match(),
    {
        self.deleted_lines == 0 && self.inserted_lines == 0
    }
}

proof fn lemma_all_equal_sides(cs: Seq<(ChangeTag, Seq<char>)>)
    requires
        count_tag(cs, ChangeTag::Delete) == 0,
        count_tag(cs, ChangeTag::Insert) == 0,
    ensures
        side_text(cs, ChangeTag::Delete) == side_text(cs, ChangeTag::Insert),
    decreases cs.len(),
{
    if cs.len() > 0 {
        lemma_all_equal_sides(cs.drop_last());
    }
}

proof fn lemma_count_all_equal(cs: Seq<(ChangeTag, Seq<char>)>, tag: ChangeTag)
    requires
        forall|i: int| 0 <= i < cs.len() ==> (#[trigger] cs[i]).0 == ChangeTag::Equal,
        tag != ChangeTag::Equal,
    ensures
        count_tag(cs, tag) == 0,
    decreases cs.len(),
{
    if cs.len() > 0 {
        let d = cs.drop_last();
        assert forall|i: int| 0 <= i < d.len() implies (#[trigger] d[i]).0 == ChangeTag::Equal by {
            assert(d[i] == cs[i]);
        }
        lemma_count_all_equal(d, tag);
        assert(cs[cs.len() - 1].0 == ChangeTag::Equal);
    }
}

proof fn lemma_count_bound(cs: Seq<(ChangeTag, Seq<char>)>, tag: ChangeTag)
    ensures
        count_tag(cs, tag) <= cs.len(),
    decreases cs.len(),
{
    if cs.len() > 0 {
        lemma_count_bound(cs.drop_last(), tag);
    }
}

/// The counts and the side-by-side table of a list of line changes.
pub struct DiffSummary {
    pub equal_lines: usize,
    pub deleted_lines: usize,
    pub inserted_lines: usize,
    pub diff_html: String,
}

/// Counts the changes of each part and lays them out as table rows.
pub fn summarize_changes(changes: &Vec<LineChange>) -> (r: DiffSummary)
    ensures
        r.equal_lines == count_tag(views_of(changes@), ChangeTag::Equal),
        r.deleted_lines == count_tag(views_of(changes@), ChangeTag::Delete),
        r.inserted_lines == count_tag(views_of(changes@), ChangeTag::Insert),
        r.diff_html@ == html_table(views_of(changes@)),
{
    let ghost cs = views_of(changes@);
    let mut equal: usize = 0;
    let mut deleted: usize = 0;
    let mut inserted: usize = 0;
    let mut html = String::new();
    let mut i: usize = 0;
    while i < changes.len()
        invariant
            cs == views_of(changes@),
            i <= changes@.len(),
            equal == count_tag(cs.subrange(0, i as int), ChangeTag::Equal),
            deleted == count_tag(cs.subrange(0, i as int), ChangeTag::Delete),
            inserted == count_tag(cs.subrange(0, i as int), ChangeTag::Insert),
            html@ == html_table(cs.subrange(0, i as int)),
        decreases changes@.len() - i,
    {
        let ghost pre = cs.subrange(0, i as int);
        let ghost next = cs.subrange(0, i as int + 1);
        proof {
            assert(next.drop_last() =~= pre);
            assert(next.last() == changes@[i as int]@);
            lemma_count_bound(pre, ChangeTag::Equal);
            lemma_count_bound(pre, ChangeTag::Delete);
            lemma_count_bound(pre, ChangeTag::Insert);
        }
        let c = &changes[i];
        match c.tag {
            ChangeTag::Equal => equal = equal + 1,
            ChangeTag::Delete => deleted = deleted + 1,
            ChangeTag::Insert => inserted = inserted + 1,
        }
        if i > 0 {
            html.append("\n");
        }
        let row = create_change_line_html(c);
        html.append(row.as_str());
        proof {
            if i == 0 {
                assert(next.len() == 1);
                assert(next[0] == changes@[0]@);
            }
        }
        i = i + 1;
    }
    assert(cs.subrange(0, changes@.len() as int) =~= cs);
    DiffSummary { equal_lines: equal, deleted_lines: deleted, inserted_lines: inserted, diff_html: html }
}

/// Compares two listings line by line: the line counts, the unified diff
/// and the side-by-side table of the line diff of `orig_asm` against
/// `new_asm`. The listings match fully exactly when they are identical, and
/// identical listings have an empty unified diff.
pub fn compare_listings(orig_asm: String, new_asm: String) -> (r: CompareResult)
    ensures
        r.orig_asm@ == orig_asm@,
        r.new_asm@ == new_asm@,
        r.unified_diff@ == unified_diff_of(orig_asm@, new_asm@),
        r.equal_lines == count_tag(line_diff_of(orig_asm@, new_asm@), ChangeTag::Equal),
        r.deleted_lines == count_tag(line_diff_of(orig_asm@, new_asm@), ChangeTag::Delete),
        r.inserted_lines == count_tag(line_diff_of(orig_asm@, new_asm@), ChangeTag::Insert),
        r.diff_html@ == html_table(line_diff_of(orig_asm@, new_asm@)),
        r.full_match() <==> orig_asm@ == new_asm@,
        orig_asm@ == new_asm@ ==> r.unified_diff@.len() == 0,
{
    let changes = diff_lines(orig_asm.as_str(), new_asm.as_str());
    let summary = summarize_changes(&changes);
    proof {
        let cs = views_of(changes@);
        if summary.deleted_lines == 0 && summary.inserted_lines == 0 {
            lemma_all_equal_sides(cs);
        }
        if orig_asm@ == new_asm@ {
            assert forall|j: int| 0 <= j < cs.len() implies (#[trigger] cs[j]).0 == ChangeTag::Equal by {
                assert(cs[j] == changes@[j]@);
            }
            lemma_count_all_equal(cs, ChangeTag::Delete);
            lemma_count_all_equal(cs, ChangeTag::Insert);
        }
    }
    let unified = unified_diff_text(orig_asm.as_str(), new_asm.as_str());
    CompareResult {
        orig_asm,
        new_asm,
        unified_diff: unified,
        equal_lines: summary.equal_lines,
        deleted_lines: summary.deleted_lines,
        inserted_lines: summary.inserted_lines,
        diff_html: summary.diff_html,
    }
}

} // verus!
