//! Reading filter output back into records and projecting records into the
//! three output formats. A line splits on tabs into up to three fields, the
//! missing ones empty; the records keep the filter process's output order,
//! and a single trailing empty line from a final newline is discarded.
use vstd::prelude::*;

use crate::error::MatesError;
use crate::strutil::{field_or_empty, split_on, split_str, views_of};

verus! {

/// One row of the search index: an email address, a display name, and the
/// path of the contact file the row came from.
pub struct IndexItem {
    pub email: String,
    pub name: String,
    pub filepath: String,
}

/// The three fields a line carries: the pieces between its tabs, the
/// missing trailing ones empty.
pub open spec fn line_item(line: Seq<char>) -> (Seq<char>, Seq<char>, Seq<char>) {
    let parts = split_on(line, '\t');
    (field_or_empty(parts, 0), field_or_empty(parts, 1), field_or_empty(parts, 2))
}

/// The lines of a query's output: split on newlines, with a single trailing
/// empty line (from a final newline) discarded.
pub open spec fn query_lines(output: Seq<char>) -> Seq<Seq<char>> {
    let parts = split_on(output, '\n');
    if parts.len() > 0 && parts[parts.len() - 1].len() == 0 {
        parts.drop_last()
    } else {
        parts
    }
}

impl IndexItem {
    /// Parse one index line into its three tab-separated fields.
    pub fn new(line: String) -> (r: IndexItem)
        ensures
            (r.email@, r.name@, r.filepath@) == line_item(line@),
    {
        let parts = split_str(line.as_str(), '\t');
        let email = if parts.len() > 0 {
            parts[0].clone()
        } else {
            String::new()
        };
        let name = if parts.len() > 1 {
            parts[1].clone()
        } else {
            String::new()
        };
        let filepath = if parts.len() > 2 {
            parts[2].clone()
        } else {
            String::new()
        };
        IndexItem { email, name, filepath }
    }
}

/// The records of one query, handed out in the filter's output order.
pub struct IndexIterator {
    pub linebuffer: Vec<String>,
}

impl IndexIterator {
    /// Split the filter process's output into lines, discarding a single
    /// trailing empty line produced by a final newline.
    pub fn new(output: &String) -> (r: IndexIterator)
        ensures
            views_of(r.linebuffer@) == query_lines(output@),
    {
        let mut parts = split_str(output.as_str(), '\n');
        proof {
            crate::strutil::lemma_split_on_len(output@, '\n');
        }
        if parts[parts.len() - 1].as_str().is_empty() {
            parts.pop();
            assert(views_of(parts@) =~= query_lines(output@));
        } else {
            assert(views_of(parts@) =~= query_lines(output@));
        }
        IndexIterator { linebuffer: parts }
    }

    /// The next record, parsed from the first remaining line.
    pub fn next(&mut self) -> (r: Option<IndexItem>)
        ensures
            match r {
                Some(item) => old(self).linebuffer@.len() > 0 && (
                item.email@,
                item.name@,
                item.filepath@,
                ) == line_item(old(self).linebuffer@[0]@) && final (self).linebuffer@ == old(
                    self,
                ).linebuffer@.skip(1),
                None => old(self).linebuffer@.len() == 0 && final (self).linebuffer@ == old(
                    self,
                ).linebuffer@,
            },
    {
        if self.linebuffer.len() == 0 {
            None
        } else {
            let line = self.linebuffer.remove(0);
            assert(self.linebuffer@ =~= old(self).linebuffer@.skip(1));
            Some(IndexItem::new(line))
        }
    }
}

/// Does a record reach mutt-format output? Both the address and the name
/// must be non-empty.
pub open spec fn mutt_keeps(it: IndexItem) -> bool {
    it.email@.len() > 0 && it.name@.len() > 0
}

/// A mutt-format output line: the three fields, tab separated.
pub open spec fn mutt_line(it: IndexItem) -> Seq<char> {
    it.email@ + "\t"@ + it.name@ + "\t"@ + it.filepath@
}

/// Does a record reach email-format output? Both the name and the address
/// must be non-empty.
pub open spec fn email_keeps(it: IndexItem) -> bool {
    it.name@.len() > 0 && it.email@.len() > 0
}

/// An email-format output line: `name <email>`.
pub open spec fn email_line(it: IndexItem) -> Seq<char> {
    it.name@ + " <"@ + it.email@ + ">"@
}

/// Does a record reach file-format output? The filepath must be non-empty.
pub open spec fn file_keeps(it: IndexItem) -> bool {
    it.filepath@.len() > 0
}

/// A file-format output line: the filepath alone.
pub open spec fn file_line(it: IndexItem) -> Seq<char> {
    it.filepath@
}

proof fn lemma_filter_push<A>(s: Seq<A>, x: A, pred: spec_fn(A) -> bool)
    ensures
        s.push(x).filter(pred) == s.filter(pred) + (if pred(x) {
            seq![x]
        } else {
            Seq::<A>::empty()
        }),
{
    reveal(Seq::filter);
    assert(s.push(x).drop_last() =~= s);
    assert(s.push(x).last() == x);
    if pred(x) {
        assert(s.filter(pred).push(x) =~= s.filter(pred) + seq![x]);
    } else {
        assert(s.filter(pred) =~= s.filter(pred) + Seq::<A>::empty());
    }
}

/// The mutt-format projection: one tab-separated line for each record whose
/// address and name are both non-empty, in order.
pub fn mutt_format(items: &Vec<IndexItem>) -> (r: Vec<String>)
    ensures
        views_of(r@) == items@.filter(|it: IndexItem| mutt_keeps(it)).map_values(
            |it: IndexItem| mutt_line(it),
        ),
{
    let mut r: Vec<String> = Vec::new();
    let mut i: usize = 0;
    while i < items.len()
        invariant
            0 <= i <= items@.len(),
            views_of(r@) == items@.take(i as int).filter(|it: IndexItem| mutt_keeps(it)).map_values(
                |it: IndexItem| mutt_line(it),
            ),
        decreases items@.len() - i,
    {
        let ghost pre = items@.take(i as int);
        let ghost x = items@[i as int];
        let ghost p = |it: IndexItem| mutt_keeps(it);
        let ghost f = |it: IndexItem| mutt_line(it);
        let it = &items[i];
        if it.email.as_str().unicode_len() > 0 && it.name.as_str().unicode_len() > 0 {
            let mut line = it.email.clone();
            line.append("\t");
            line.append(it.name.as_str());
            line.append("\t");
            line.append(it.filepath.as_str());
            assert(line@ == mutt_line(items@[i as int]));
            r.push(line);
        }
        proof {
            lemma_filter_push(pre, x, p);
            assert(items@.take(i + 1) =~= pre.push(x));
            if p(x) {
                assert(pre.filter(p) + seq![x] =~= pre.filter(p).push(x));
                assert(views_of(r@) =~= pre.filter(p).map_values(f).push(f(x)));
                assert(pre.push(x).filter(p).map_values(f) =~= pre.filter(p).map_values(f).push(
                    f(x),
                ));
            } else {
                assert(pre.filter(p) + Seq::<IndexItem>::empty() =~= pre.filter(p));
            }
            assert(views_of(r@) =~= items@.take(i + 1).filter(p).map_values(f));
        }
        i = i + 1;
    }
    proof {
        assert(items@.take(items@.len() as int) =~= items@);
    }
    r
}

/// The email-format projection: `name <email>` for each record whose name
/// and address are both non-empty, in order.
pub fn email_format(items: &Vec<IndexItem>) -> (r: Vec<String>)
    ensures
        views_of(r@) == items@.filter(|it: IndexItem| email_keeps(it)).map_values(
            |it: IndexItem| email_line(it),
        ),
{
    let mut r: Vec<String> = Vec::new();
    let mut i: usize = 0;
    while i < items.len()
        invariant
            0 <= i <= items@.len(),
            views_of(r@) == items@.take(i as int).filter(
                |it: IndexItem| email_keeps(it),
            ).map_values(|it: IndexItem| email_line(it)),
        decreases items@.len() - i,
    {
        let ghost pre = items@.take(i as int);
        let ghost x = items@[i as int];
        let ghost p = |it: IndexItem| email_keeps(it);
        let ghost f = |it: IndexItem| email_line(it);
        let it = &items[i];
        if it.name.as_str().unicode_len() > 0 && it.email.as_str().unicode_len() > 0 {
            let mut line = it.name.clone();
            line.append(" <");
            line.append(it.email.as_str());
            line.append(">");
            assert(line@ == email_line(items@[i as int]));
            r.push(line);
        }
        proof {
            lemma_filter_push(pre, x, p);
            assert(items@.take(i + 1) =~= pre.push(x));
            if p(x) {
                assert(pre.filter(p) + seq![x] =~= pre.filter(p).push(x));
                assert(views_of(r@) =~= pre.filter(p).map_values(f).push(f(x)));
                assert(pre.push(x).filter(p).map_values(f) =~= pre.filter(p).map_values(f).push(
                    f(x),
                ));
            } else {
                assert(pre.filter(p) + Seq::<IndexItem>::empty() =~= pre.filter(p));
            }
            assert(views_of(r@) =~= items@.take(i + 1).filter(p).map_values(f));
        }
        i = i + 1;
    }
    proof {
        assert(items@.take(items@.len() as int) =~= items@);
    }
    r
}

/// The file-format projection: the filepath of each record that has one, in
/// order.
pub fn file_format(items: &Vec<IndexItem>) -> (r: Vec<String>)
    ensures
        views_of(r@) == items@.filter(|it: IndexItem| file_keeps(it)).map_values(
            |it: IndexItem| file_line(it),
        ),
{
    let mut r: Vec<String> = Vec::new();
    let mut i: usize = 0;
    while i < items.len()
        invariant
            0 <= i <= items@.len(),
            views_of(r@) == items@.take(i as int).filter(|it: IndexItem| file_keeps(it)).map_values(
                |it: IndexItem| file_line(it),
            ),
        decreases items@.len() - i,
    {
        let ghost pre = items@.take(i as int);
        let ghost x = items@[i as int];
        let ghost p = |it: IndexItem| file_keeps(it);
        let ghost f = |it: IndexItem| file_line(it);
        let it = &items[i];
        if it.filepath.as_str().unicode_len() > 0 {
            r.push(it.filepath.clone());
        }
        proof {
            lemma_filter_push(pre, x, p);
            assert(items@.take(i + 1) =~= pre.push(x));
            if p(x) {
                assert(pre.filter(p) + seq![x] =~= pre.filter(p).push(x));
                assert(views_of(r@) =~= pre.filter(p).map_values(f).push(f(x)));
                assert(pre.push(x).filter(p).map_values(f) =~= pre.filter(p).map_values(f).push(
                    f(x),
                ));
            } else {
                assert(pre.filter(p) + Seq::<IndexItem>::empty() =~= pre.filter(p));
            }
            assert(views_of(r@) =~= items@.take(i + 1).filter(p).map_values(f));
        }
        i = i + 1;
    }
    proof {
        assert(items@.take(items@.len() as int) =~= items@);
    }
    r
}

/// A record with an empty name reaches neither mutt-format nor email-format
/// output; with a non-empty filepath it still reaches file-format output.
pub proof fn lemma_empty_name_filtering(it: IndexItem)
    requires
        it.name@.len() == 0,
    ensures
        !mutt_keeps(it),
        !email_keeps(it),
        it.filepath@.len() > 0 ==> file_keeps(it),
{
}

/// The path-resolution rule for a query's matches: exactly one candidate is
/// selected; none is the no-match error, several are the ambiguity error.
pub fn select_single(results: &Vec<String>) -> (r: Result<String, MatesError>)
    ensures
        results@.len() == 1 ==> (r matches Ok(s) && s == results@[0]),
        results@.len() == 0 ==> r matches Err(MatesError::NoMatch),
        results@.len() > 1 ==> r matches Err(MatesError::Ambiguous),
{
    if results.len() == 0 {
        Err(MatesError::NoMatch)
    } else if results.len() > 1 {
        Err(MatesError::Ambiguous)
    } else {
        Ok(results[0].clone())
    }
}

/// Is the text all whitespace? The edit flow reports a contact as removed
/// when its file was emptied; blankness here means ASCII whitespace.
pub fn is_blank(s: &str) -> (r: bool)
    ensures
        r == (forall|i: int|
            0 <= i < s@.len() ==> (#[trigger] s@[i] == ' ' || s@[i] == '\t' || s@[i] == '\n'
                || s@[i] == '\r')),
{
    let n = s.unicode_len();
    let mut i: usize = 0;
    while i < n
        invariant
            0 <= i <= n,
            forall|j: int|
                0 <= j < i ==> (#[trigger] s@[j] == ' ' || s@[j] == '\t' || s@[j] == '\n'
                    || s@[j] == '\r'),
        decreases n - i,
    {
        let c = s.get_char(i);
        if !(c == ' ' || c == '\t' || c == '\n' || c == '\r') {
            return false;
        }
        i = i + 1;
    }
    true
}

} // verus!
