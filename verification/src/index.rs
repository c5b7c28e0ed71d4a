//! Building the search index: one row per email address per contact, tab
//! separated, newline terminated. A contact without exactly one full name is
//! excluded and counted as a non-fatal error; a file that did not parse is
//! likewise only counted. The builder returns the complete index text; the
//! multiset of rows does not depend on the order the directory was listed in.
use vstd::prelude::*;

use crate::contact::Contact;
use crate::error::MatesError;
use crate::vcard::{prop_values, single_prop_of};

verus! {

/// What one directory entry contributed to the rebuild: `None` for a file
/// that did not parse, `Some` for a parsed contact.
pub type IndexSource = Option<Contact>;

/// The part of a contact the index depends on: its single full name if
/// present, its email addresses in order, and its file path.
pub type ContactModel = (Option<Seq<char>>, Seq<Seq<char>>, Seq<char>);

/// One index row: email, name and path, tab separated, newline terminated.
pub open spec fn row_text(email: Seq<char>, name: Seq<char>, path: Seq<char>) -> Seq<char> {
    email + "\t"@ + name + "\t"@ + path + "\n"@
}

/// The rows contributed by one entry model: one per email address when a
/// single full name is present, none otherwise.
pub open spec fn model_rows(m: Option<ContactModel>) -> Seq<Seq<char>> {
    match m {
        Some(t) => match t.0 {
            Some(name) => t.1.map_values(|e: Seq<char>| row_text(e, name, t.2)),
            None => Seq::<Seq<char>>::empty(),
        },
        None => Seq::<Seq<char>>::empty(),
    }
}

/// The single full name of a contact, when exactly one `FN` is present.
pub open spec fn contact_fn(c: Contact) -> Option<Seq<char>> {
    single_prop_of(c.component, "FN"@)
}

/// The email addresses of a contact, in document order.
pub open spec fn contact_emails(c: Contact) -> Seq<Seq<char>> {
    prop_values(c.component, "EMAIL"@)
}

pub open spec fn contact_model(c: Contact) -> ContactModel {
    (contact_fn(c), contact_emails(c), c.path@)
}

pub open spec fn entry_model(e: IndexSource) -> Option<ContactModel> {
    match e {
        Some(c) => Some(contact_model(c)),
        None => None,
    }
}

/// The rows one entry contributes to the rebuilt index.
pub open spec fn entry_rows(e: IndexSource) -> Seq<Seq<char>> {
    model_rows(entry_model(e))
}

/// An entry that contributes rows without being counted as an error: a
/// parsed contact with exactly one full name.
pub open spec fn entry_ok(e: IndexSource) -> bool {
    e matches Some(c) && contact_fn(c) is Some
}

/// All rows of a rebuild, in entry order.
pub open spec fn index_rows(entries: Seq<IndexSource>) -> Seq<Seq<char>> {
    entries.map_values(|e: IndexSource| entry_rows(e)).flatten()
}

/// Is this a contact file's name? The rebuild retains only directory
/// entries ending in the vCard extension.
pub fn is_vcf_name(name: &str) -> (r: bool)
    ensures
        r == (name@.len() >= 4 && name@.skip(name@.len() - 4) == ".vcf"@),
{
    proof {
        reveal_strlit(".vcf");
        assert(".vcf"@.len() == 4);
    }
    crate::strutil::ends_with_str(name, ".vcf")
}

/// The index rows of one contact: one `email<TAB>name<TAB>path<NEWLINE>` row
/// per email address, or the no-name error that excludes the contact.
pub fn index_item_from_contact(contact: &Contact) -> (r: Result<String, MatesError>)
    ensures
        r matches Ok(s) ==> contact_fn(*contact) is Some && s@ == entry_rows(
            Some(*contact),
        ).flatten(),
        r matches Err(e) ==> contact_fn(*contact) is None && e is NoName,
{
    broadcast use vstd::prelude::Seq::lemma_flatten_push;

    let name = match contact.single_prop("FN") {
        Some(n) => n,
        None => {
            return Err(MatesError::NoName);
        },
    };
    let emails = contact.all_props("EMAIL");
    let ghost crows = entry_rows(Some(*contact));
    proof {
        assert(crows =~= contact_emails(*contact).map_values(
            |e: Seq<char>| row_text(e, name@, contact.path@),
        ));
    }
    let mut rv = String::new();
    let mut i: usize = 0;
    while i < emails.len()
        invariant
            0 <= i <= emails.len(),
            rv@ == crows.take(i as int).flatten(),
        decreases emails.len() - i,
    {
        let ghost pre = crows.take(i as int);
        rv.append(emails[i].as_str());
        rv.append("\t");
        rv.append(name.as_str());
        rv.append("\t");
        rv.append(contact.path.as_str());
        rv.append("\n");
        proof {
            assert(crows[i as int] == row_text(emails@[i as int]@, name@, contact.path@));
            assert(crows.take(i + 1) =~= pre.push(crows[i as int]));
            assert(rv@ =~= crows.take(i + 1).flatten());
        }
        i = i + 1;
    }
    proof {
        assert(crows.take(emails.len() as int) =~= crows);
    }
    Ok(rv)
}

/// Assemble the full index text from the outcome of reading and parsing each
/// candidate file, in order. The flag reports whether any entry failed to
/// parse or lacked a single full name; the text is complete either way.
pub fn build_index_content(entries: &Vec<IndexSource>) -> (r: (String, bool))
    ensures
        r.0@ == index_rows(entries@).flatten(),
        r.1 == !(forall|i: int| 0 <= i < entries@.len() ==> entry_ok(#[trigger] entries@[i])),
{
    broadcast use vstd::prelude::Seq::lemma_flatten_push;

    let ghost rows = entries@.map_values(|e: IndexSource| entry_rows(e));
    let mut rv = String::new();
    let mut errors = false;
    let mut i: usize = 0;
    while i < entries.len()
        invariant
            0 <= i <= entries@.len(),
            rv@ == rows.take(i as int).flatten().flatten(),
            errors == !(forall|j: int| 0 <= j < i ==> entry_ok(#[trigger] entries@[j])),
        decreases entries@.len() - i,
    {
        let ghost pre = rows.take(i as int);
        match &entries[i] {
            Some(contact) => {
                match index_item_from_contact(contact) {
                    Ok(s) => {
                        rv.append(s.as_str());
                    },
                    Err(_) => {
                        errors = true;
                    },
                }
            },
            None => {
                errors = true;
            },
        }
        proof {
            assert(rows[i as int] == entry_rows(entries@[i as int]));
            assert(rows.take(i + 1) =~= pre.push(rows[i as int]));
            assert(rows.take(i + 1).flatten() =~= pre.flatten() + rows[i as int]);
            vstd::seq_lib::lemma_flatten_concat(pre.flatten(), rows[i as int]);
            if !entry_ok(entries@[i as int]) {
                assert(rows[i as int].flatten() =~= Seq::<char>::empty());
            }
            assert(rv@ =~= rows.take(i + 1).flatten().flatten());
        }
        i = i + 1;
    }
    proof {
        assert(rows.take(entries@.len() as int) =~= rows);
    }
    (rv, errors)
}

/// From equal multisets, mapping preserves equal multisets.
proof fn lemma_map_values_multiset<A, B>(a: Seq<A>, b: Seq<A>, f: spec_fn(A) -> B)
    requires
        a.to_multiset() == b.to_multiset(),
    ensures
        a.map_values(f).to_multiset() == b.map_values(f).to_multiset(),
    decreases a.len(),
{
    broadcast use vstd::seq_lib::group_to_multiset_ensures;
    broadcast use vstd::multiset::group_multiset_axioms;

    if a.len() == 0 {
        assert(a.to_multiset().len() == a.len());
        assert(b.to_multiset().len() == b.len());
        assert(a.map_values(f) =~= Seq::<B>::empty());
        assert(b.map_values(f) =~= Seq::<B>::empty());
    } else {
        let x = a[0];
        assert(a.contains(x));
        assert(a.to_multiset().count(x) > 0);
        assert(b.to_multiset().count(x) > 0);
        assert(b.contains(x));
        let j = choose|j: int| 0 <= j < b.len() && b[j] == x;
        assert(a.remove(0).to_multiset() == a.to_multiset().remove(x));
        assert(b.remove(j).to_multiset() == b.to_multiset().remove(x));
        lemma_map_values_multiset(a.remove(0), b.remove(j), f);
        let fa = a.map_values(f);
        let fb = b.map_values(f);
        assert(a.remove(0).map_values(f) =~= fa.remove(0));
        assert(b.remove(j).map_values(f) =~= fb.remove(j));
        assert(fa.remove(0).to_multiset() == fa.to_multiset().remove(f(x)));
        assert(fb.remove(j).to_multiset() == fb.to_multiset().remove(f(x)));
        assert(fa.contains(f(x)));
        assert(fb.contains(f(x)));
        assert(fa.to_multiset().count(f(x)) > 0);
        assert(fb.to_multiset().count(f(x)) > 0);
        assert forall|y: B| fa.to_multiset().count(y) == fb.to_multiset().count(y) by {
            if y == f(x) {
                assert(fa.to_multiset().count(y) == fa.to_multiset().remove(f(x)).count(y) + 1);
                assert(fb.to_multiset().count(y) == fb.to_multiset().remove(f(x)).count(y) + 1);
            } else {
                assert(fa.to_multiset().count(y) == fa.to_multiset().remove(f(x)).count(y));
                assert(fb.to_multiset().count(y) == fb.to_multiset().remove(f(x)).count(y));
            }
        }
        assert(fa.to_multiset() =~= fb.to_multiset());
    }
}

/// Removing one inner sequence moves its elements out of the flattening.
proof fn lemma_flatten_remove_multiset<A>(s: Seq<Seq<A>>, j: int)
    requires
        0 <= j < s.len(),
    ensures
        s.flatten().to_multiset() == s.remove(j).flatten().to_multiset().add(s[j].to_multiset()),
{
    broadcast use vstd::multiset::group_multiset_axioms;

    let pre = s.take(j);
    let mid = seq![s[j]];
    let post = s.skip(j + 1);
    assert(s =~= (pre + mid) + post);
    vstd::seq_lib::lemma_flatten_concat(pre + mid, post);
    vstd::seq_lib::lemma_flatten_concat(pre, mid);
    mid.lemma_flatten_one_element();
    assert(s.flatten() =~= (pre.flatten() + s[j]) + post.flatten());
    assert(s.remove(j) =~= pre + post);
    vstd::seq_lib::lemma_flatten_concat(pre, post);
    assert(s.remove(j).flatten() =~= pre.flatten() + post.flatten());
    vstd::seq_lib::lemma_multiset_commutative(pre.flatten() + s[j], post.flatten());
    vstd::seq_lib::lemma_multiset_commutative(pre.flatten(), s[j]);
    vstd::seq_lib::lemma_multiset_commutative(pre.flatten(), post.flatten());
    assert(s.flatten().to_multiset() =~= s.remove(j).flatten().to_multiset().add(
        s[j].to_multiset(),
    ));
}

/// From equal multisets of inner sequences, flattening preserves equal
/// multisets of elements.
proof fn lemma_flatten_multiset<A>(a: Seq<Seq<A>>, b: Seq<Seq<A>>)
    requires
        a.to_multiset() == b.to_multiset(),
    ensures
        a.flatten().to_multiset() == b.flatten().to_multiset(),
    decreases a.len(),
{
    broadcast use vstd::seq_lib::group_to_multiset_ensures;
    broadcast use vstd::multiset::group_multiset_axioms;

    if a.len() == 0 {
        assert(a.to_multiset().len() == a.len());
        assert(b.to_multiset().len() == b.len());
        assert(a.flatten() =~= Seq::<A>::empty());
        assert(b.flatten() =~= Seq::<A>::empty());
    } else {
        let x = a[0];
        assert(a.contains(x));
        assert(a.to_multiset().count(x) > 0);
        assert(b.to_multiset().count(x) > 0);
        assert(b.contains(x));
        let j = choose|j: int| 0 <= j < b.len() && b[j] == x;
        assert(a.remove(0).to_multiset() == a.to_multiset().remove(x));
        assert(b.remove(j).to_multiset() == b.to_multiset().remove(x));
        lemma_flatten_multiset(a.remove(0), b.remove(j));
        lemma_flatten_remove_multiset(a, 0);
        lemma_flatten_remove_multiset(b, j);
    }
}

/// Rebuilding from the same contacts yields the same rows, whatever order
/// the directory listed them in: the multiset of index rows depends only on
/// the multiset of per-entry models.
pub proof fn lemma_index_rows_order_independent(a: Seq<IndexSource>, b: Seq<IndexSource>)
    requires
        a.map_values(|e: IndexSource| entry_model(e)).to_multiset() == b.map_values(
            |e: IndexSource| entry_model(e),
        ).to_multiset(),
    ensures
        index_rows(a).to_multiset() == index_rows(b).to_multiset(),
{
    let ma = a.map_values(|e: IndexSource| entry_model(e));
    let mb = b.map_values(|e: IndexSource| entry_model(e));
    lemma_map_values_multiset(ma, mb, |m: Option<ContactModel>| model_rows(m));
    assert(ma.map_values(|m: Option<ContactModel>| model_rows(m)) =~= a.map_values(
        |e: IndexSource| entry_rows(e),
    ));
    assert(mb.map_values(|m: Option<ContactModel>| model_rows(m)) =~= b.map_values(
        |e: IndexSource| entry_rows(e),
    ));
    lemma_flatten_multiset(
        a.map_values(|e: IndexSource| entry_rows(e)),
        b.map_values(|e: IndexSource| entry_rows(e)),
    );
}

} // verus!
