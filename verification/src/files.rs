//! Which files of a directory are still to be loaded.
//!
//! The input files are named so that their order by name is the order in
//! which they are to be loaded; the resume index counts along that order.

use vstd::prelude::*;
use crate::error::PackError;
use crate::text::ends_with;

verus! {

/// Whether a path names a file with the extension `csv`: it ends in `.csv`
/// and the file's name does not begin with that dot.
pub open spec fn is_csv_name(name: Seq<char>) -> bool {
    ".csv"@.is_suffix_of(name) && name.len() > ".csv"@.len() && name[name.len() - ".csv"@.len()
        - 1] != '/'
}

/// The paths among `names` that name CSV files, in the order of `names`.
pub open spec fn csv_names(names: Seq<Seq<char>>) -> Seq<Seq<char>>
    decreases names.len(),
{
    if names.len() == 0 {
        Seq::empty()
    } else if is_csv_name(names.last()) {
        csv_names(names.drop_last()).push(names.last())
    } else {
        csv_names(names.drop_last())
    }
}

/// Whether `a` comes before `b`, or is `b`, when strings are ordered
/// character by character and a prefix comes before its extensions.
pub open spec fn lex_le(a: Seq<char>, b: Seq<char>) -> bool
    decreases a.len(),
{
    if a.len() == 0 {
        true
    } else if b.len() == 0 {
        false
    } else if a[0] != b[0] {
        a[0] < b[0]
    } else {
        lex_le(a.drop_first(), b.drop_first())
    }
}

/// Whether the names stand in ascending order.
pub open spec fn ascending(names: Seq<Seq<char>>) -> bool {
    forall|i: int, j: int| 0 <= i <= j < names.len() ==> lex_le(names[i], names[j])
}

/// Strings, each by its characters.
pub open spec fn names_view(names: Seq<String>) -> Seq<Seq<char>> {
    Seq::new(names.len(), |i: int| names[i]@)
}

/// Whether `sorted` holds exactly the names of `names`, in ascending order.
pub open spec fn is_ordering_of(sorted: Seq<Seq<char>>, names: Seq<Seq<char>>) -> bool {
    ascending(sorted) && sorted.to_multiset() == names.to_multiset()
}

/// The files still to be loaded when the next one has the number `index`,
/// the files being numbered from one along `sorted`: all from that file on.
pub open spec fn pending_from(sorted: Seq<Seq<char>>, index: u32) -> Seq<Seq<char>> {
    if index == 0 || index - 1 >= sorted.len() {
        Seq::empty()
    } else {
        sorted.subrange(index - 1, sorted.len() as int)
    }
}

/// Every name comes before itself or is itself.
pub proof fn lemma_lex_le_reflexive(a: Seq<char>)
    ensures
        lex_le(a, a),
    decreases a.len(),
{
    if a.len() > 0 {
        lemma_lex_le_reflexive(a.drop_first());
    }
}

/// Two names that each come before the other are one name.
pub proof fn lemma_lex_le_antisymmetric(a: Seq<char>, b: Seq<char>)
    requires
        lex_le(a, b),
        lex_le(b, a),
    ensures
        a == b,
    decreases a.len(),
{
    if a.len() == 0 || b.len() == 0 {
        assert(a =~= b);
    } else {
        lemma_lex_le_antisymmetric(a.drop_first(), b.drop_first());
        assert(a =~= seq![a[0]] + a.drop_first());
        assert(b =~= seq![b[0]] + b.drop_first());
    }
}

/// What comes before a name comes before all that the name comes before.
pub proof fn lemma_lex_le_transitive(a: Seq<char>, b: Seq<char>, c: Seq<char>)
    requires
        lex_le(a, b),
        lex_le(b, c),
    ensures
        lex_le(a, c),
    decreases a.len(),
{
    if a.len() > 0 && b.len() > 0 && c.len() > 0 && a[0] == b[0] && b[0] == c[0] {
        lemma_lex_le_transitive(a.drop_first(), b.drop_first(), c.drop_first());
    }
}

/// Of two names one comes before the other.
pub proof fn lemma_lex_le_total(a: Seq<char>, b: Seq<char>)
    ensures
        lex_le(a, b) || lex_le(b, a),
    decreases a.len(),
{
    if a.len() > 0 && b.len() > 0 {
        if a[0] == b[0] {
            lemma_lex_le_total(a.drop_first(), b.drop_first());
        }
    }
}

/// A set of names has one ascending order and no other: the order in which
/// the files are loaded is fixed by their names.
pub proof fn law_ordering_is_unique(a: Seq<Seq<char>>, b: Seq<Seq<char>>, names: Seq<Seq<char>>)
    requires
        is_ordering_of(a, names),
        is_ordering_of(b, names),
    ensures
        a == b,
{
    let leq = |x: Seq<char>, y: Seq<char>| lex_le(x, y);
    assert forall|x: Seq<char>| #[trigger] leq(x, x) by {
        lemma_lex_le_reflexive(x);
    }
    assert forall|x: Seq<char>, y: Seq<char>| #[trigger] leq(x, y) && #[trigger] leq(y, x) implies x
        == y by {
        lemma_lex_le_antisymmetric(x, y);
    }
    assert forall|x: Seq<char>, y: Seq<char>, z: Seq<char>| #[trigger]
        leq(x, y) && #[trigger] leq(y, z) implies leq(x, z) by {
        lemma_lex_le_transitive(x, y, z);
    }
    assert forall|x: Seq<char>, y: Seq<char>| #[trigger] leq(x, y) || #[trigger] leq(y, x) by {
        lemma_lex_le_total(x, y);
    }
    assert(vstd::relations::total_ordering(leq));
    assert(vstd::relations::sorted_by(a, leq));
    assert(vstd::relations::sorted_by(b, leq));
    vstd::seq_lib::lemma_sorted_unique(a, b, leq);
}

/// What is pending depends on the names and the index alone: however the
/// directory lists its entries, and however often it is looked at, the
/// same files are pending in the same order.
pub proof fn law_pending_is_determined(
    a: Seq<Seq<char>>,
    b: Seq<Seq<char>>,
    names: Seq<Seq<char>>,
    index: u32,
)
    requires
        is_ordering_of(a, names),
        is_ordering_of(b, names),
    ensures
        pending_from(a, index) == pending_from(b, index),
{
    law_ordering_is_unique(a, b, names);
}

/// Once the index has passed the last file nothing is pending.
pub proof fn law_nothing_pending_behind_last_file(
    sorted: Seq<Seq<char>>,
    names: Seq<Seq<char>>,
    index: u32,
)
    requires
        is_ordering_of(sorted, names),
        index - 1 >= names.len(),
    ensures
        pending_from(sorted, index).len() == 0,
{
    sorted.to_multiset_ensures();
    names.to_multiset_ensures();
}

/// The number of files still to be loaded among `names`, given where to
/// resume.
pub open spec fn pending_count(names: Seq<Seq<char>>, cursor: Option<u32>) -> nat {
    match cursor {
        None => 0,
        Some(index) => if index == 0 || index - 1 >= csv_names(names).len() {
            0
        } else {
            (csv_names(names).len() - (index - 1)) as nat
        },
    }
}

/// Puts the names in ascending order.
///
/// Trusted: `<[String]>::sort` of std, which orders a slice ascending and
/// keeps every element, together with the order that std documents for
/// strings: by their bytes, which is the order of their characters.
#[verifier::external_body]
pub(crate) fn sort_names(names: &mut Vec<String>)
    ensures
        is_ordering_of(names_view(final(names)@), names_view(old(names)@)),
{
    names.sort()
}

/// Whether the path names a CSV file.
pub fn has_csv_extension(name: &str) -> (r: bool)
    ensures
        r == is_csv_name(name@),
{
    proof {
        reveal_strlit(".csv");
    }
    if !ends_with(name, ".csv") {
        return false;
    }
    let n: usize = name.unicode_len();
    n > 4 && name.get_char(n - 5) != '/'
}

/// The CSV files among `listing`, in the order of `listing`.
pub fn keep_csv(listing: &Vec<String>) -> (kept: Vec<String>)
    ensures
        names_view(kept@) == csv_names(names_view(listing@)),
{
    let ghost names = names_view(listing@);
    let mut kept: Vec<String> = Vec::new();
    let mut i: usize = 0;
    assert(names_view(kept@) =~= csv_names(names.take(0)));
    while i < listing.len()
        invariant
            i <= listing.len(),
            names == names_view(listing@),
            names_view(kept@) == csv_names(names.take(i as int)),
        decreases listing.len() - i,
    {
        assert(names.take(i + 1).drop_last() =~= names.take(i as int));
        assert(names.take(i + 1).last() == listing@[i as int]@);
        if has_csv_extension(listing[i].as_str()) {
            kept.push(listing[i].clone());
            assert(names_view(kept@) =~= csv_names(names.take(i + 1)));
        }
        i += 1;
    }
    assert(names.take(i as int) =~= names);
    kept
}

/// The files of a directory that are still to be loaded, in the order in
/// which they are to be loaded: the CSV files of `listing` in ascending
/// order, without the `index - 1` first ones, which have been loaded.
/// Without a cursor nothing is pending.
pub fn pending_files(listing: &Vec<String>, cursor: Option<u32>) -> (pending: Vec<String>)
    ensures
        cursor is None ==> pending@.len() == 0,
        cursor matches Some(index) ==> exists|sorted: Seq<Seq<char>>| #[trigger]
            is_ordering_of(sorted, csv_names(names_view(listing@))) && names_view(pending@)
                == pending_from(sorted, index),
        cursor matches Some(index) ==> (index == 0 || index - 1 >= csv_names(
            names_view(listing@),
        ).len() ==> pending@.len() == 0),
        pending@.len() == pending_count(names_view(listing@), cursor),
{
    let mut pending: Vec<String> = Vec::new();
    let index = match cursor {
        None => {
            return pending;
        },
        Some(index) => index,
    };
    let mut sorted = keep_csv(listing);
    sort_names(&mut sorted);
    let ghost order = names_view(sorted@);
    proof {
        order.to_multiset_ensures();
        csv_names(names_view(listing@)).to_multiset_ensures();
        assert(order.len() == csv_names(names_view(listing@)).len());
    }
    if index == 0 || (index - 1) as usize >= sorted.len() {
        assert(names_view(pending@) =~= pending_from(order, index));
        return pending;
    }
    let first: usize = (index - 1) as usize;
    let mut i: usize = first;
    while i < sorted.len()
        invariant
            first <= i <= sorted.len(),
            order == names_view(sorted@),
            order.len() == sorted@.len(),
            pending@.len() == i - first,
            names_view(pending@) == order.subrange(first as int, i as int),
        decreases sorted.len() - i,
    {
        let ghost before = names_view(pending@);
        pending.push(sorted[i].clone());
        i += 1;
        assert forall|k: int| 0 <= k < i - first implies names_view(pending@)[k] == order[first
            + k] by {
            if k < i - 1 - first {
                assert(before[k] == order.subrange(first as int, i - 1)[k]);
            }
        }
        assert(names_view(pending@) =~= order.subrange(first as int, i as int));
    }
    pending
}

/// Accepts a path as input only if it is a directory.
pub fn check_directory(path: &str, is_dir: bool) -> (r: Result<(), PackError>)
    ensures
        is_dir ==> r is Ok,
        !is_dir ==> (r matches Err(PackError::BadInput(text)) && text@ == path@),
{
    if is_dir {
        Ok(())
    } else {
        Err(PackError::BadInput(path.to_owned()))
    }
}

} // verus!
