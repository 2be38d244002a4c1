//! Documents as lists of keys and values, and the search for a key.

use vstd::prelude::*;

use crate::error::OptionsError;
use crate::names::Format;
use crate::text::{eq_exact, eq_ignoring_case, same_ignoring_case};

verus! {

/// Whether a key of a document is the given name. The structured format
/// compares exactly, the flat format without regard to the case of letters.
pub open spec fn key_matches(key: Seq<char>, name: Seq<char>, format: Format) -> bool {
    match format {
        Format::Structured => key == name,
        Format::Flat => same_ignoring_case(key, name),
    }
}

/// How often a name occurs among the keys of a document.
pub open spec fn occurrences<V>(
    entries: Seq<(Seq<char>, V)>,
    name: Seq<char>,
    format: Format,
) -> nat
    decreases entries.len(),
{
    if entries.len() == 0 {
        0
    } else {
        let before = occurrences(entries.drop_last(), name, format);
        if key_matches(entries.last().0, name, format) {
            before + 1
        } else {
            before
        }
    }
}

/// The value of the first entry of a document whose key is the given name.
pub open spec fn first_match<V>(
    entries: Seq<(Seq<char>, V)>,
    name: Seq<char>,
    format: Format,
) -> Option<V>
    decreases entries.len(),
{
    if entries.len() == 0 {
        None
    } else {
        match first_match(entries.drop_last(), name, format) {
            Some(v) => Some(v),
            None => if key_matches(entries.last().0, name, format) {
                Some(entries.last().1)
            } else {
                None
            },
        }
    }
}

/// What a document holds under a name: nothing, one value, or too many.
pub open spec fn lookup<V>(
    entries: Seq<(Seq<char>, V)>,
    name: Seq<char>,
    format: Format,
) -> Result<Option<V>, OptionsError> {
    if occurrences(entries, name, format) > 1 {
        Err(OptionsError::DuplicateKey)
    } else {
        Ok(first_match(entries, name, format))
    }
}

/// Compares a key of a document with an ASCII name, as the format wants it.
pub(crate) fn key_is(key: &str, name: &str, format: Format) -> (r: bool)
    requires
        name.is_ascii(),
    ensures
        r == key_matches(key@, name@, format),
{
    match format {
        Format::Structured => eq_exact(key, name),
        Format::Flat => eq_ignoring_case(key, name),
    }
}

/// Searches a document for the one value under a name.
pub(crate) fn find<'a, V: DeepView>(
    entries: &'a Vec<(String, V)>,
    name: &str,
    format: Format,
) -> (r: Result<Option<&'a V>, OptionsError>)
    requires
        name.is_ascii(),
    ensures
        match r {
            Ok(Some(v)) => lookup(entries.deep_view(), name@, format) == Ok::<
                Option<V::V>,
                OptionsError,
            >(Some(v.deep_view())),
            Ok(None) => lookup(entries.deep_view(), name@, format) == Ok::<
                Option<V::V>,
                OptionsError,
            >(None),
            Err(e) => lookup(entries.deep_view(), name@, format) == Err::<
                Option<V::V>,
                OptionsError,
            >(e),
        },
{
    let ghost all = entries.deep_view();
    let mut found: Option<&'a V> = None;
    let mut i: usize = 0;
    while i < entries.len()
        invariant
            0 <= i <= entries.len(),
            all == entries.deep_view(),
            all.len() == entries.len(),
            name.is_ascii(),
            occurrences(all.take(i as int), name@, format) <= 1,
            match found {
                Some(v) => first_match(all.take(i as int), name@, format) == Some(v.deep_view())
                    && occurrences(all.take(i as int), name@, format) == 1,
                None => first_match(all.take(i as int), name@, format) is None && occurrences(
                    all.take(i as int),
                    name@,
                    format,
                ) == 0,
            },
        decreases entries.len() - i,
    {
        let entry = &entries[i];
        let hit = key_is(entry.0.as_str(), name, format);
        proof {
            let next = all.take(i + 1);
            assert(next.drop_last() =~= all.take(i as int));
            assert(next.last() == all[i as int]);
            assert(all[i as int] == entries@[i as int].deep_view());
        }
        if hit {
            if found.is_some() {
                proof {
                    lemma_occurrences_grow(all, i + 1, name@, format);
                }
                return Err(OptionsError::DuplicateKey);
            }
            found = Some(&entry.1);
        }
        i = i + 1;
    }
    assert(all.take(i as int) =~= all);
    Ok(found)
}

/// A name that does not occur in a document is the key of no entry.
pub proof fn lemma_absent_key<V>(entries: Seq<(Seq<char>, V)>, name: Seq<char>, format: Format)
    requires
        occurrences(entries, name, format) == 0,
    ensures
        forall|i: int|
            0 <= i < entries.len() ==> !key_matches((#[trigger] entries[i]).0, name, format),
    decreases entries.len(),
{
    if entries.len() > 0 {
        lemma_absent_key(entries.drop_last(), name, format);
        assert forall|i: int| 0 <= i < entries.len() implies !key_matches(
            (#[trigger] entries[i]).0,
            name,
            format,
        ) by {
            if i < entries.len() - 1 {
                assert(entries.drop_last()[i] == entries[i]);
            }
        }
    }
}

/// A name occurs in a document at least as often as in a beginning of it.
pub proof fn lemma_occurrences_grow<V>(
    entries: Seq<(Seq<char>, V)>,
    k: int,
    name: Seq<char>,
    format: Format,
)
    requires
        0 <= k <= entries.len(),
    ensures
        occurrences(entries.take(k), name, format) <= occurrences(entries, name, format),
    decreases entries.len(),
{
    if k == entries.len() {
        assert(entries.take(k) =~= entries);
    } else {
        lemma_occurrences_grow(entries.drop_last(), k, name, format);
        assert(entries.drop_last().take(k) =~= entries.take(k));
    }
}

} // verus!
