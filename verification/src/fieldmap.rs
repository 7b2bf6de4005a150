//! The field map of a template: for each column of the source, the key of
//! the destination field that takes it.

use crate::template::{Field, Template};
use std::collections::HashMap;
use vstd::prelude::*;

verus! {

broadcast use vstd::std_specs::hash::group_hash_axioms;

/// `s` without the white space at its two ends, as `str::trim` returns it.
pub uninterp spec fn trimmed(s: Seq<char>) -> Seq<char>;

/// `str::trim`: the text without leading and trailing white space.
#[verifier::external_body]
fn trim_text(s: &str) -> (inner: &str)
    ensures
        inner@ == trimmed(s@),
{
    s.trim()
}

/// The map that pairs the first `count` source fields with the destination
/// fields at the same places. Of two source fields with one index the later
/// one counts.
pub open spec fn paired(primary: Seq<Field>, secondary: Seq<Field>, count: nat) -> Map<usize, Seq<char>>
    decreases count,
{
    if count == 0 {
        Map::empty()
    } else {
        paired(primary, secondary, (count - 1) as nat).insert(
            primary[count - 1].index,
            secondary[count - 1].key@,
        )
    }
}

/// How many source fields have a destination field at their place.
pub open spec fn paired_count(primary: Seq<Field>, secondary: Seq<Field>) -> nat {
    if primary.len() <= secondary.len() {
        primary.len()
    } else {
        secondary.len()
    }
}

/// A map from indices to strings, with each string taken by its view.
pub open spec fn by_view(entries: Map<usize, String>) -> Map<usize, Seq<char>> {
    Map::new(|index: usize| entries.contains_key(index), |index: usize| entries[index]@)
}

pub struct FieldMap {
    pub src_index_to_dest: HashMap<usize, String>,
    pub split_delim: Option<String>,
}

impl FieldMap {
    /// The destination keys by source index, as mathematical values.
    pub open spec fn destinations(&self) -> Map<usize, Seq<char>> {
        by_view(self.src_index_to_dest@)
    }

    /// The field map of `template`.
    ///
    /// Each source field that has a destination field at its place is mapped,
    /// by its index, to that field's key. The split delimiter is the
    /// template's split option, unless that is blank.
    pub fn from_template(template: &Template) -> (map: FieldMap)
        ensures
            map.destinations() == paired(
                template.primary_fields.fields@,
                template.secondary_fields.fields@,
                paired_count(template.primary_fields.fields@, template.secondary_fields.fields@),
            ),
            trimmed(template.split_option@).len() == 0 ==> map.split_delim is None,
            trimmed(template.split_option@).len() != 0 ==> (map.split_delim matches Some(delim) && delim@
                == template.split_option@),
    {
        let primary = &template.primary_fields.fields;
        let secondary = &template.secondary_fields.fields;
        let count = if primary.len() <= secondary.len() {
            primary.len()
        } else {
            secondary.len()
        };
        let mut src_index_to_dest: HashMap<usize, String> = HashMap::new();
        let mut i: usize = 0;
        proof {
            assert(by_view(src_index_to_dest@) =~= paired(primary@, secondary@, 0));
        }
        while i < count
            invariant
                i <= count,
                count <= primary@.len(),
                count <= secondary@.len(),
                by_view(src_index_to_dest@) == paired(primary@, secondary@, i as nat),
            decreases count - i,
        {
            let ghost before = src_index_to_dest@;
            let key = secondary[i].key.clone();
            src_index_to_dest.insert(primary[i].index, key);
            proof {
                assert(by_view(src_index_to_dest@) =~= by_view(before).insert(
                    primary@[i as int].index,
                    secondary@[i as int].key@,
                ));
            }
            i += 1;
        }
        let inner = trim_text(template.split_option.as_str());
        let split_delim = FieldMap::delimiter_from(&template.split_option, inner);
        FieldMap { src_index_to_dest, split_delim }
    }

    /// The split delimiter for a split option, given what is left of the
    /// option once the white space at its ends is taken away: the option as
    /// it stands, unless nothing is left.
    pub fn delimiter_from(split_option: &String, inner: &str) -> (delimiter: Option<String>)
        ensures
            inner@.len() == 0 ==> delimiter is None,
            inner@.len() != 0 ==> (delimiter matches Some(delim) && delim@ == split_option@),
    {
        if inner.is_empty() {
            None
        } else {
            Some(split_option.clone())
        }
    }
}

} // verus!
