//! City and region records as the store hands them out.

use vstd::prelude::*;
use crate::coordinates::Coordinates;

verus! {

/// One localized name of a record: the language key and the name under it.
#[derive(Debug)]
pub struct NameEntry {
    pub key: String,
    pub value: String,
}

/// A city as read from the store.
#[derive(Debug)]
pub struct ElasticCity {
    pub id: u64,
    pub is_featured: bool,
    /// ISO 3166-1 alpha-2 country code, or a custom 4-letter code.
    pub country_iso: String,
    /// Localized names; need not cover every language.
    pub names: Vec<NameEntry>,
    /// Id of the region that the city belongs to.
    pub region_id: u64,
    /// Representative point of the city.
    pub centroid: Coordinates,
}

/// A region as read from the store.
#[derive(Debug)]
pub struct ElasticRegion {
    pub id: u64,
    /// Localized names; need not cover every language.
    pub names: Vec<NameEntry>,
}

/// Whether no two entries of a name list share a key, so that the list is a
/// mapping from language key to name.
pub open spec fn keys_unique(names: Seq<NameEntry>) -> bool {
    forall|i: int, j: int| 0 <= i < j < names.len() ==> names[i].key@ != names[j].key@
}

impl ElasticCity {
    /// A city's names map each key to one name.
    pub open spec fn wf(&self) -> bool {
        keys_unique(self.names@)
    }
}

impl ElasticRegion {
    /// A region's names map each key to one name.
    pub open spec fn wf(&self) -> bool {
        keys_unique(self.names@)
    }
}

/// The name stored under `key`: the value of the first entry with that key,
/// which is the only one where the keys are unique.
pub open spec fn lookup_name(names: Seq<NameEntry>, key: Seq<char>) -> Option<Seq<char>>
    decreases names.len(),
{
    if names.len() == 0 {
        None
    } else if names[0].key@ == key {
        Some(names[0].value@)
    } else {
        lookup_name(names.drop_first(), key)
    }
}

/// Finds the name stored under `key` among `names`.
pub fn find_name<'a>(names: &'a Vec<NameEntry>, key: &String) -> (r: Option<&'a String>)
    ensures
        match lookup_name(names@, key@) {
            Some(v) => r matches Some(s) && s@ == v,
            None => r is None,
        },
{
    let mut i: usize = 0;
    assert(names@.skip(0) =~= names@);
    while i < names.len()
        invariant
            i <= names@.len(),
            lookup_name(names@, key@) == lookup_name(names@.skip(i as int), key@),
        decreases names@.len() - i,
    {
        assert(names@.skip(i as int).drop_first() =~= names@.skip(i as int + 1));
        if names[i].key == *key {
            return Some(&names[i].value);
        }
        i = i + 1;
    }
    None
}

/// Checks that no two entries of `names` share a key.
pub fn names_unique(names: &Vec<NameEntry>) -> (r: bool)
    ensures
        r == keys_unique(names@),
{
    let mut j: usize = 0;
    while j < names.len()
        invariant
            j <= names@.len(),
            forall|a: int, b: int| 0 <= a < b < j ==> names@[a].key@ != names@[b].key@,
        decreases names@.len() - j,
    {
        let mut i: usize = 0;
        while i < j
            invariant
                i <= j < names@.len(),
                forall|a: int, b: int| 0 <= a < b < j ==> names@[a].key@ != names@[b].key@,
                forall|a: int| 0 <= a < i ==> names@[a].key@ != names@[j as int].key@,
            decreases j - i,
        {
            if names[i].key == names[j].key {
                return false;
            }
            i = i + 1;
        }
        j = j + 1;
    }
    true
}

/// Under unique keys a name list is a mapping: the name found under `key` is
/// the value of the entry with that key, and none is found where no entry has it.
pub proof fn lemma_lookup_is_mapping(names: Seq<NameEntry>, key: Seq<char>)
    requires
        keys_unique(names),
    ensures
        forall|i: int|
            0 <= i < names.len() && #[trigger] names[i].key@ == key ==> lookup_name(names, key)
                == Some(names[i].value@),
        lookup_name(names, key) is None <==> forall|i: int|
            0 <= i < names.len() ==> #[trigger] names[i].key@ != key,
    decreases names.len(),
{
    if names.len() > 0 {
        let rest = names.drop_first();
        assert forall|a: int, b: int| 0 <= a < b < rest.len() implies rest[a].key@ != rest[b].key@ by {
            assert(rest[a] == names[a + 1] && rest[b] == names[b + 1]);
        }
        lemma_lookup_is_mapping(rest, key);
        assert forall|i: int| 0 < i < names.len() implies names[i] == rest[i - 1] by {}
    }
}

} // verus!
