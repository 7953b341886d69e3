//! Field-name prefixes for objects flattened into their parent.
//!
//! A nested object's keys are written with a prefix (`block_number` for a
//! block's `number`), except keys that start with one of a few ignored
//! prefixes, which keep their name so that they still name their context.

use vstd::prelude::*;

verus! {

pub open spec fn is_prefix_of(p: Seq<char>, s: Seq<char>) -> bool {
    p.len() <= s.len() && s.subrange(0, p.len() as int) == p
}

pub fn starts_with(s: &str, p: &str) -> (r: bool)
    ensures
        r == is_prefix_of(p@, s@),
{
    let n = s.unicode_len();
    let m = p.unicode_len();
    if m > n {
        return false;
    }
    let mut i: usize = 0;
    while i < m
        invariant
            m == p@.len(),
            n == s@.len(),
            m <= n,
            i <= m,
            forall|j: int| 0 <= j < i ==> s@[j] == p@[j],
        decreases m - i,
    {
        if s.get_char(i) != p.get_char(i) {
            assert(s@.subrange(0, m as int)[i as int] != p@[i as int]);
            return false;
        }
        i = i + 1;
    }
    assert(s@.subrange(0, m as int) =~= p@);
    true
}

/// Key renaming for one flattened object.
#[derive(Clone, Debug)]
pub struct WithPrefix {
    pub prefix: String,
    pub ignored_prefixes: Vec<String>,
}

/// Key renaming for a flattened optional object.
#[derive(Clone, Debug)]
pub struct WithPrefixOption {
    pub prefix: String,
    pub ignored_prefixes: Vec<String>,
}

/// Whether a key starts with one of the ignored prefixes.
pub open spec fn is_ignored(ignored: Seq<String>, key: Seq<char>) -> bool {
    exists|i: int| 0 <= i < ignored.len() && is_prefix_of(#[trigger] ignored[i]@, key)
}

fn find_ignored(ignored: &Vec<String>, key: &str) -> (r: bool)
    ensures
        r == is_ignored(ignored@, key@),
{
    let mut i: usize = 0;
    while i < ignored.len()
        invariant
            i <= ignored@.len(),
            forall|j: int| 0 <= j < i ==> !is_prefix_of(#[trigger] ignored@[j]@, key@),
        decreases ignored@.len() - i,
    {
        if starts_with(key, ignored[i].as_str()) {
            return true;
        }
        i = i + 1;
    }
    false
}

/// The written name of `key`: unchanged when ignored, else prefixed.
fn write_key(prefix: &String, ignored: &Vec<String>, key: &str) -> (r: String)
    ensures
        is_ignored(ignored@, key@) ==> r@ == key@,
        !is_ignored(ignored@, key@) ==> r@ == prefix@ + key@,
{
    if find_ignored(ignored, key) {
        key.to_owned()
    } else {
        let mut r = prefix.clone();
        r.append(key);
        r
    }
}

/// The field that a written key names: unchanged when ignored, stripped of
/// the prefix when it has it, none (a foreign key, skipped) otherwise.
fn read_key(prefix: &String, ignored: &Vec<String>, key: &str) -> (r: Option<String>)
    ensures
        is_ignored(ignored@, key@) ==> (r matches Some(k) && k@ == key@),
        !is_ignored(ignored@, key@) && is_prefix_of(prefix@, key@) ==>
            (r matches Some(k) && k@ == key@.subrange(prefix@.len() as int, key@.len() as int)),
        !is_ignored(ignored@, key@) && !is_prefix_of(prefix@, key@) ==> r is None,
{
    if find_ignored(ignored, key) {
        Some(key.to_owned())
    } else if starts_with(key, prefix.as_str()) {
        let n = key.unicode_len();
        let m = prefix.as_str().unicode_len();
        Some(key.substring_char(m, n).to_owned())
    } else {
        None
    }
}

impl WithPrefix {
    pub fn serialize_key(&self, key: &str) -> (r: String)
        ensures
            is_ignored(self.ignored_prefixes@, key@) ==> r@ == key@,
            !is_ignored(self.ignored_prefixes@, key@) ==> r@ == self.prefix@ + key@,
    {
        write_key(&self.prefix, &self.ignored_prefixes, key)
    }

    pub fn deserialize_key(&self, key: &str) -> (r: Option<String>)
        ensures
            is_ignored(self.ignored_prefixes@, key@) ==> (r matches Some(k) && k@ == key@),
            !is_ignored(self.ignored_prefixes@, key@) && is_prefix_of(self.prefix@, key@) ==>
                (r matches Some(k) && k@ == key@.subrange(self.prefix@.len() as int, key@.len() as int)),
            !is_ignored(self.ignored_prefixes@, key@) && !is_prefix_of(self.prefix@, key@) ==> r is None,
    {
        read_key(&self.prefix, &self.ignored_prefixes, key)
    }
}

impl WithPrefixOption {
    pub fn serialize_key(&self, key: &str) -> (r: String)
        ensures
            is_ignored(self.ignored_prefixes@, key@) ==> r@ == key@,
            !is_ignored(self.ignored_prefixes@, key@) ==> r@ == self.prefix@ + key@,
    {
        write_key(&self.prefix, &self.ignored_prefixes, key)
    }

    /// The field named by the first key of a present object: unchanged when
    /// ignored, else with as many leading characters dropped as the prefix has.
    pub fn first_key(&self, key: &str) -> (r: Option<String>)
        ensures
            is_ignored(self.ignored_prefixes@, key@) ==> (r matches Some(k) && k@ == key@),
            !is_ignored(self.ignored_prefixes@, key@) && self.prefix@.len() <= key@.len() ==>
                (r matches Some(k) && k@ == key@.subrange(self.prefix@.len() as int, key@.len() as int)),
            !is_ignored(self.ignored_prefixes@, key@) && self.prefix@.len() > key@.len() ==> r is None,
    {
        if find_ignored(&self.ignored_prefixes, key) {
            return Some(key.to_owned());
        }
        let n = key.unicode_len();
        let m = self.prefix.as_str().unicode_len();
        if m <= n {
            Some(key.substring_char(m, n).to_owned())
        } else {
            None
        }
    }

    pub fn deserialize_key(&self, key: &str) -> (r: Option<String>)
        ensures
            is_ignored(self.ignored_prefixes@, key@) ==> (r matches Some(k) && k@ == key@),
            !is_ignored(self.ignored_prefixes@, key@) && is_prefix_of(self.prefix@, key@) ==>
                (r matches Some(k) && k@ == key@.subrange(self.prefix@.len() as int, key@.len() as int)),
            !is_ignored(self.ignored_prefixes@, key@) && !is_prefix_of(self.prefix@, key@) ==> r is None,
    {
        read_key(&self.prefix, &self.ignored_prefixes, key)
    }
}

} // verus!
