//! A JSON object whose members are all strings, as an identity provider answers.
//!
//! Its contents are a map from member name to member value. Setting a member that is
//! already present replaces its value, as inserting into a hash map does.

use vstd::prelude::*;

verus! {

/// The members that `entries` sets, in order, later settings replacing earlier ones.
pub closed spec fn members_of(entries: Seq<(String, String)>) -> Map<Seq<char>, Seq<char>>
    decreases entries.len(),
{
    if entries.len() == 0 {
        Map::empty()
    } else {
        members_of(entries.drop_last()).insert(entries.last().0@, entries.last().1@)
    }
}

/// A JSON object of string members.
///
/// It keeps its members in a `Vec` of (name, value) pairs rather than in a
/// `HashMap<String, String>`: vstd specifies `HashMap` only for key types that obey its
/// key model, which vstd establishes for integers and `bool` but not for `String`, and
/// establishing it for `String` would take an `assume`. Lookups search from the latest
/// setting back, so the contents are exactly those of a map filled by the same inserts.
pub struct JsonObject {
    entries: Vec<(String, String)>,
}

impl View for JsonObject {
    type V = Map<Seq<char>, Seq<char>>;

    closed spec fn view(&self) -> Map<Seq<char>, Seq<char>> {
        members_of(self.entries@)
    }
}

/// The value of `key` is that of its last setting.
proof fn lemma_last_setting(entries: Seq<(String, String)>, i: int, key: Seq<char>)
    requires
        0 <= i < entries.len(),
        entries[i].0@ == key,
        forall|j: int| i < j < entries.len() ==> (#[trigger] entries[j]).0@ != key,
    ensures
        members_of(entries).contains_key(key),
        members_of(entries)[key] == entries[i].1@,
    decreases entries.len(),
{
    if i < entries.len() - 1 {
        let prefix = entries.drop_last();
        assert forall|j: int| i < j < prefix.len() implies (#[trigger] prefix[j]).0@ != key by {
            assert(prefix[j] == entries[j]);
        }
        lemma_last_setting(prefix, i, key);
        assert(entries[entries.len() - 1].0@ != key);
    }
}

/// A key that no entry sets is not a member.
proof fn lemma_never_set(entries: Seq<(String, String)>, key: Seq<char>)
    requires
        forall|j: int| 0 <= j < entries.len() ==> (#[trigger] entries[j]).0@ != key,
    ensures
        !members_of(entries).contains_key(key),
    decreases entries.len(),
{
    if entries.len() > 0 {
        let prefix = entries.drop_last();
        assert forall|j: int| 0 <= j < prefix.len() implies (#[trigger] prefix[j]).0@ != key by {
            assert(prefix[j] == entries[j]);
        }
        lemma_never_set(prefix, key);
        assert(entries[entries.len() - 1].0@ != key);
    }
}

impl JsonObject {
    /// The object with no members.
    pub fn new() -> (obj: JsonObject)
        ensures
            obj@ == Map::<Seq<char>, Seq<char>>::empty(),
    {
        JsonObject { entries: Vec::new() }
    }

    /// Sets member `key` to `value`, replacing any earlier value of `key`.
    pub fn insert(&mut self, key: String, value: String)
        ensures
            final(self)@ == old(self)@.insert(key@, value@),
    {
        let ghost before = self.entries@;
        self.entries.push((key, value));
        assert(self.entries@.drop_last() =~= before);
    }

    /// The value of member `key`, or `None` where the object has no such member.
    pub fn get(&self, key: &String) -> (value: Option<String>)
        ensures
            match value {
                Some(v) => self@.contains_key(key@) && v@ == self@[key@],
                None => !self@.contains_key(key@),
            },
    {
        let mut i: usize = self.entries.len();
        while i > 0
            invariant
                i <= self.entries@.len(),
                forall|j: int| i <= j < self.entries@.len() ==> (#[trigger] self.entries@[j]).0@ != key@,
            decreases i,
        {
            i = i - 1;
            if self.entries[i].0 == *key {
                proof {
                    lemma_last_setting(self.entries@, i as int, key@);
                }
                return Some(self.entries[i].1.clone());
            }
        }
        proof {
            lemma_never_set(self.entries@, key@);
        }
        None
    }
}

/// Setting a member and then reading it gives the value set, and leaves every other
/// member as it was.
pub proof fn lemma_get_after_insert(
    before: JsonObject,
    after: JsonObject,
    key: Seq<char>,
    value: Seq<char>,
    other: Seq<char>,
)
    requires
        after@ == before@.insert(key, value),
    ensures
        after@.contains_key(key),
        after@[key] == value,
        other != key ==> (after@.contains_key(other) == before@.contains_key(other)),
        other != key && before@.contains_key(other) ==> after@[other] == before@[other],
{
}

} // verus!
