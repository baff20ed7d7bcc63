//! The untyped document that events are classified from and encoded to.
use vstd::prelude::*;

verus! {

/// A structurally parsed JSON-like document.
///
/// A number is held as its decimal text, so that no precision is lost and no
/// floating-point value is needed. An object is a list of entries; lookups use
/// the first entry with a given key.
#[derive(Debug)]
pub enum Json {
    Null,
    Bool(bool),
    Number(String),
    Str(String),
    Array(Vec<Json>),
    Object(Vec<(String, Json)>),
}

/// The value of the first entry of `entries` whose key is `key`.
pub open spec fn lookup(entries: Seq<(String, Json)>, key: Seq<char>) -> Option<Json>
    decreases entries.len(),
{
    if entries.len() == 0 {
        None
    } else if entries[0].0@ == key {
        Some(entries[0].1)
    } else {
        lookup(entries.drop_first(), key)
    }
}

/// Appending an entry leaves every earlier lookup as it was, and makes the new
/// entry visible only for a key that was absent before.
pub proof fn lemma_lookup_push(entries: Seq<(String, Json)>, e: (String, Json), key: Seq<char>)
    ensures
        lookup(entries.push(e), key) == (if lookup(entries, key) is Some {
            lookup(entries, key)
        } else if e.0@ == key {
            Some(e.1)
        } else {
            None
        }),
    decreases entries.len(),
{
    let pushed = entries.push(e);
    if entries.len() > 0 {
        assert(pushed[0] == entries[0]);
        assert(pushed.drop_first() =~= entries.drop_first().push(e));
        lemma_lookup_push(entries.drop_first(), e, key);
        assert(lookup(pushed, key) == if pushed[0].0@ == key {
            Some(pushed[0].1)
        } else {
            lookup(pushed.drop_first(), key)
        });
    } else {
        assert(pushed[0] == e);
        assert(pushed.drop_first().len() == 0);
        assert(lookup(pushed.drop_first(), key) is None);
        assert(lookup(entries, key) is None);
    }
}

/// An object entry whose key is `key`.
pub fn entry(key: &str, value: Json) -> (r: (String, Json))
    ensures
        r.0@ == key@,
        r.1 == value,
{
    (key.to_owned(), value)
}

/// Appends an entry to an object's entry list.
pub fn push_entry(entries: &mut Vec<(String, Json)>, key: &str, value: Json)
    ensures
        final(entries)@.len() == old(entries)@.len() + 1,
        forall|q: Seq<char>|
            #![trigger lookup(final(entries)@, q)]
            lookup(final(entries)@, q) == (if lookup(old(entries)@, q) is Some {
                lookup(old(entries)@, q)
            } else if key@ == q {
                Some(value)
            } else {
                None
            }),
{
    let e = entry(key, value);
    let ghost before = entries@;
    entries.push(e);
    assert forall|q: Seq<char>| #![trigger lookup(entries@, q)]
        lookup(entries@, q) == (if lookup(before, q) is Some {
            lookup(before, q)
        } else if key@ == q {
            Some(value)
        } else {
            None
        }) by {
        lemma_lookup_push(before, e, q);
    }
}

/// Texts of different lengths differ.
pub proof fn lemma_texts_differ(a: Seq<char>, b: Seq<char>)
    requires
        a.len() != b.len(),
    ensures
        a != b,
{
}

/// Texts that differ at one position differ.
pub proof fn lemma_texts_differ_at(a: Seq<char>, b: Seq<char>, at: int)
    requires
        0 <= at < a.len(),
        0 <= at < b.len(),
        a[at] != b[at],
    ensures
        a != b,
{
}

/// Whether two strings hold the same text.
pub fn same_text(a: &str, b: &str) -> (r: bool)
    ensures
        r == (a@ == b@),
{
    let x: String = a.to_owned();
    let y: String = b.to_owned();
    x == y
}

impl Json {
    /// The value stored under `key`, when `self` is an object that has it.
    pub open spec fn field(self, key: Seq<char>) -> Option<Json> {
        match self {
            Json::Object(entries) => lookup(entries@, key),
            _ => None,
        }
    }

    /// Whether `self` is an object with an entry for `key`.
    pub open spec fn has(self, key: Seq<char>) -> bool {
        self.field(key) is Some
    }

    /// The text stored under `key`, when it is a string.
    pub open spec fn text(self, key: Seq<char>) -> Option<Seq<char>> {
        match self.field(key) {
            Some(Json::Str(s)) => Some(s@),
            _ => None,
        }
    }

    /// Whether `key` is absent, null, or a string.
    pub open spec fn optional_text(self, key: Seq<char>) -> bool {
        match self.field(key) {
            None => true,
            Some(Json::Null) => true,
            Some(Json::Str(_)) => true,
            _ => false,
        }
    }

    /// Whether `key` is absent, null, or a boolean.
    pub open spec fn optional_bool(self, key: Seq<char>) -> bool {
        match self.field(key) {
            None => true,
            Some(Json::Null) => true,
            Some(Json::Bool(_)) => true,
            _ => false,
        }
    }

    /// Whether `key` holds an object.
    pub open spec fn has_object(self, key: Seq<char>) -> bool {
        self.field(key) matches Some(Json::Object(_))
    }

    /// Whether `key` is absent, null, or a string.
    pub fn check_optional_text(&self, key: &str) -> (r: bool)
        ensures
            r == self.optional_text(key@),
    {
        match self.get(key) {
            None => true,
            Some(Json::Null) => true,
            Some(Json::Str(_)) => true,
            _ => false,
        }
    }

    /// Whether `key` is absent, null, or a boolean.
    pub fn check_optional_bool(&self, key: &str) -> (r: bool)
        ensures
            r == self.optional_bool(key@),
    {
        match self.get(key) {
            None => true,
            Some(Json::Null) => true,
            Some(Json::Bool(_)) => true,
            _ => false,
        }
    }

    /// Whether `key` holds an object.
    pub fn check_object(&self, key: &str) -> (r: bool)
        ensures
            r == self.has_object(key@),
    {
        match self.get(key) {
            Some(Json::Object(_)) => true,
            _ => false,
        }
    }

    /// The value stored under `key`, taking the document apart.
    pub fn take(self, key: &str) -> (r: Option<Json>)
        ensures
            r == self.field(key@),
    {
        match self {
            Json::Object(entries) => {
                let ghost all = entries@;
                let mut rest = entries;
                let mut found: Option<Json> = None;
                assert(all.subrange(all.len() as int, all.len() as int).len() == 0);
                while rest.len() > 0
                    invariant
                        rest@.len() <= all.len(),
                        rest@ == all.subrange(0, rest@.len() as int),
                        found == lookup(all.subrange(rest@.len() as int, all.len() as int), key@),
                    decreases rest@.len(),
                {
                    let ghost i = rest@.len() - 1;
                    let (k, v) = rest.pop().unwrap();
                    let ghost tail = all.subrange(i, all.len() as int);
                    assert(tail[0] == all[i]);
                    assert(tail.drop_first() =~= all.subrange(i + 1, all.len() as int));
                    if same_text(k.as_str(), key) {
                        found = Some(v);
                    }
                    assert(rest@ =~= all.subrange(0, rest@.len() as int));
                }
                assert(all.subrange(0, all.len() as int) =~= all);
                found
            },
            _ => None,
        }
    }

    /// The value stored under `key`, when `self` is an object that has it.
    pub fn get(&self, key: &str) -> (r: Option<&Json>)
        ensures
            r is Some == self.has(key@),
            r matches Some(v) ==> self.field(key@) == Some(*v),
    {
        match self {
            Json::Object(entries) => {
                let n = entries.len();
                let mut i: usize = 0;
                assert(entries@.subrange(0, n as int) =~= entries@);
                while i < n
                    invariant
                        n == entries@.len(),
                        self.field(key@) == lookup(entries@, key@),
                        i <= n,
                        lookup(entries@, key@) == lookup(entries@.subrange(i as int, n as int), key@),
                    decreases n - i,
                {
                    let ghost rest = entries@.subrange(i as int, n as int);
                    assert(rest[0] == entries@[i as int]);
                    if same_text(entries[i].0.as_str(), key) {
                        assert(lookup(rest, key@) == Some(rest[0].1));
                        return Some(&entries[i].1);
                    }
                    assert(rest.drop_first() =~= entries@.subrange(i + 1, n as int));
                    i = i + 1;
                }
                assert(entries@.subrange(n as int, n as int).len() == 0);
                None
            },
            _ => None,
        }
    }

    /// Whether `self` is an object with an entry for `key`.
    pub fn contains(&self, key: &str) -> (r: bool)
        ensures
            r == self.has(key@),
    {
        self.get(key).is_some()
    }

    /// The text stored under `key`, when it is a string.
    pub fn get_str(&self, key: &str) -> (r: Option<&String>)
        ensures
            r is Some == self.text(key@) is Some,
            r matches Some(s) ==> self.text(key@) == Some(s@),
    {
        match self.get(key) {
            Some(Json::Str(s)) => Some(s),
            _ => None,
        }
    }
}

} // verus!
