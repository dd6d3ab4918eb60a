//! The tags that mark the volumes of one deployment.

use crate::model::lemma_push_deep_view;
use crate::text::text_eq;
use vstd::prelude::*;
use vstd::string::*;

verus! {

/// One tag: a key and the value required for it.
#[derive(Debug, PartialEq, Eq)]
pub struct Tag {
    pub key: String,
    pub value: String,
}

/// What a [`Tag`] stands for.
pub struct TagModel {
    pub key: Seq<char>,
    pub value: Seq<char>,
}

impl DeepView for Tag {
    type V = TagModel;

    open spec fn deep_view(&self) -> TagModel {
        TagModel { key: self.key@, value: self.value@ }
    }
}

impl View for Tag {
    type V = TagModel;

    open spec fn view(&self) -> TagModel {
        self.deep_view()
    }
}

/// No key occurs twice.
pub open spec fn distinct_keys(tags: Seq<TagModel>) -> bool {
    forall|i: int, j: int| 0 <= i < j < tags.len() ==> tags[i].key != tags[j].key
}

/// Some tag has this key.
pub open spec fn has_key(tags: Seq<TagModel>, key: Seq<char>) -> bool {
    exists|i: int| 0 <= i < tags.len() && #[trigger] tags[i].key == key
}

/// The place of the tag with this key, where there is one.
pub open spec fn position(tags: Seq<TagModel>, key: Seq<char>) -> int {
    choose|i: int| 0 <= i < tags.len() && #[trigger] tags[i].key == key
}

/// The keys in use.
pub open spec fn key_set(tags: Seq<TagModel>) -> Set<Seq<char>> {
    tags.map_values(|t: TagModel| t.key).to_set()
}

/// A mapping from tag keys to values that keeps the order in which the keys
/// were first inserted.
#[derive(Debug, PartialEq, Eq)]
pub struct TagMap {
    entries: Vec<Tag>,
}

impl View for TagMap {
    type V = Seq<TagModel>;

    closed spec fn view(&self) -> Seq<TagModel> {
        self.entries.deep_view()
    }
}

impl DeepView for TagMap {
    type V = Seq<TagModel>;

    open spec fn deep_view(&self) -> Seq<TagModel> {
        self@
    }
}

impl TagMap {
    /// Every value of this type maps each key once.
    #[verifier::type_invariant]
    pub open spec fn wf(&self) -> bool {
        distinct_keys(self@)
    }

    /// The empty mapping.
    pub fn new() -> (r: TagMap)
        ensures
            r@ == Seq::<TagModel>::empty(),
    {
        let r = TagMap { entries: Vec::new() };
        r
    }

    /// The number of keys.
    pub fn len(&self) -> (n: usize)
        ensures
            n == self@.len(),
    {
        self.entries.len()
    }

    /// Whether there is no key.
    pub fn is_empty(&self) -> (r: bool)
        ensures
            r == (self@.len() == 0),
    {
        self.entries.len() == 0
    }

    /// The tag at place `i`, counted in order of insertion.
    pub fn entry(&self, i: usize) -> (r: &Tag)
        requires
            i < self@.len(),
        ensures
            r@ == self@[i as int],
    {
        &self.entries[i]
    }

    /// A copy of the tags, in their order.
    pub fn to_vec(&self) -> (tags: Vec<Tag>)
        ensures
            tags.deep_view() == self@,
    {
        let n = self.entries.len();
        let mut tags: Vec<Tag> = Vec::new();
        let mut i: usize = 0;
        while i < n
            invariant
                i <= n,
                n == self@.len(),
                tags.deep_view() == self@.take(i as int),
            decreases n - i,
        {
            let tag = Tag { key: self.entries[i].key.clone(), value: self.entries[i].value.clone() };
            proof {
                lemma_push_deep_view(tags, tag);
            }
            tags.push(tag);
            i += 1;
        }
        tags
    }

    /// The place of `key`, or the number of tags where it has none.
    fn find(&self, key: &str) -> (i: usize)
        ensures
            i <= self@.len(),
            i < self@.len() ==> self@[i as int].key == key@,
            i == self@.len() ==> !has_key(self@, key@),
    {
        let mut i: usize = 0;
        while i < self.entries.len()
            invariant
                i <= self.entries.len(),
                forall|j: int| 0 <= j < i ==> self@[j].key != key@,
            decreases self.entries.len() - i,
        {
            if text_eq(self.entries[i].key.as_str(), key) {
                return i;
            }
            i += 1;
        }
        i
    }

    /// The value of `key`, where it has one.
    pub fn get(&self, key: &str) -> (r: Option<&String>)
        ensures
            r is Some <==> has_key(self@, key@),
            r matches Some(v) ==> v@ == self@[position(self@, key@)].value,
    {
        proof {
            use_type_invariant(self);
        }
        let i = self.find(key);
        if i < self.entries.len() {
            Some(&self.entries[i].value)
        } else {
            None
        }
    }

    /// Maps `key` to `value`. A key that was present keeps its place and
    /// hands back the value it had; a new key goes to the end.
    pub fn insert(&mut self, key: String, value: String) -> (r: Option<String>)
        ensures
            has_key(old(self)@, key@) ==> final(self)@ == old(self)@.update(
                position(old(self)@, key@),
                TagModel { key: key@, value: value@ },
            ) && r.deep_view() == Some(old(self)@[position(old(self)@, key@)].value),
            !has_key(old(self)@, key@) ==> final(self)@ == old(self)@.push(
                TagModel { key: key@, value: value@ },
            ) && r is None,
    {
        proof {
            use_type_invariant(&*self);
        }
        let i = self.find(key.as_str());
        let mut tag = Tag { key, value };
        let mut entries: Vec<Tag> = Vec::new();
        core::mem::swap(&mut self.entries, &mut entries);
        if i < entries.len() {
            entries.set_and_swap(i, &mut tag);
            assert(entries.deep_view() =~= old(self)@.update(
                i as int,
                TagModel { key: key@, value: value@ },
            ));
            core::mem::swap(&mut self.entries, &mut entries);
            Some(tag.value)
        } else {
            entries.push(tag);
            assert(entries.deep_view() =~= old(self)@.push(TagModel { key: key@, value: value@ }));
            core::mem::swap(&mut self.entries, &mut entries);
            None
        }
    }
}

impl Clone for TagMap {
    fn clone(&self) -> (r: TagMap)
        ensures
            r@ == self@,
    {
        proof {
            use_type_invariant(self);
        }
        let entries = self.to_vec();
        TagMap { entries }
    }
}

/// A mapping with distinct keys has as many keys as it has tags.
pub proof fn lemma_key_count(tags: Seq<TagModel>)
    requires
        distinct_keys(tags),
    ensures
        key_set(tags).finite(),
        key_set(tags).len() == tags.len(),
{
    let keys = tags.map_values(|t: TagModel| t.key);
    keys.unique_seq_to_set();
}

} // verus!
