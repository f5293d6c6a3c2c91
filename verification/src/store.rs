//! What the key-value store is asked and what it answers, as plain values.

use vstd::prelude::*;

verus! {

/// A typed attribute value of a stored record. Only the variants that can
/// stand for a scalar are told apart; sets, lists, maps and binary data are
/// `Other`.
#[derive(Debug, PartialEq, Eq)]
pub enum AttributeValue {
    /// A string.
    S(String),
    /// A number, in its decimal text form.
    N(String),
    /// A boolean.
    Bool(bool),
    /// Any other type of value.
    Other,
}

/// The mathematical value of an [`AttributeValue`].
pub enum AttributeValueView {
    S(Seq<char>),
    N(Seq<char>),
    Bool(bool),
    Other,
}

impl View for AttributeValue {
    type V = AttributeValueView;

    open spec fn view(&self) -> AttributeValueView {
        match self {
            AttributeValue::S(s) => AttributeValueView::S(s@),
            AttributeValue::N(n) => AttributeValueView::N(n@),
            AttributeValue::Bool(b) => AttributeValueView::Bool(*b),
            AttributeValue::Other => AttributeValueView::Other,
        }
    }
}

impl AttributeValue {
    /// The string inside an `S` value; any other value is handed back.
    pub fn as_s(&self) -> (r: Result<&String, &AttributeValue>)
        ensures
            match r {
                Ok(s) => self@ == AttributeValueView::S(s@),
                Err(other) => !(self@ is S) && other == self,
            },
    {
        match self {
            AttributeValue::S(s) => Ok(s),
            _ => Err(self),
        }
    }
}

/// One named attribute of a record.
#[derive(Debug)]
struct Attribute {
    name: String,
    value: AttributeValue,
}

/// Whether entry `i` of `attrs` carries the name `name`.
spec fn named_at(attrs: Seq<Attribute>, i: int, name: Seq<char>) -> bool {
    0 <= i < attrs.len() && attrs[i].name@ == name
}

/// Whether no two entries of `attrs` share a name.
spec fn names_distinct(attrs: Seq<Attribute>) -> bool {
    forall|i: int, j: int| 0 <= i < j < attrs.len() ==> attrs[i].name@ != attrs[j].name@
}

/// Some index at which `name` stands in `attrs`, if it stands there at all.
spec fn index_of(attrs: Seq<Attribute>, name: Seq<char>) -> int {
    choose|i: int| named_at(attrs, i, name)
}

/// The map from names to values that `attrs` spells out.
spec fn attrs_map(attrs: Seq<Attribute>) -> Map<Seq<char>, AttributeValueView> {
    Map::new(
        |name: Seq<char>| exists|i: int| named_at(attrs, i, name),
        |name: Seq<char>| attrs[index_of(attrs, name)].value@,
    )
}

/// Where names are distinct, a name is found at exactly one index.
proof fn lemma_index_of_unique(attrs: Seq<Attribute>, i: int, name: Seq<char>)
    requires
        names_distinct(attrs),
        named_at(attrs, i, name),
    ensures
        index_of(attrs, name) == i,
        attrs_map(attrs).contains_key(name),
        attrs_map(attrs)[name] == attrs[i].value@,
{
    let j = index_of(attrs, name);
    assert(named_at(attrs, j, name));
    if j < i {
        assert(attrs[j].name@ != attrs[i].name@);
    } else if i < j {
        assert(attrs[i].name@ != attrs[j].name@);
    }
}

/// A stored record: a finite map from attribute names to typed values.
#[derive(Debug)]
pub struct Item {
    attrs: Vec<Attribute>,
}

impl View for Item {
    type V = Map<Seq<char>, AttributeValueView>;

    closed spec fn view(&self) -> Map<Seq<char>, AttributeValueView> {
        attrs_map(self.attrs@)
    }
}

impl Item {
    #[verifier::type_invariant]
    spec fn names_stand_once(&self) -> bool {
        names_distinct(self.attrs@)
    }

    /// A record without attributes.
    pub fn new() -> (item: Item)
        ensures
            item@ == Map::<Seq<char>, AttributeValueView>::empty(),
    {
        let item = Item { attrs: Vec::new() };
        assert(item@ =~= Map::<Seq<char>, AttributeValueView>::empty());
        item
    }

    /// The value stored under `name`, if the record has that attribute.
    pub fn get(&self, name: &str) -> (found: Option<&AttributeValue>)
        ensures
            match found {
                Some(value) => self@.contains_key(name@) && self@[name@] == value@,
                None => !self@.contains_key(name@),
            },
    {
        proof {
            use_type_invariant(self);
        }
        let key = name.to_owned();
        let mut i: usize = 0;
        while i < self.attrs.len()
            invariant
                i <= self.attrs.len(),
                key@ == name@,
                names_distinct(self.attrs@),
                forall|j: int| 0 <= j < i ==> !named_at(self.attrs@, j, name@),
            decreases self.attrs.len() - i,
        {
            if self.attrs[i].name == key {
                proof {
                    lemma_index_of_unique(self.attrs@, i as int, name@);
                }
                return Some(&self.attrs[i].value);
            }
            i += 1;
        }
        None
    }

    /// Stores `value` under `name`, in place of any value that stood there.
    pub fn insert(&mut self, name: String, value: AttributeValue)
        ensures
            final(self)@ == old(self)@.insert(name@, value@),
    {
        proof {
            use_type_invariant(&*self);
        }
        let ghost before = self.attrs@;
        let mut attrs: Vec<Attribute> = Vec::new();
        core::mem::swap(&mut self.attrs, &mut attrs);
        let mut i: usize = 0;
        let mut at: Option<usize> = None;
        while i < attrs.len() && at.is_none()
            invariant
                i <= attrs.len(),
                attrs@ == before,
                at is None ==> forall|j: int| 0 <= j < i ==> !named_at(before, j, name@),
                at is Some ==> named_at(before, at->Some_0 as int, name@),
            decreases attrs.len() - i + (if at is None { 1int } else { 0int }),
        {
            if attrs[i].name == name {
                at = Some(i);
            } else {
                i += 1;
            }
        }
        let entry = Attribute { name, value };
        match at {
            Some(found) => {
                proof {
                    lemma_replace(before, found as int, entry);
                }
                attrs.set(found, entry);
            },
            None => {
                proof {
                    lemma_append(before, entry);
                }
                attrs.push(entry);
            },
        }
        self.attrs = attrs;
    }
}

/// The store settings that a lookup needs, fixed when the service starts.
#[derive(Debug, PartialEq, Eq)]
pub struct ResolverConfig {
    /// The name of the table that holds the redirect records.
    pub table_name: String,
}

/// A point read: the record of `table_name` whose attribute `key_attribute`
/// is the string `key`.
#[derive(Debug, PartialEq, Eq)]
pub struct GetItemQuery {
    pub table_name: String,
    pub key_attribute: String,
    pub key: String,
}

/// The mathematical value of a [`GetItemQuery`].
pub struct GetItemQueryView {
    pub table_name: Seq<char>,
    pub key_attribute: Seq<char>,
    pub key: Seq<char>,
}

impl View for GetItemQuery {
    type V = GetItemQueryView;

    open spec fn view(&self) -> GetItemQueryView {
        GetItemQueryView {
            table_name: self.table_name@,
            key_attribute: self.key_attribute@,
            key: self.key@,
        }
    }
}

/// What the store hands back for a point read that it could carry out: the
/// record under the key, or nothing where no record stands under it.
#[derive(Debug)]
pub struct GetItemOutput {
    pub item: Option<Item>,
}

impl View for GetItemOutput {
    type V = Option<Map<Seq<char>, AttributeValueView>>;

    open spec fn view(&self) -> Option<Map<Seq<char>, AttributeValueView>> {
        match self.item {
            Some(item) => Some(item@),
            None => None,
        }
    }
}

/// How a point read ended: with an answer, or without one because the store
/// could not be reached or refused the read.
#[derive(Debug)]
pub enum StoreReply {
    /// The store carried out the read.
    Answered(GetItemOutput),
    /// The read itself failed.
    Failed,
}

/// The mathematical value of a [`StoreReply`].
pub enum StoreReplyView {
    Answered(Option<Map<Seq<char>, AttributeValueView>>),
    Failed,
}

impl View for StoreReply {
    type V = StoreReplyView;

    open spec fn view(&self) -> StoreReplyView {
        match self {
            StoreReply::Answered(output) => StoreReplyView::Answered(output@),
            StoreReply::Failed => StoreReplyView::Failed,
        }
    }
}

/// Replacing the value under a name that stands in `attrs` updates the map
/// at that name and keeps the names distinct.
proof fn lemma_replace(attrs: Seq<Attribute>, i: int, entry: Attribute)
    requires
        names_distinct(attrs),
        named_at(attrs, i, entry.name@),
    ensures
        names_distinct(attrs.update(i, entry)),
        attrs_map(attrs.update(i, entry)) == attrs_map(attrs).insert(entry.name@, entry.value@),
{
    let after = attrs.update(i, entry);
    assert(names_distinct(after)) by {
        assert forall|a: int, b: int| 0 <= a < b < after.len() implies after[a].name@
            != after[b].name@ by {
            assert(after[a].name@ == attrs[a].name@);
            assert(after[b].name@ == attrs[b].name@);
        }
    }
    let want = attrs_map(attrs).insert(entry.name@, entry.value@);
    assert forall|name: Seq<char>| attrs_map(after).contains_key(name) <==> want.contains_key(
        name,
    ) by {
        if attrs_map(after).contains_key(name) {
            let j = choose|j: int| named_at(after, j, name);
            assert(named_at(attrs, j, name));
        }
        if want.contains_key(name) {
            if name == entry.name@ {
                assert(named_at(after, i, name));
            } else {
                let j = choose|j: int| named_at(attrs, j, name);
                assert(named_at(after, j, name));
            }
        }
    }
    assert forall|name: Seq<char>| attrs_map(after).contains_key(name) implies attrs_map(
        after,
    )[name] == want[name] by {
        let j = choose|j: int| named_at(after, j, name);
        lemma_index_of_unique(after, j, name);
        if j != i {
            assert(named_at(attrs, j, name));
            lemma_index_of_unique(attrs, j, name);
        }
    }
    assert(attrs_map(after) =~= want);
}

/// Appending an entry under a name that does not stand in `attrs` adds it to
/// the map and keeps the names distinct.
proof fn lemma_append(attrs: Seq<Attribute>, entry: Attribute)
    requires
        names_distinct(attrs),
        forall|j: int| 0 <= j < attrs.len() ==> !named_at(attrs, j, entry.name@),
    ensures
        names_distinct(attrs.push(entry)),
        attrs_map(attrs.push(entry)) == attrs_map(attrs).insert(entry.name@, entry.value@),
{
    let after = attrs.push(entry);
    let last = attrs.len() as int;
    assert(names_distinct(after)) by {
        assert forall|a: int, b: int| 0 <= a < b < after.len() implies after[a].name@
            != after[b].name@ by {
            if b == last {
                assert(!named_at(attrs, a, entry.name@));
            }
        }
    }
    let want = attrs_map(attrs).insert(entry.name@, entry.value@);
    assert forall|name: Seq<char>| attrs_map(after).contains_key(name) <==> want.contains_key(
        name,
    ) by {
        if attrs_map(after).contains_key(name) {
            let j = choose|j: int| named_at(after, j, name);
            if j != last {
                assert(named_at(attrs, j, name));
            }
        }
        if want.contains_key(name) {
            if name == entry.name@ {
                assert(named_at(after, last, name));
            } else {
                let j = choose|j: int| named_at(attrs, j, name);
                assert(named_at(after, j, name));
            }
        }
    }
    assert forall|name: Seq<char>| attrs_map(after).contains_key(name) implies attrs_map(
        after,
    )[name] == want[name] by {
        let j = choose|j: int| named_at(after, j, name);
        lemma_index_of_unique(after, j, name);
        if j != last {
            assert(named_at(attrs, j, name));
            lemma_index_of_unique(attrs, j, name);
        }
    }
    assert(attrs_map(after) =~= want);
}

} // verus!
