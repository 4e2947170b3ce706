use vstd::prelude::*;
use crate::store::StoreError;

verus! {

/// A member of a list object, as far as the query reads it.
pub enum Field {
    Str(String),
    /// An array, by its number of elements.
    Array(usize),
    Other,
}

/// The view of a `Field`.
pub enum FieldV {
    Str(Seq<char>),
    Array(nat),
    Other,
}

/// One member of a list object: its key and its value.
pub struct Entry {
    pub key: String,
    pub value: Field,
}

/// An element of the lists document: an object with its members, or
/// anything else.
pub enum Item {
    Object(Vec<Entry>),
    Other,
}

/// The view of an `Item`.
pub enum ItemV {
    Object(Seq<(Seq<char>, FieldV)>),
    Other,
}

impl View for Field {
    type V = FieldV;

    open spec fn view(&self) -> FieldV {
        match self {
            Field::Str(s) => FieldV::Str(s@),
            Field::Array(n) => FieldV::Array(*n as nat),
            Field::Other => FieldV::Other,
        }
    }
}

impl View for Entry {
    type V = (Seq<char>, FieldV);

    open spec fn view(&self) -> (Seq<char>, FieldV) {
        (self.key@, self.value@)
    }
}

impl View for Item {
    type V = ItemV;

    open spec fn view(&self) -> ItemV {
        match self {
            Item::Object(es) => ItemV::Object(es@.map_values(|e: Entry| e@)),
            Item::Other => ItemV::Other,
        }
    }
}

/// The elements of a JSON array text, as serde_json reads them; `None` where
/// the text is not a JSON array.
pub uninterp spec fn json_items_of(text: Seq<char>) -> Option<Seq<ItemV>>;

/// The view of a sequence of items.
pub open spec fn items_view(items: Seq<Item>) -> Seq<ItemV> {
    items.map_values(|i: Item| i@)
}

/// The value of the first member under `key`.
pub open spec fn field_of(fields: Seq<(Seq<char>, FieldV)>, key: Seq<char>) -> Option<FieldV>
    decreases fields.len(),
{
    if fields.len() == 0 {
        None
    } else if fields[0].0 == key {
        Some(fields[0].1)
    } else {
        field_of(fields.drop_first(), key)
    }
}

/// The member naming a list.
pub open spec fn id_key() -> Seq<char> {
    seq!['i', 'd']
}

/// The member holding a list's todos.
pub open spec fn todos_key() -> Seq<char> {
    seq!['t', 'o', 'd', 'o', 's']
}

/// An element is the list `id` with todos: an object whose `id` member is the
/// string `id` and whose `todos` member is a non-empty array.
pub open spec fn item_has_todos(item: ItemV, id: Seq<char>) -> bool {
    match item {
        ItemV::Object(fs) => {
            &&& field_of(fs, id_key()) == Some(FieldV::Str(id))
            &&& match field_of(fs, todos_key()) {
                Some(FieldV::Array(n)) => n > 0,
                _ => false,
            }
        },
        ItemV::Other => false,
    }
}

/// Some element of the document is the list `id` with todos.
pub open spec fn has_todos(items: Seq<ItemV>, id: Seq<char>) -> bool {
    exists|i: int| 0 <= i < items.len() && #[trigger] item_has_todos(items[i], id)
}

/// Relies on serde_json::from_str into a `Vec<serde_json::Value>`: the text
/// is read as a JSON array, and each element is moved into an `Item`; a
/// parse failure comes back as serde_json's error text.
#[verifier::external_body]
fn parse_items(text: &str) -> (r: Result<Vec<Item>, String>)
    ensures
        match r {
            Ok(items) => json_items_of(text@) == Some(items_view(items@)),
            Err(_) => json_items_of(text@) is None,
        },
{
    serde_json::from_str::<Vec<serde_json::Value>>(text).map_err(|e| e.to_string()).map(|vs| {
        vs.into_iter().map(|v| match v {
            serde_json::Value::Object(m) => Item::Object(m.into_iter().map(|(key, x)| match x {
                serde_json::Value::String(s) => Entry { key, value: Field::Str(s) },
                serde_json::Value::Array(a) => Entry { key, value: Field::Array(a.len()) },
                _ => Entry { key, value: Field::Other },
            }).collect()),
            _ => Item::Other,
        }).collect()
    })
}

proof fn lemma_field_of_skip(fields: Seq<(Seq<char>, FieldV)>, key: Seq<char>, i: int)
    requires
        0 <= i < fields.len(),
        fields[i].0 != key,
    ensures
        field_of(fields.subrange(i, fields.len() as int), key) == field_of(
            fields.subrange(i + 1, fields.len() as int),
            key,
        ),
{
    assert(fields.subrange(i, fields.len() as int).drop_first() =~= fields.subrange(
        i + 1,
        fields.len() as int,
    ));
}

/// The value of the first member under `key`.
pub fn find_field<'a>(entries: &'a Vec<Entry>, key: &String) -> (r: Option<&'a Field>)
    ensures
        field_of(entries@.map_values(|e: Entry| e@), key@) == match r {
            Some(f) => Some(f@),
            None => None::<FieldV>,
        },
{
    let ghost fs = entries@.map_values(|e: Entry| e@);
    let mut i: usize = 0;
    proof {
        assert(fs.subrange(0, fs.len() as int) =~= fs);
    }
    while i < entries.len()
        invariant
            i <= entries.len(),
            fs == entries@.map_values(|e: Entry| e@),
            field_of(fs, key@) == field_of(fs.subrange(i as int, fs.len() as int), key@),
        decreases entries.len() - i,
    {
        if entries[i].key == *key {
            return Some(&entries[i].value);
        }
        proof {
            lemma_field_of_skip(fs, key@, i as int);
        }
        i = i + 1;
    }
    None
}

/// Whether an element is the list `id` with todos.
pub fn item_is_list_with_todos(item: &Item, id: &String) -> (r: bool)
    ensures
        r == item_has_todos(item@, id@),
{
    match item {
        Item::Other => false,
        Item::Object(entries) => {
            proof {
                reveal_strlit("id");
                reveal_strlit("todos");
            }
            let id_name = String::from_str("id");
            let todos_name = String::from_str("todos");
            assert(id_name@ =~= id_key());
            assert(todos_name@ =~= todos_key());
            assert(item@ == ItemV::Object(entries@.map_values(|e: Entry| e@)));
            let id_matches = match find_field(entries, &id_name) {
                Some(Field::Str(s)) => *s == *id,
                _ => false,
            };
            let has_some = match find_field(entries, &todos_name) {
                Some(Field::Array(n)) => *n > 0,
                _ => false,
            };
            id_matches && has_some
        },
    }
}

/// Whether some element of a parsed lists document is the list `id` with
/// todos.
pub fn list_has_todos(items: &Vec<Item>, id: &String) -> (r: bool)
    ensures
        r == has_todos(items_view(items@), id@),
{
    let ghost v = items_view(items@);
    let mut i: usize = 0;
    while i < items.len()
        invariant
            i <= items.len(),
            v == items_view(items@),
            forall|j: int| 0 <= j < i ==> !item_has_todos(#[trigger] v[j], id@),
        decreases items.len() - i,
    {
        if item_is_list_with_todos(&items[i], id) {
            assert(item_has_todos(v[i as int], id@));
            return true;
        }
        i = i + 1;
    }
    false
}

/// Whether the lists document `text` holds the list `id` with todos; a
/// parse error where `text` is not a JSON array.
pub fn has_todos_in_list(text: &str, id: &String) -> (r: Result<bool, StoreError>)
    ensures
        match json_items_of(text@) {
            Some(items) => r == Ok::<bool, StoreError>(has_todos(items, id@)),
            None => r matches Err(StoreError::Parse(_)),
        },
{
    match parse_items(text) {
        Ok(items) => Ok(list_has_todos(&items, id)),
        Err(m) => Err(StoreError::Parse(m)),
    }
}

} // verus!
