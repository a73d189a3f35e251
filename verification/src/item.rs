//! The storage representation of an entity: a stored item with its two key
//! attributes and the optional attributes that tell the kinds apart.
//!
//! Attribute names in the table: `PK`, `SK`, `password`, `story_text`,
//! `user_id`, `comment_text`. An item may carry more attributes than its
//! kind needs; decoding looks only at the ones it knows.

use vstd::prelude::*;
use crate::model::{Entity, EntityView};
use crate::pairs::{lookup, value_of};
use crate::text::{copy, copy_optional, optional_text};
use vstd::string::StringExecFns;

verus! {

/// A stored item. Every item has both keys; each other attribute may be
/// missing.
#[derive(Debug, Clone, PartialEq, Eq)]
pub struct Item {
    pub pk: String,
    pub sk: String,
    pub password: Option<String>,
    pub story_text: Option<String>,
    pub user_id: Option<String>,
    pub comment_text: Option<String>,
}

/// An item as a mathematical value.
pub struct ItemView {
    pub pk: Seq<char>,
    pub sk: Seq<char>,
    pub password: Option<Seq<char>>,
    pub story_text: Option<Seq<char>>,
    pub user_id: Option<Seq<char>>,
    pub comment_text: Option<Seq<char>>,
}

impl View for Item {
    type V = ItemView;

    open spec fn view(&self) -> ItemView {
        ItemView {
            pk: self.pk@,
            sk: self.sk@,
            password: optional_text(self.password),
            story_text: optional_text(self.story_text),
            user_id: optional_text(self.user_id),
            comment_text: optional_text(self.comment_text),
        }
    }
}

impl DeepView for Item {
    type V = ItemView;

    open spec fn deep_view(&self) -> ItemView {
        self@
    }
}

impl ItemView {
    /// Partition and sort key.
    pub open spec fn key(self) -> (Seq<char>, Seq<char>) {
        (self.pk, self.sk)
    }
}

/// The item that stores an entity: its keys and exactly the attributes of
/// its kind.
pub open spec fn encode(entity: EntityView) -> ItemView {
    match entity {
        EntityView::User { pk, sk, password } => ItemView {
            pk,
            sk,
            password: Some(password),
            story_text: None,
            user_id: None,
            comment_text: None,
        },
        EntityView::Story { pk, sk, story_text } => ItemView {
            pk,
            sk,
            password: None,
            story_text: Some(story_text),
            user_id: None,
            comment_text: None,
        },
        EntityView::Comment { pk, sk, user_id, comment_text } => ItemView {
            pk,
            sk,
            password: None,
            story_text: None,
            user_id: Some(user_id),
            comment_text: Some(comment_text),
        },
    }
}

/// The entity that an item stores, told by the attributes it has. The kinds
/// are tried in the order user, story, comment, and the first whose
/// attributes are all there is taken; an item that fits none stores no
/// entity.
pub open spec fn decode(item: ItemView) -> Option<EntityView> {
    if item.password is Some {
        Some(EntityView::User { pk: item.pk, sk: item.sk, password: item.password->0 })
    } else if item.story_text is Some {
        Some(EntityView::Story { pk: item.pk, sk: item.sk, story_text: item.story_text->0 })
    } else if item.user_id is Some && item.comment_text is Some {
        Some(
            EntityView::Comment {
                pk: item.pk,
                sk: item.sk,
                user_id: item.user_id->0,
                comment_text: item.comment_text->0,
            },
        )
    } else {
        None
    }
}

/// Every item of `items` stores an entity.
pub open spec fn all_decode(items: Seq<ItemView>) -> bool {
    forall|i: int| 0 <= i < items.len() ==> (#[trigger] decode(items[i])) is Some
}

/// The entities that `items` store, in order.
pub open spec fn decode_all(items: Seq<ItemView>) -> Seq<EntityView> {
    Seq::new(items.len(), |i: int| decode(items[i])->0)
}

/// Encoding an entity and decoding the item gives the entity back, equal in
/// every field.
pub proof fn decode_inverts_encode(entity: EntityView)
    ensures
        decode(encode(entity)) == Some(entity),
{
}

/// Encoding keeps the key.
pub proof fn encode_keeps_key(entity: EntityView)
    ensures
        encode(entity).key() == entity.key(),
{
}

impl Item {
    /// A copy of the item.
    pub fn duplicate(&self) -> (out: Item)
        ensures
            out@ == self@,
    {
        Item {
            pk: copy(&self.pk),
            sk: copy(&self.sk),
            password: copy_optional(&self.password),
            story_text: copy_optional(&self.story_text),
            user_id: copy_optional(&self.user_id),
            comment_text: copy_optional(&self.comment_text),
        }
    }

    /// Partition and sort key, copied.
    pub fn key(&self) -> (key: (String, String))
        ensures
            key@ == self@.key(),
    {
        (copy(&self.pk), copy(&self.sk))
    }
}

/// The one pair of a named attribute that is there; nothing for one that
/// is missing.
pub open spec fn named(name: Seq<char>, value: Option<Seq<char>>) -> Seq<(Seq<char>, Seq<char>)> {
    match value {
        Some(text) => seq![(name, text)],
        None => Seq::empty(),
    }
}

/// The attributes of an item as the table holds them, name by name: the
/// keys as `PK` and `SK`, then each other attribute that is there.
pub open spec fn attributes_spec(item: ItemView) -> Seq<(Seq<char>, Seq<char>)> {
    seq![("PK"@, item.pk), ("SK"@, item.sk)] + named("password"@, item.password) + named(
        "story_text"@,
        item.story_text,
    ) + named("user_id"@, item.user_id) + named("comment_text"@, item.comment_text)
}

/// The item that named attributes make up. Both keys must be there;
/// attributes with other names are passed over.
pub open spec fn from_attributes_spec(attributes: Seq<(Seq<char>, Seq<char>)>) -> Option<ItemView> {
    match (value_of(attributes, "PK"@), value_of(attributes, "SK"@)) {
        (Some(pk), Some(sk)) => Some(
            ItemView {
                pk,
                sk,
                password: value_of(attributes, "password"@),
                story_text: value_of(attributes, "story_text"@),
                user_id: value_of(attributes, "user_id"@),
                comment_text: value_of(attributes, "comment_text"@),
            },
        ),
        _ => None,
    }
}

/// Writing an item out as named attributes and reading them back gives
/// the item.
pub proof fn attributes_read_back(item: ItemView)
    ensures
        from_attributes_spec(attributes_spec(item)) == Some(item),
{
    reveal_strlit("PK");
    reveal_strlit("SK");
    reveal_strlit("password");
    reveal_strlit("story_text");
    reveal_strlit("user_id");
    reveal_strlit("comment_text");
    let names = seq!["PK"@, "SK"@, "password"@, "story_text"@, "user_id"@, "comment_text"@];
    assert(names[0][0] == 'P' && names[1][0] == 'S' && names[2][0] == 'p' && names[3][0] == 's'
        && names[4][0] == 'u' && names[5][0] == 'c');
    let keys = seq![("PK"@, item.pk), ("SK"@, item.sk)];
    let first = named("password"@, item.password);
    let second = named("story_text"@, item.story_text);
    let third = named("user_id"@, item.user_id);
    let fourth = named("comment_text"@, item.comment_text);
    assert forall|name: Seq<char>|
        value_of(attributes_spec(item), name) == (if name == "PK"@ {
            Some(item.pk)
        } else if name == "SK"@ {
            Some(item.sk)
        } else if name == "password"@ {
            item.password
        } else if name == "story_text"@ {
            item.story_text
        } else if name == "user_id"@ {
            item.user_id
        } else if name == "comment_text"@ {
            item.comment_text
        } else {
            None
        }) by {
        crate::pairs::value_of_joined(keys + first + second + third, fourth, name);
        crate::pairs::value_of_joined(keys + first + second, third, name);
        crate::pairs::value_of_joined(keys + first, second, name);
        crate::pairs::value_of_joined(keys, first, name);
        reveal_with_fuel(value_of, 3);
    }
}

/// An entity that is encoded, written out as named attributes, read back
/// and decoded is the entity it was, equal in every field.
pub proof fn stored_entity_reads_back(entity: EntityView)
    ensures
        from_attributes_spec(attributes_spec(encode(entity))) == Some(encode(entity)),
        decode(from_attributes_spec(attributes_spec(encode(entity)))->0) == Some(entity),
{
    attributes_read_back(encode(entity));
    decode_inverts_encode(entity);
}

/// Appends the pair of a named attribute that is there.
fn push_named(attributes: &mut Vec<(String, String)>, name: &str, value: Option<String>)
    ensures
        final(attributes).deep_view() == old(attributes).deep_view() + named(
            name@,
            optional_text(value),
        ),
{
    match value {
        Some(text) => {
            attributes.push((String::from_str(name), text));
        },
        None => {},
    }
}

impl Item {
    /// The attributes of the item, name by name.
    pub fn attributes(self) -> (attributes: Vec<(String, String)>)
        ensures
            attributes.deep_view() == attributes_spec(self@),
    {
        let mut attributes: Vec<(String, String)> = Vec::new();
        attributes.push((String::from_str("PK"), self.pk));
        attributes.push((String::from_str("SK"), self.sk));
        push_named(&mut attributes, "password", self.password);
        push_named(&mut attributes, "story_text", self.story_text);
        push_named(&mut attributes, "user_id", self.user_id);
        push_named(&mut attributes, "comment_text", self.comment_text);
        attributes
    }

    /// The item that named attributes make up, or `None` where a key is
    /// missing.
    pub fn from_attributes(attributes: &Vec<(String, String)>) -> (item: Option<Item>)
        ensures
            crate::request::optional_item(item) == from_attributes_spec(attributes.deep_view()),
    {
        let pk = match lookup(attributes, "PK") {
            Some(text) => text,
            None => {
                return None;
            },
        };
        let sk = match lookup(attributes, "SK") {
            Some(text) => text,
            None => {
                return None;
            },
        };
        Some(
            Item {
                pk,
                sk,
                password: lookup(attributes, "password"),
                story_text: lookup(attributes, "story_text"),
                user_id: lookup(attributes, "user_id"),
                comment_text: lookup(attributes, "comment_text"),
            },
        )
    }
}

/// The item that stores `entity`.
pub fn to_item(entity: Entity) -> (item: Item)
    ensures
        item@ == encode(entity@),
{
    match entity {
        Entity::User { pk, sk, password } => Item {
            pk,
            sk,
            password: Some(password),
            story_text: None,
            user_id: None,
            comment_text: None,
        },
        Entity::Story { pk, sk, story_text } => Item {
            pk,
            sk,
            password: None,
            story_text: Some(story_text),
            user_id: None,
            comment_text: None,
        },
        Entity::Comment { pk, sk, user_id, comment_text } => Item {
            pk,
            sk,
            password: None,
            story_text: None,
            user_id: Some(user_id),
            comment_text: Some(comment_text),
        },
    }
}

/// The entity that `item` stores, or `None` where its attributes fit no
/// kind.
pub fn from_item(item: Item) -> (entity: Option<Entity>)
    ensures
        match entity {
            Some(e) => decode(item@) == Some(e@),
            None => decode(item@) is None,
        },
{
    let Item { pk, sk, password, story_text, user_id, comment_text } = item;
    match password {
        Some(password) => Some(Entity::User { pk, sk, password }),
        None => match story_text {
            Some(story_text) => Some(Entity::Story { pk, sk, story_text }),
            None => match (user_id, comment_text) {
                (Some(user_id), Some(comment_text)) => Some(
                    Entity::Comment { pk, sk, user_id, comment_text },
                ),
                _ => None,
            },
        },
    }
}

/// The entities that `items` store, in order; `None` where any of them
/// stores none.
pub fn from_items(items: Vec<Item>) -> (entities: Option<Vec<Entity>>)
    ensures
        entities is Some <==> all_decode(items.deep_view()),
        entities is Some ==> entities->0.deep_view() == decode_all(items.deep_view()),
{
    let ghost given = items.deep_view();
    let mut rest = items;
    let mut reversed: Vec<Entity> = Vec::new();
    // Items are taken from the back, so the entities come out reversed.
    while rest.len() > 0
        invariant
            given == items.deep_view(),
            rest.deep_view() == given.take(rest.len() as int),
            reversed.len() + rest.len() == given.len(),
            forall|i: int|
                0 <= i < reversed.len() ==> decode(given[given.len() - 1 - i]) == Some(
                    #[trigger] reversed[i]@,
                ),
        decreases rest.len(),
    {
        let ghost before = rest.deep_view();
        let item = rest.pop().unwrap();
        proof {
            assert(item@ == before[before.len() - 1]);
        }
        match from_item(item) {
            Some(entity) => {
                reversed.push(entity);
            },
            None => {
                return None;
            },
        }
    }
    let mut entities: Vec<Entity> = Vec::new();
    while reversed.len() > 0
        invariant
            reversed.len() + entities.len() == given.len(),
            forall|i: int|
                0 <= i < reversed.len() ==> decode(given[given.len() - 1 - i]) == Some(
                    #[trigger] reversed[i]@,
                ),
            forall|i: int|
                0 <= i < entities.len() ==> decode(given[i]) == Some(#[trigger] entities[i]@),
        decreases reversed.len(),
    {
        let entity = reversed.pop().unwrap();
        entities.push(entity);
    }
    proof {
        assert forall|i: int| 0 <= i < given.len() implies (#[trigger] decode(given[i])) is Some by {
            assert(decode(given[i]) == Some(entities[i]@));
        }
    }
    Some(entities)
}

} // verus!
