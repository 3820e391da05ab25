use vstd::prelude::*;

use crate::ident::{is_fresh_id, Nanoid};
use crate::time::{rfc3339_text, Timestamp};

verus! {

/// Who can see a dictionary.
#[derive(Debug, Clone, Copy, PartialEq, Eq, Structural)]
pub enum DictionaryVisibility {
    Public,
    Private,
    Unlisted,
}

impl Default for DictionaryVisibility {
    /// Dictionaries are public unless said otherwise.
    fn default() -> (v: Self)
        ensures
            v == DictionaryVisibility::Public,
    {
        DictionaryVisibility::Public
    }
}

/// The name a visibility is stored and sent under.
pub open spec fn visibility_name(v: DictionaryVisibility) -> Seq<char> {
    match v {
        DictionaryVisibility::Public => "public"@,
        DictionaryVisibility::Private => "private"@,
        DictionaryVisibility::Unlisted => "unlisted"@,
    }
}

impl DictionaryVisibility {
    /// The name this visibility is stored under.
    pub fn as_str(&self) -> (s: &'static str)
        ensures
            s@ == visibility_name(*self),
    {
        match self {
            DictionaryVisibility::Public => "public",
            DictionaryVisibility::Private => "private",
            DictionaryVisibility::Unlisted => "unlisted",
        }
    }
}

/// Distinct visibilities are stored under distinct names, so a stored name tells the
/// visibility back.
pub proof fn law_visibility_names_distinct(a: DictionaryVisibility, b: DictionaryVisibility)
    ensures
        visibility_name(a) == visibility_name(b) ==> a == b,
{
    reveal_strlit("public");
    reveal_strlit("private");
    reveal_strlit("unlisted");
    if a != b && visibility_name(a) == visibility_name(b) {
        assert(visibility_name(a).len() == visibility_name(b).len());
        assert(visibility_name(a)[1] == visibility_name(b)[1]);
    }
}

/// What a client sends to create a dictionary.
#[derive(Debug)]
pub struct DictPayload {
    pub name: String,
    pub description: Option<String>,
    pub owner_id: Nanoid,
    pub visibility: DictionaryVisibility,
}

impl Default for DictPayload {
    /// An unnamed public dictionary without description, for a fresh random owner.
    fn default() -> (p: Self)
        ensures
            p.name@ == Seq::<char>::empty(),
            p.description is None,
            is_fresh_id(p.owner_id@),
            p.visibility == DictionaryVisibility::Public,
    {
        DictPayload {
            name: String::new(),
            description: None,
            owner_id: Nanoid::default(),
            visibility: DictionaryVisibility::default(),
        }
    }
}

/// A dictionary: a named, owned collection of entries.
#[derive(Debug)]
pub struct Dictionary {
    pub id: Nanoid,
    pub owner_id: Nanoid,
    pub name: String,
    pub description: Option<String>,
    pub visibility: DictionaryVisibility,
    pub created_at: Timestamp,
    pub updated_at: Timestamp,
}

/// A dictionary's row in the `dictionaries` table, in the column order
/// id, owner_id, name, description, visibility, created_at, updated_at.
#[derive(Debug)]
pub struct DictionaryRow {
    pub id: String,
    pub owner_id: String,
    pub name: String,
    pub description: Option<String>,
    pub visibility: String,
    pub created_at: String,
    pub updated_at: String,
}

pub open spec fn opt_string_view(s: Option<String>) -> Option<Seq<char>> {
    match s {
        Some(t) => Some(t@),
        None => None,
    }
}

fn clone_opt_string(s: &Option<String>) -> (r: Option<String>)
    ensures
        opt_string_view(r) == opt_string_view(*s),
{
    match s {
        Some(t) => Some(t.clone()),
        None => None,
    }
}

impl Dictionary {
    /// The dictionary a client asked for, under the given identifier, created and last
    /// updated at `now`.
    pub fn assemble(payload: DictPayload, id: Nanoid, now: Timestamp) -> (d: Dictionary)
        ensures
            d.id@ == id@,
            d.owner_id@ == payload.owner_id@,
            d.name@ == payload.name@,
            opt_string_view(d.description) == opt_string_view(payload.description),
            d.visibility == payload.visibility,
            d.created_at == now,
            d.updated_at == now,
    {
        let updated_at = now.clone();
        Dictionary {
            id,
            owner_id: payload.owner_id,
            name: payload.name,
            description: payload.description,
            visibility: payload.visibility,
            created_at: now,
            updated_at,
        }
    }

    /// A new dictionary as a client asked for it, under a fresh random identifier.
    pub fn create_from(payload: DictPayload, now: Timestamp) -> (d: Dictionary)
        ensures
            is_fresh_id(d.id@),
            d.owner_id@ == payload.owner_id@,
            d.name@ == payload.name@,
            opt_string_view(d.description) == opt_string_view(payload.description),
            d.visibility == payload.visibility,
            d.created_at == now,
            d.updated_at == now,
    {
        let id = Nanoid::default();
        Dictionary::assemble(payload, id, now)
    }

    /// Who owns the dictionary.
    pub fn owner(self) -> (o: Nanoid)
        ensures
            o@ == self.owner_id@,
    {
        self.owner_id
    }

    /// The row that stores this dictionary.
    pub fn insert_row(&self) -> (r: DictionaryRow)
        ensures
            r.id@ == self.id@,
            r.owner_id@ == self.owner_id@,
            r.name@ == self.name@,
            opt_string_view(r.description) == opt_string_view(self.description),
            r.visibility@ == visibility_name(self.visibility),
            r.created_at@ == rfc3339_text(self.created_at.spec_secs(), self.created_at.spec_nanos()),
            r.updated_at@ == rfc3339_text(self.updated_at.spec_secs(), self.updated_at.spec_nanos()),
    {
        DictionaryRow {
            id: self.id.as_string(),
            owner_id: self.owner_id.as_string(),
            name: self.name.clone(),
            description: clone_opt_string(&self.description),
            visibility: self.visibility.as_str().to_owned(),
            created_at: self.created_at.to_rfc3339(),
            updated_at: self.updated_at.to_rfc3339(),
        }
    }
}

} // verus!
