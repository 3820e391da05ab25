use vstd::prelude::*;

use crate::ident::{is_fresh_id, Nanoid};

verus! {

/// What a client sends to store a script module.
#[derive(Debug)]
pub struct ModulePayload {
    pub owner_id: Nanoid,
    pub content: String,
}

impl Default for ModulePayload {
    /// An empty module for a fresh random owner.
    fn default() -> (p: Self)
        ensures
            is_fresh_id(p.owner_id@),
            p.content@ == Seq::<char>::empty(),
    {
        ModulePayload { owner_id: Nanoid::default(), content: String::new() }
    }
}

/// A user's script module, which can derive the fields of entries.
#[derive(Debug)]
pub struct Module {
    pub id: Nanoid,
    pub owner_id: Nanoid,
    pub content: String,
}

/// A module's row in the `modules` table, in the column order id, owner_id, content.
#[derive(Debug)]
pub struct ModuleRow {
    pub id: String,
    pub owner_id: String,
    pub content: String,
}

impl Default for Module {
    /// An empty module under a fresh random identifier, for a fresh random owner.
    fn default() -> (m: Self)
        ensures
            is_fresh_id(m.id@),
            is_fresh_id(m.owner_id@),
            m.content@ == Seq::<char>::empty(),
    {
        Module { id: Nanoid::default(), owner_id: Nanoid::default(), content: String::new() }
    }
}

impl Module {
    /// The module a client sent, under identifier `id`.
    pub fn assemble(payload: ModulePayload, id: Nanoid) -> (m: Module)
        ensures
            m.id@ == id@,
            m.owner_id@ == payload.owner_id@,
            m.content@ == payload.content@,
    {
        Module { id, owner_id: payload.owner_id, content: payload.content }
    }

    /// A new module as a client sent it, under a fresh random identifier.
    pub fn create_from(payload: ModulePayload) -> (m: Module)
        ensures
            is_fresh_id(m.id@),
            m.owner_id@ == payload.owner_id@,
            m.content@ == payload.content@,
    {
        let id = Nanoid::default();
        Module::assemble(payload, id)
    }

    /// Who owns the module.
    pub fn owner(self) -> (o: Nanoid)
        ensures
            o@ == self.owner_id@,
    {
        self.owner_id
    }

    /// The row that stores this module.
    pub fn insert_row(&self) -> (r: ModuleRow)
        ensures
            r.id@ == self.id@,
            r.owner_id@ == self.owner_id@,
            r.content@ == self.content@,
    {
        ModuleRow { id: self.id.as_string(), owner_id: self.owner_id.as_string(), content: self.content.clone() }
    }
}

} // verus!
