use vstd::prelude::*;
use vstd::string::*;

use crate::ident::{is_fresh_id, Nanoid};
use crate::time::{rfc3339_text, Timestamp};

verus! {

/// One key/value field of a dictionary entry.
#[derive(Debug)]
pub struct Field {
    pub entry_id: Nanoid,
    pub key: String,
    pub value: String,
}

impl Clone for Field {
    fn clone(&self) -> (r: Self)
        ensures
            r.entry_id@ == self.entry_id@,
            r.key@ == self.key@,
            r.value@ == self.value@,
    {
        Field { entry_id: self.entry_id.clone(), key: self.key.clone(), value: self.value.clone() }
    }
}

impl Field {
    /// The field of entry `entry_id` holding one (key, value) pair.
    pub fn from_tuple(entry_id: &Nanoid, map: (&String, &String)) -> (f: Self)
        ensures
            f.entry_id@ == entry_id@,
            f.key@ == map.0@,
            f.value@ == map.1@,
    {
        let (key, value) = map;
        Field { entry_id: entry_id.clone(), key: key.clone(), value: value.clone() }
    }
}

/// The fields of entry `entry_id` made from (key, value) pairs, one per pair, in order.
pub open spec fn fields_of_pairs(entry_id: Seq<char>, pairs: Seq<(String, String)>, fields: Seq<Field>) -> bool {
    &&& fields.len() == pairs.len()
    &&& forall|i: int|
        0 <= i < pairs.len() ==> {
            &&& (#[trigger] fields[i]).entry_id@ == entry_id
            &&& fields[i].key@ == pairs[i].0@
            &&& fields[i].value@ == pairs[i].1@
        }
}

/// One field of entry `entry_id` per (key, value) pair, in order.
pub fn fields_from_pairs(entry_id: &Nanoid, pairs: &Vec<(String, String)>) -> (fields: Vec<Field>)
    ensures
        fields@.len() == pairs@.len(),
        forall|i: int|
            0 <= i < pairs@.len() ==> {
                &&& (#[trigger] fields@[i]).entry_id@ == entry_id@
                &&& fields@[i].key@ == pairs@[i].0@
                &&& fields@[i].value@ == pairs@[i].1@
            },
        fields_of_pairs(entry_id@, pairs@, fields@),
{
    let mut fields: Vec<Field> = Vec::new();
    let mut i: usize = 0;
    while i < pairs.len()
        invariant
            i <= pairs.len(),
            fields@.len() == i,
            forall|j: int|
                0 <= j < i ==> {
                    &&& (#[trigger] fields@[j]).entry_id@ == entry_id@
                    &&& fields@[j].key@ == pairs@[j].0@
                    &&& fields@[j].value@ == pairs@[j].1@
                },
        decreases pairs.len() - i,
    {
        let pair = &pairs[i];
        fields.push(Field::from_tuple(entry_id, (&pair.0, &pair.1)));
        i = i + 1;
    }
    fields
}

/// No two fields share a key.
pub open spec fn field_keys_distinct(fields: Seq<Field>) -> bool {
    forall|i: int, j: int| 0 <= i < j < fields.len() ==> (#[trigger] fields[i]).key@ != (#[trigger] fields[j]).key@
}

/// What a client sends to create an entry: the dictionary, the word, and its fields as
/// (key, value) pairs, one per key (they come from a map).
#[derive(Debug)]
pub struct CreateEntryPayload {
    pub dictionary_id: Nanoid,
    pub word: String,
    pub fields: Vec<(String, String)>,
}

/// A word of a dictionary with its fields.
#[derive(Debug)]
pub struct Entry {
    pub id: Nanoid,
    pub dictionary_id: Nanoid,
    pub owner_id: Nanoid,
    pub word: String,
    pub created_at: Timestamp,
    pub updated_at: Timestamp,
    pub fields: Vec<Field>,
}

/// An entry's row in the `entries` table, in the column order
/// id, owner_id, dictionary_id, word, created_at, updated_at.
#[derive(Debug)]
pub struct EntryRow {
    pub id: String,
    pub owner_id: String,
    pub dictionary_id: String,
    pub word: String,
    pub created_at: String,
    pub updated_at: String,
}

impl Entry {
    /// The entry a client asked for, under identifier `id`, owned by `owner_id`, created and
    /// last updated at `now`; each of its fields belongs to it.
    pub fn assemble(payload: CreateEntryPayload, id: Nanoid, owner_id: Nanoid, now: Timestamp) -> (e: Entry)
        requires
            keys_distinct(payload.fields@),
        ensures
            field_keys_distinct(e.fields@),
            e.id@ == id@,
            e.owner_id@ == owner_id@,
            e.dictionary_id@ == payload.dictionary_id@,
            e.word@ == payload.word@,
            fields_of_pairs(id@, payload.fields@, e.fields@),
            e.created_at == now,
            e.updated_at == now,
    {
        let fields = fields_from_pairs(&id, &payload.fields);
        let updated_at = now.clone();
        Entry {
            id,
            owner_id,
            dictionary_id: payload.dictionary_id,
            word: payload.word,
            fields,
            created_at: now,
            updated_at,
        }
    }

    /// A new entry as a client asked for it, owned by `owner_id`, under a fresh random identifier.
    pub fn create_from(payload: CreateEntryPayload, owner_id: Nanoid, now: Timestamp) -> (e: Entry)
        requires
            keys_distinct(payload.fields@),
        ensures
            field_keys_distinct(e.fields@),
            is_fresh_id(e.id@),
            e.owner_id@ == owner_id@,
            e.dictionary_id@ == payload.dictionary_id@,
            e.word@ == payload.word@,
            fields_of_pairs(e.id@, payload.fields@, e.fields@),
            e.created_at == now,
            e.updated_at == now,
    {
        let id = Nanoid::default();
        Entry::assemble(payload, id, owner_id, now)
    }

    /// A loaded entry, if any, with the fields loaded for it.
    pub fn with_loaded_fields(entry: Option<Entry>, fields: Vec<Field>) -> (r: Option<Entry>)
        ensures
            r is Some <==> entry is Some,
            r matches Some(e) ==> {
                let old_e = entry->0;
                &&& e.id == old_e.id
                &&& e.dictionary_id == old_e.dictionary_id
                &&& e.owner_id == old_e.owner_id
                &&& e.word == old_e.word
                &&& e.created_at == old_e.created_at
                &&& e.updated_at == old_e.updated_at
                &&& e.fields@ == fields@
            },
    {
        match entry {
            Some(mut e) => {
                e.fields = fields;
                Some(e)
            },
            None => None,
        }
    }

    /// Who owns the entry.
    pub fn owner(self) -> (o: Nanoid)
        ensures
            o@ == self.owner_id@,
    {
        self.owner_id
    }

    /// The row that stores this entry (its fields are stored apart, see [`field_insert`]).
    pub fn insert_row(&self) -> (r: EntryRow)
        ensures
            r.id@ == self.id@,
            r.owner_id@ == self.owner_id@,
            r.dictionary_id@ == self.dictionary_id@,
            r.word@ == self.word@,
            r.created_at@ == rfc3339_text(self.created_at.spec_secs(), self.created_at.spec_nanos()),
            r.updated_at@ == rfc3339_text(self.updated_at.spec_secs(), self.updated_at.spec_nanos()),
    {
        EntryRow {
            id: self.id.as_string(),
            owner_id: self.owner_id.as_string(),
            dictionary_id: self.dictionary_id.as_string(),
            word: self.word.clone(),
            created_at: self.created_at.to_rfc3339(),
            updated_at: self.updated_at.to_rfc3339(),
        }
    }
}

/// The map a list of fields describes: each key to the value of its last field.
pub open spec fn fields_map(fields: Seq<Field>) -> Map<Seq<char>, Seq<char>>
    decreases fields.len(),
{
    if fields.len() == 0 {
        Map::empty()
    } else {
        fields_map(fields.drop_last()).insert(fields.last().key@, fields.last().value@)
    }
}

/// No key occurs twice.
pub open spec fn keys_distinct(pairs: Seq<(String, String)>) -> bool {
    forall|i: int, j: int| 0 <= i < j < pairs.len() ==> (#[trigger] pairs[i]).0@ != (#[trigger] pairs[j]).0@
}

/// `pairs` lists the map `m`: each key once, with its value, and every key of `m`.
pub open spec fn pairs_list_map(pairs: Seq<(String, String)>, m: Map<Seq<char>, Seq<char>>) -> bool {
    &&& keys_distinct(pairs)
    &&& forall|j: int|
        0 <= j < pairs.len() ==> m.contains_key((#[trigger] pairs[j]).0@) && m[pairs[j].0@] == pairs[j].1@
    &&& forall|k: Seq<char>| #[trigger] m.contains_key(k) ==> exists|j: int| 0 <= j < pairs.len() && (#[trigger] pairs[j]).0@ == k
}

/// Where `key` stands among the keys of `pairs`, if anywhere.
fn find_key(pairs: &Vec<(String, String)>, key: &String) -> (r: Option<usize>)
    ensures
        match r {
            Some(j) => j < pairs@.len() && pairs@[j as int].0@ == key@,
            None => forall|j: int| 0 <= j < pairs@.len() ==> (#[trigger] pairs@[j]).0@ != key@,
        },
{
    let mut j: usize = 0;
    while j < pairs.len()
        invariant
            j <= pairs@.len(),
            forall|l: int| 0 <= l < j ==> (#[trigger] pairs@[l]).0@ != key@,
        decreases pairs.len() - j,
    {
        if pairs[j].0 == *key {
            return Some(j);
        }
        j = j + 1;
    }
    None
}

impl Entry {
    /// The entry's fields as a map from key to value, a later field overriding an earlier one
    /// with the same key; each key is listed once.
    pub fn field_pairs(&self) -> (pairs: Vec<(String, String)>)
        ensures
            pairs_list_map(pairs@, fields_map(self.fields@)),
    {
        let fields = &self.fields;
        let mut pairs: Vec<(String, String)> = Vec::new();
        let mut i: usize = 0;
        assert(fields@.take(0) =~= Seq::<Field>::empty());
        while i < fields.len()
            invariant
                i <= fields@.len(),
                pairs_list_map(pairs@, fields_map(fields@.take(i as int))),
            decreases fields.len() - i,
        {
            let f = &fields[i];
            let ghost before = fields_map(fields@.take(i as int));
            let ghost prev = pairs@;
            assert(fields@.take(i + 1).drop_last() =~= fields@.take(i as int));
            assert(fields@.take(i + 1).last() == f);
            let ghost after = before.insert(f.key@, f.value@);
            assert(fields_map(fields@.take(i + 1)) == after);
            match find_key(&pairs, &f.key) {
                Some(j) => {
                    pairs.set(j, (f.key.clone(), f.value.clone()));
                    assert(pairs_list_map(pairs@, after)) by {
                        assert forall|a: int, b: int| 0 <= a < b < pairs@.len() implies (#[trigger] pairs@[a]).0@ != (#[trigger] pairs@[b]).0@ by {
                            assert(prev[a].0@ != prev[b].0@);
                        }
                        assert forall|l: int| 0 <= l < pairs@.len() implies after.contains_key((#[trigger] pairs@[l]).0@) && after[pairs@[l].0@] == pairs@[l].1@ by {
                            if l != j {
                                assert(prev[l].0@ != prev[j as int].0@);
                                assert(before.contains_key(prev[l].0@));
                            }
                        }
                        assert forall|k: Seq<char>| #[trigger] after.contains_key(k) implies exists|l: int| 0 <= l < pairs@.len() && (#[trigger] pairs@[l]).0@ == k by {
                            if k == f.key@ {
                                assert(pairs@[j as int].0@ == k);
                            } else {
                                assert(before.contains_key(k));
                                let l = choose|l: int| 0 <= l < prev.len() && (#[trigger] prev[l]).0@ == k;
                                assert(pairs@[l].0@ == k);
                            }
                        }
                    }
                },
                None => {
                    pairs.push((f.key.clone(), f.value.clone()));
                    assert(pairs_list_map(pairs@, after)) by {
                        assert forall|a: int, b: int| 0 <= a < b < pairs@.len() implies (#[trigger] pairs@[a]).0@ != (#[trigger] pairs@[b]).0@ by {
                            if b < prev.len() {
                                assert(prev[a].0@ != prev[b].0@);
                            } else {
                                assert(prev[a].0@ != f.key@);
                            }
                        }
                        assert forall|l: int| 0 <= l < pairs@.len() implies after.contains_key((#[trigger] pairs@[l]).0@) && after[pairs@[l].0@] == pairs@[l].1@ by {
                            if l < prev.len() {
                                assert(prev[l].0@ != f.key@);
                                assert(before.contains_key(prev[l].0@));
                            }
                        }
                        assert forall|k: Seq<char>| #[trigger] after.contains_key(k) implies exists|l: int| 0 <= l < pairs@.len() && (#[trigger] pairs@[l]).0@ == k by {
                            if k == f.key@ {
                                assert(pairs@[prev.len() as int].0@ == k);
                            } else {
                                assert(before.contains_key(k));
                                let l = choose|l: int| 0 <= l < prev.len() && (#[trigger] prev[l]).0@ == k;
                                assert(pairs@[l].0@ == k);
                            }
                        }
                    }
                },
            }
            i = i + 1;
        }
        assert(fields@.take(fields@.len() as int) =~= fields@);
        pairs
    }
}

/// SQLite accepts at most this many bound parameters in one statement.
pub const BIND_LIMIT: usize = 65535;

/// At most this many fields go into one insert statement (each field binds three
/// parameters; a fourth of the limit keeps well under it).
pub open spec fn max_field_rows() -> nat {
    (BIND_LIMIT / 4) as nat
}

/// How many fields of `n` go into the insert statement.
pub open spec fn field_rows(n: nat) -> nat {
    if n < max_field_rows() {
        n
    } else {
        max_field_rows()
    }
}

/// `n` row tuples `(?, ?, ?)` separated by `, `.
pub open spec fn values_clause(n: nat) -> Seq<char>
    decreases n,
{
    if n == 0 {
        Seq::empty()
    } else if n == 1 {
        "(?, ?, ?)"@
    } else {
        values_clause((n - 1) as nat) + ", "@ + "(?, ?, ?)"@
    }
}

/// The statement that inserts `n` fields.
pub open spec fn field_insert_sql(n: nat) -> Seq<char> {
    "insert into entry_fields (entry_id, field_key, field_value) "@ + "VALUES "@ + values_clause(n)
}

/// A statement and the values bound to its placeholders, in order.
#[derive(Debug)]
pub struct Statement {
    pub sql: String,
    pub binds: Vec<String>,
}

/// Field `i` is bound as the `i`-th triple: its entry id, key and value.
pub open spec fn binds_field(fields: Seq<Field>, binds: Seq<String>, i: int) -> bool {
    &&& binds[3 * i]@ == fields[i].entry_id@
    &&& binds[3 * i + 1]@ == fields[i].key@
    &&& binds[3 * i + 2]@ == fields[i].value@
}

/// The binds of a field insert: entry id, key and value of each of the first `n` fields.
pub open spec fn field_binds(fields: Seq<Field>, n: nat, binds: Seq<String>) -> bool {
    &&& binds.len() == 3 * n
    &&& forall|i: int| 0 <= i < n ==> #[trigger] binds_field(fields, binds, i)
}

/// The statement that stores the fields of an entry: the first fields, as many as the
/// bind limit allows, one `(entry_id, field_key, field_value)` row each, in order.
/// With no fields the statement ends in `VALUES ` with no row, which the database refuses.
pub fn field_insert(fields: &Vec<Field>) -> (st: Statement)
    ensures
        st.sql@ == field_insert_sql(field_rows(fields@.len())),
        field_binds(fields@, field_rows(fields@.len()), st.binds@),
{
    let limit: usize = BIND_LIMIT / 4;
    let n: usize = if fields.len() < limit { fields.len() } else { limit };
    let mut sql = String::from_str("insert into entry_fields (entry_id, field_key, field_value) ");
    sql.append("VALUES ");
    let mut binds: Vec<String> = Vec::new();
    let mut i: usize = 0;
    while i < n
        invariant
            n == field_rows(fields@.len()),
            n <= fields@.len(),
            i <= n,
            sql@ == field_insert_sql(i as nat),
            field_binds(fields@, i as nat, binds@),
        decreases n - i,
    {
        if i > 0 {
            sql.append(", ");
        }
        sql.append("(?, ?, ?)");
        let f = &fields[i];
        let ghost prev = binds@;
        binds.push(f.entry_id.as_string());
        binds.push(f.key.clone());
        binds.push(f.value.clone());
        assert(values_clause((i + 1) as nat) == if i == 0 {
            "(?, ?, ?)"@
        } else {
            values_clause(i as nat) + ", "@ + "(?, ?, ?)"@
        });
        assert(field_binds(fields@, (i + 1) as nat, binds@)) by {
            assert forall|j: int| 0 <= j < i + 1 implies #[trigger] binds_field(fields@, binds@, j) by {
                if j < i {
                    assert(binds_field(fields@, prev, j));
                }
            }
        }
        i = i + 1;
    }
    Statement { sql, binds }
}

/// Fields made from pairs copy them whole: field `i` belongs to the entry and holds exactly
/// the key and the value of pair `i`, and there are as many fields as pairs.
pub proof fn law_fields_copy_pairs(entry_id: Seq<char>, pairs: Seq<(String, String)>, fields: Seq<Field>, i: int)
    requires
        fields_of_pairs(entry_id, pairs, fields),
        0 <= i < pairs.len(),
    ensures
        fields.len() == pairs.len(),
        fields[i].entry_id@ == entry_id,
        fields[i].key@ == pairs[i].0@,
        fields[i].value@ == pairs[i].1@,
{
    assert(fields[i].entry_id@ == entry_id);
}

/// Adding a field to the end sets its key to exactly its value, and leaves every other key
/// as it was.
pub proof fn law_fields_map_push(fields: Seq<Field>, f: Field)
    ensures
        fields_map(fields.push(f)).contains_key(f.key@),
        fields_map(fields.push(f))[f.key@] == f.value@,
        forall|k: Seq<char>|
            k != f.key@ ==> (#[trigger] fields_map(fields.push(f)).contains_key(k) == fields_map(fields).contains_key(k)
                && fields_map(fields.push(f))[k] == fields_map(fields)[k]),
{
    assert(fields.push(f).drop_last() =~= fields);
}

/// The map holds a key exactly when some field has it.
pub proof fn law_fields_map_keys(fields: Seq<Field>, k: Seq<char>)
    ensures
        fields_map(fields).contains_key(k) <==> exists|i: int| 0 <= i < fields.len() && (#[trigger] fields[i]).key@ == k,
    decreases fields.len(),
{
    if fields.len() > 0 {
        let init = fields.drop_last();
        law_fields_map_keys(init, k);
        assert(fields =~= init.push(fields.last()));
        law_fields_map_push(init, fields.last());
        if exists|i: int| 0 <= i < init.len() && (#[trigger] init[i]).key@ == k {
            let i = choose|i: int| 0 <= i < init.len() && (#[trigger] init[i]).key@ == k;
            assert(fields[i] == init[i]);
        }
        if exists|i: int| 0 <= i < fields.len() && (#[trigger] fields[i]).key@ == k {
            let i = choose|i: int| 0 <= i < fields.len() && (#[trigger] fields[i]).key@ == k;
            if i < init.len() {
                assert(init[i] == fields[i]);
            }
        }
    }
}

/// A field whose key no later field repeats gives the map its whole value for that key.
pub proof fn law_fields_map_value(fields: Seq<Field>, i: int)
    requires
        0 <= i < fields.len(),
        forall|j: int| i < j < fields.len() ==> (#[trigger] fields[j]).key@ != fields[i].key@,
    ensures
        fields_map(fields).contains_key(fields[i].key@),
        fields_map(fields)[fields[i].key@] == fields[i].value@,
    decreases fields.len(),
{
    let init = fields.drop_last();
    assert(fields =~= init.push(fields.last()));
    law_fields_map_push(init, fields.last());
    if i < fields.len() - 1 {
        assert forall|j: int| i < j < init.len() implies (#[trigger] init[j]).key@ != init[i].key@ by {
            assert(init[j] == fields[j]);
        }
        law_fields_map_value(init, i);
        assert(fields[fields.len() - 1].key@ != fields[i].key@);
    }
}

/// Each row of the field statement follows the previous one after `, `: the statement for
/// one more field is the statement for the others with `, (?, ?, ?)` added, and the statement
/// for one field has the single row `(?, ?, ?)`.
pub proof fn law_field_insert_rows(n: nat)
    ensures
        field_insert_sql(1) == "insert into entry_fields (entry_id, field_key, field_value) "@ + "VALUES "@ + "(?, ?, ?)"@,
        field_insert_sql(0) == "insert into entry_fields (entry_id, field_key, field_value) "@ + "VALUES "@,
        n >= 1 ==> field_insert_sql(n + 1) == field_insert_sql(n) + ", "@ + "(?, ?, ?)"@,
{
    assert(values_clause(0) =~= Seq::<char>::empty());
    assert(field_insert_sql(0) =~= "insert into entry_fields (entry_id, field_key, field_value) "@ + "VALUES "@);
    if n >= 1 {
        assert(values_clause(n + 1) == values_clause(n) + ", "@ + "(?, ?, ?)"@);
        assert(field_insert_sql(n + 1) =~= field_insert_sql(n) + ", "@ + "(?, ?, ?)"@);
    }
}

/// The statement never binds more parameters than SQLite accepts, and stores all fields
/// when there are few enough of them.
pub proof fn law_field_insert_within_bind_limit(n: nat)
    ensures
        3 * field_rows(n) <= BIND_LIMIT,
        field_rows(n) <= n,
        n <= max_field_rows() ==> field_rows(n) == n,
{
}

} // verus!
