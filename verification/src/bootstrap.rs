//! Startup bootstrap of the lookup service's backing store: ensure the
//! record table exists, then ensure exactly one seed record exists,
//! inserting it only if absent. Both operations are idempotent.
//!
//! The store itself is an external service; this module models its record
//! table as a sequence of records with unique identifiers, makes the
//! bootstrap decisions on that model, and supplies the exact statement text
//! that the external service is asked to execute.

use vstd::prelude::*;
use vstd::string::StringExecFns;
use crate::route::LOOKUP_ID;
use crate::user::Record;

verus! {

/// Does some record in `rows` carry the identifier `id`?
pub open spec fn has_record(rows: Seq<Record>, id: u64) -> bool {
    exists|i: int| 0 <= i < rows.len() && rows[i].id == id
}

/// Identifiers are unique across the table: no two records share one.
pub open spec fn unique_ids(rows: Seq<Record>) -> bool {
    forall|i: int, j: int| 0 <= i < j < rows.len() ==> rows[i].id != rows[j].id
}

/// The one seed record: known identifier, name and address.
pub open spec fn is_seed_record(r: Record) -> bool {
    r.id == LOOKUP_ID && r.name@ == "Fathan"@ && r.email@ == "fathan@rust.com"@
}

/// How one seeding pass transforms the record table: if a record with the
/// seed identifier already exists the table is left exactly as it was;
/// otherwise exactly the seed record is appended. Seeding never fails and
/// never replaces an existing record.
pub open spec fn seed_step(pre: Seq<Record>, post: Seq<Record>) -> bool {
    if has_record(pre, LOOKUP_ID) {
        post == pre
    } else {
        post == pre.push(post.last()) && is_seed_record(post.last())
    }
}

/// Build the seed record.
pub fn seed_record() -> (r: Record)
    ensures
        is_seed_record(r),
{
    Record { id: LOOKUP_ID, name: "Fathan".to_owned(), email: "fathan@rust.com".to_owned() }
}

/// The model of the backing store: whether the record table exists, and the
/// records it holds.
#[derive(Debug)]
pub struct UsersStore {
    pub schema_ready: bool,
    pub rows: Vec<Record>,
}

impl UsersStore {
    /// The table never holds two records with one identifier.
    pub open spec fn wf(self) -> bool {
        unique_ids(self.rows@)
    }

    /// A store before any bootstrap: no table, no records.
    pub fn new() -> (s: UsersStore)
        ensures
            !s.schema_ready,
            s.rows@.len() == 0,
            s.wf(),
    {
        UsersStore { schema_ready: false, rows: Vec::new() }
    }

    /// Ensure the record table exists. Creating an already-existing table
    /// changes nothing and is not an error.
    pub fn ensure_schema(&mut self)
        ensures
            final(self).schema_ready,
            final(self).rows@ == old(self).rows@,
    {
        self.schema_ready = true;
    }

    /// Is a record with identifier `id` present?
    pub fn contains_record(&self, id: u64) -> (b: bool)
        ensures
            b == has_record(self.rows@, id),
    {
        let mut i: usize = 0;
        while i < self.rows.len()
            invariant
                i <= self.rows@.len(),
                forall|j: int| 0 <= j < i ==> self.rows@[j].id != id,
            decreases self.rows@.len() - i,
        {
            if self.rows[i].id == id {
                return true;
            }
            i += 1;
        }
        false
    }

    /// Ensure the seed record exists, inserting it only if no record with
    /// its identifier is present. A conflicting insert does nothing rather
    /// than failing or duplicating.
    pub fn seed_if_absent(&mut self)
        requires
            old(self).schema_ready,
            old(self).wf(),
        ensures
            final(self).schema_ready,
            final(self).wf(),
            seed_step(old(self).rows@, final(self).rows@),
            has_record(final(self).rows@, LOOKUP_ID),
    {
        if !self.contains_record(LOOKUP_ID) {
            let ghost pre = self.rows@;
            let r = seed_record();
            self.rows.push(r);
            proof {
                assert(self.rows@ =~= pre.push(self.rows@.last()));
                assert(self.rows@[pre.len() as int].id == LOOKUP_ID);
            }
        }
    }

    /// The whole bootstrap: ensure the table, then ensure the seed record.
    pub fn bootstrap(&mut self)
        requires
            old(self).wf(),
        ensures
            final(self).schema_ready,
            final(self).wf(),
            seed_step(old(self).rows@, final(self).rows@),
            has_record(final(self).rows@, LOOKUP_ID),
    {
        self.ensure_schema();
        self.seed_if_absent();
    }
}

/// Bootstrap is idempotent: a seeding pass over a table that has already
/// been seeded (by an earlier pass, or because the record pre-existed)
/// changes nothing, so repeated bootstraps are one bootstrap.
pub proof fn lemma_seed_idempotent(pre: Seq<Record>, mid: Seq<Record>, post: Seq<Record>)
    requires
        seed_step(pre, mid),
        seed_step(mid, post),
    ensures
        post == mid,
{
    if !has_record(pre, LOOKUP_ID) {
        assert(mid[pre.len() as int].id == LOOKUP_ID);
    }
}

/// The lookup handler interpolates stored values into its JSON body without
/// escaping, so stored values must be safe to interpolate; the one record
/// this system ever stores, the seed record, is.
pub proof fn lemma_seed_record_json_safe(r: Record)
    requires
        is_seed_record(r),
    ensures
        crate::user::json_safe(r.name@),
        crate::user::json_safe(r.email@),
{
    reveal_strlit("Fathan");
    reveal_strlit("fathan@rust.com");
    assert(crate::user::json_safe("Fathan"@));
    assert(crate::user::json_safe("fathan@rust.com"@));
}

/// A well-formed table never holds a second seed record: any two positions
/// carrying the seed identifier are the same position.
pub proof fn lemma_at_most_one_seed(rows: Seq<Record>, i: int, j: int)
    requires
        unique_ids(rows),
        0 <= i < rows.len(),
        0 <= j < rows.len(),
        rows[i].id == LOOKUP_ID,
        rows[j].id == LOOKUP_ID,
    ensures
        i == j,
{
}

/// The statement the external store executes to ensure the record table:
/// `IF NOT EXISTS` makes it a no-op on a pre-existing table.
pub fn create_users_table_sql() -> (s: &'static str)
    ensures
        s@ == "CREATE TABLE IF NOT EXISTS users (id SERIAL PRIMARY KEY, name TEXT NOT NULL, email TEXT NOT NULL);"@,
{
    "CREATE TABLE IF NOT EXISTS users (id SERIAL PRIMARY KEY, name TEXT NOT NULL, email TEXT NOT NULL);"
}

/// The statement the external store executes to ensure the seed record:
/// `ON CONFLICT DO NOTHING` makes it a no-op when the record exists.
pub fn seed_insert_sql() -> (s: &'static str)
    ensures
        s@ == "INSERT INTO users (id, name, email) VALUES (1, 'Fathan', 'fathan@rust.com') ON CONFLICT DO NOTHING"@,
{
    "INSERT INTO users (id, name, email) VALUES (1, 'Fathan', 'fathan@rust.com') ON CONFLICT DO NOTHING"
}

} // verus!
