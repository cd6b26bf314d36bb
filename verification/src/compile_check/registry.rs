//! The tables that are known, and the structs that hold their rows.

use vstd::prelude::*;

use crate::text;

verus! {

/// A table that is known.
#[derive(Debug)]
pub struct TableEntry {
    /// The statement that makes the table.
    pub create_sql: String,
    /// The columns that the struct needs.
    pub fields: Vec<String>,
}

/// What is known of a table, as plain values.
pub struct TableFacts {
    /// The statement that makes the table.
    pub create_sql: Seq<char>,
    /// The columns that the struct needs.
    pub fields: Seq<Seq<char>>,
}

impl View for TableEntry {
    type V = TableFacts;

    open spec fn view(&self) -> TableFacts {
        TableFacts { create_sql: self.create_sql@, fields: text::texts(self.fields@) }
    }
}

impl TableEntry {
    /// The same entry once more.
    pub fn copied(&self) -> (r: TableEntry)
        ensures
            r@ == self@,
    {
        let fields = self.fields.clone();
        assert(text::texts(fields@) =~= text::texts(self.fields@));
        TableEntry { create_sql: self.create_sql.clone(), fields }
    }
}

/// The tables that are known, by their names.
#[derive(Debug)]
pub struct Registry {
    entries: Vec<(String, TableEntry)>,
}

spec fn names_distinct(entries: Seq<(String, TableEntry)>) -> bool {
    forall|i: int, j: int|
        0 <= i < j < entries.len() ==> #[trigger] entries[i].0@ != #[trigger] entries[j].0@
}

spec fn stands_for(entries: Seq<(String, TableEntry)>, name: Seq<char>, i: int) -> bool {
    0 <= i < entries.len() && entries[i].0@ == name
}

impl View for Registry {
    type V = Map<Seq<char>, TableFacts>;

    closed spec fn view(&self) -> Map<Seq<char>, TableFacts> {
        Map::new(
            |name: Seq<char>| exists|i: int| stands_for(self.entries@, name, i),
            |name: Seq<char>|
                self.entries@[choose|i: int| stands_for(self.entries@, name, i)].1@,
        )
    }
}

impl Registry {
    /// What holds of every registry: no two tables have the same name.
    pub closed spec fn wf(self) -> bool {
        names_distinct(self.entries@)
    }

    proof fn lemma_at(self, i: int)
        requires
            self.wf(),
            0 <= i < self.entries@.len(),
        ensures
            self@.dom().contains(self.entries@[i].0@),
            self@[self.entries@[i].0@] == self.entries@[i].1@,
    {
        let name = self.entries@[i].0@;
        assert(stands_for(self.entries@, name, i));
        let j = choose|j: int| stands_for(self.entries@, name, j);
        assert(stands_for(self.entries@, name, j));
        assert(self.entries@[j].0@ == self.entries@[i].0@);
        assert(i == j) by {
            if i < j {
                assert(self.entries@[i].0@ != self.entries@[j].0@);
            }
            if j < i {
                assert(self.entries@[j].0@ != self.entries@[i].0@);
            }
        }
    }

    proof fn lemma_absent(self, name: Seq<char>)
        requires
            forall|i: int| 0 <= i < self.entries@.len() ==> #[trigger] self.entries@[i].0@ != name,
        ensures
            !self@.dom().contains(name),
    {
        if exists|i: int| stands_for(self.entries@, name, i) {
            let i = choose|i: int| stands_for(self.entries@, name, i);
            assert(self.entries@[i].0@ != name);
        }
    }

    /// A registry that knows no table.
    pub fn new() -> (r: Registry)
        ensures
            r.wf(),
            r@ == Map::<Seq<char>, TableFacts>::empty(),
    {
        let r = Registry { entries: Vec::new() };
        assert forall|name: Seq<char>| !r@.dom().contains(name) by {
            r.lemma_absent(name);
        }
        assert(r@ =~= Map::<Seq<char>, TableFacts>::empty());
        r
    }

    fn position(&self, name: &str) -> (r: Option<usize>)
        ensures
            match r {
                Some(i) => i < self.entries@.len() && self.entries@[i as int].0@ == name@,
                None => forall|i: int|
                    0 <= i < self.entries@.len() ==> #[trigger] self.entries@[i].0@ != name@,
            },
    {
        let mut i: usize = 0;
        while i < self.entries.len()
            invariant
                i <= self.entries@.len(),
                forall|j: int| 0 <= j < i ==> #[trigger] self.entries@[j].0@ != name@,
            decreases self.entries@.len() - i,
        {
            if text::same_text(self.entries[i].0.as_str(), name) {
                return Some(i);
            }
            i = i + 1;
        }
        None
    }

    /// The statement that makes a table, where the table is known.
    pub fn seed_if_known(&self, table_name: &str) -> (r: Option<String>)
        requires
            self.wf(),
        ensures
            text::opt_text(r) == (if self@.dom().contains(table_name@) {
                Some(self@[table_name@].create_sql)
            } else {
                None
            }),
    {
        match self.position(table_name) {
            Some(i) => {
                proof {
                    self.lemma_at(i as int);
                }
                Some(self.entries[i].1.create_sql.clone())
            },
            None => {
                proof {
                    self.lemma_absent(table_name@);
                }
                None
            },
        }
    }
}

/// Registers a table: what was known of a table of that name is forgotten.
pub fn register(registry: &mut Registry, table_name: &str, create_sql: &str, fields: Vec<String>)
    requires
        old(registry).wf(),
    ensures
        final(registry).wf(),
        final(registry)@ == old(registry)@.insert(
            table_name@,
            TableFacts { create_sql: create_sql@, fields: text::texts(fields@) },
        ),
{
    let ghost before = *registry;
    let entry = TableEntry { create_sql: create_sql.to_owned(), fields };
    let ghost facts = entry@;
    match registry.position(table_name) {
        Some(i) => {
            registry.entries[i] = (table_name.to_owned(), entry);
            proof {
                assert(registry.entries@ =~= before.entries@.update(
                    i as int,
                    registry.entries@[i as int],
                ));
                assert forall|a: int, b: int| 0 <= a < b < registry.entries@.len() implies
                    #[trigger] registry.entries@[a].0@ != #[trigger] registry.entries@[b].0@ by {
                    assert(before.entries@[a].0@ != before.entries@[b].0@);
                }
                lemma_inserted(before, *registry, i as int, table_name@, facts);
            }
        },
        None => {
            registry.entries.push((table_name.to_owned(), entry));
            proof {
                let i = registry.entries@.len() - 1;
                assert(registry.entries@.drop_last() =~= before.entries@);
                lemma_inserted(before, *registry, i, table_name@, facts);
            }
        },
    }
}

proof fn lemma_inserted(before: Registry, after: Registry, i: int, name: Seq<char>, facts: TableFacts)
    requires
        before.wf(),
        after.wf(),
        0 <= i < after.entries@.len(),
        before.entries@.len() <= after.entries@.len() <= before.entries@.len() + 1,
        before.entries@.len() < after.entries@.len() ==> i == before.entries@.len(),
        after.entries@[i].0@ == name,
        after.entries@[i].1@ == facts,
        forall|j: int| 0 <= j < before.entries@.len() && j != i ==> #[trigger] after.entries@[j]
            == before.entries@[j],
        i < before.entries@.len() ==> before.entries@[i].0@ == name,
    ensures
        after@ == before@.insert(name, facts),
{
    after.lemma_at(i);
    assert forall|n: Seq<char>| after@.dom().contains(n) == (n == name || before@.dom().contains(n))
        by {
        if exists|j: int| stands_for(after.entries@, n, j) {
            let j = choose|j: int| stands_for(after.entries@, n, j);
            if j != i {
                assert(after.entries@[j] == before.entries@[j]);
                before.lemma_at(j);
            }
        }
        if exists|j: int| stands_for(before.entries@, n, j) {
            let j = choose|j: int| stands_for(before.entries@, n, j);
            if j != i {
                assert(after.entries@[j] == before.entries@[j]);
                after.lemma_at(j);
            }
        }
    }
    assert forall|n: Seq<char>| n != name && before@.dom().contains(n) implies #[trigger] after@[n]
        == before@[n] by {
        let j = choose|j: int| stands_for(before.entries@, n, j);
        assert(stands_for(before.entries@, n, j));
        before.lemma_at(j);
        assert(after.entries@[j] == before.entries@[j]);
        after.lemma_at(j);
    }
    assert(after@ =~= before@.insert(name, facts));
}

/// What is known of a table.
pub fn get(registry: &Registry, table_name: &str) -> (r: Option<TableEntry>)
    requires
        registry.wf(),
    ensures
        match r {
            Some(entry) => registry@.dom().contains(table_name@) && entry@ == registry@[table_name@],
            None => !registry@.dom().contains(table_name@),
        },
{
    match registry.position(table_name) {
        Some(i) => {
            proof {
                registry.lemma_at(i as int);
            }
            Some(registry.entries[i].1.copied())
        },
        None => {
            proof {
                registry.lemma_absent(table_name@);
            }
            None
        },
    }
}

/// Whether a table is known.
pub fn contains(registry: &Registry, table_name: &str) -> (r: bool)
    requires
        registry.wf(),
    ensures
        r == registry@.dom().contains(table_name@),
{
    match registry.position(table_name) {
        Some(i) => {
            proof {
                registry.lemma_at(i as int);
            }
            true
        },
        None => {
            proof {
                registry.lemma_absent(table_name@);
            }
            false
        },
    }
}

/// The names of the tables that are known, each once.
pub fn registered_names(registry: &Registry) -> (r: Vec<String>)
    requires
        registry.wf(),
    ensures
        forall|name: Seq<char>|
            registry@.dom().contains(name) <==> #[trigger] text::texts(r@).contains(name),
        text::texts(r@).no_duplicates(),
{
    let mut out: Vec<String> = Vec::new();
    let mut i: usize = 0;
    while i < registry.entries.len()
        invariant
            i <= registry.entries@.len(),
            out@.len() == i,
            forall|j: int| 0 <= j < i ==> #[trigger] out@[j]@ == registry.entries@[j].0@,
        decreases registry.entries@.len() - i,
    {
        out.push(registry.entries[i].0.clone());
        i = i + 1;
    }
    proof {
        let names = text::texts(out@);
        assert forall|name: Seq<char>|
            registry@.dom().contains(name) <==> #[trigger] names.contains(name) by {
            if names.contains(name) {
                let j = choose|j: int| 0 <= j < names.len() && names[j] == name;
                assert(out@[j]@ == registry.entries@[j].0@);
                registry.lemma_at(j);
            }
            if registry@.dom().contains(name) {
                let j = choose|j: int| stands_for(registry.entries@, name, j);
                assert(stands_for(registry.entries@, name, j));
                assert(names[j] == out@[j]@);
            }
        }
        assert forall|a: int, b: int| 0 <= a < names.len() && 0 <= b < names.len() && a != b implies
            names[a] != names[b] by {
            assert(names[a] == out@[a]@ && names[b] == out@[b]@);
            if a < b {
                assert(registry.entries@[a].0@ != registry.entries@[b].0@);
            } else {
                assert(registry.entries@[b].0@ != registry.entries@[a].0@);
            }
        }
    }
    out
}

/// What was registered is found again, and nothing else is touched; the order in which
/// two tables are registered does not matter.
pub proof fn law_registration_order(
    known: Map<Seq<char>, TableFacts>,
    a: Seq<char>,
    a_facts: TableFacts,
    b: Seq<char>,
    b_facts: TableFacts,
)
    requires
        a != b,
    ensures
        known.insert(a, a_facts).insert(b, b_facts) == known.insert(b, b_facts).insert(a, a_facts),
        known.insert(a, a_facts).insert(b, b_facts)[a] == a_facts,
        known.insert(a, a_facts).insert(b, b_facts)[b] == b_facts,
{
    assert(known.insert(a, a_facts).insert(b, b_facts) =~= known.insert(b, b_facts).insert(
        a,
        a_facts,
    ));
}

/// What is known of a table is the statement that makes it and the names of its fields.
pub proof fn law_facts_of_tables(entry: TableEntry)
    ensures
        entry@.create_sql == entry.create_sql@,
        entry@.fields == text::texts(entry.fields@),
{
}

} // verus!
