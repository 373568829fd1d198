//! How much room the names of database objects take up in Arrow's columns.

use vstd::prelude::*;

use crate::builders::{text_size, texts_size, MAX_OFFSET};
use crate::metadata::objects::{
    all_columns, all_tables, column_names, kinds_of_tables, listed, names_of_columns,
    names_of_schemas, names_of_tables, numbered, own_tables, schemas_fit, Listing, SchemaView,
    TableView,
};

verus! {

/// A size, as far as it matters: whatever is larger than the largest offset is too large.
pub open spec fn capped(n: nat) -> nat {
    if n > MAX_OFFSET {
        MAX_OFFSET as nat + 1
    } else {
        n
    }
}

/// How many texts a column holds, and how many bytes they take up.
#[derive(Clone, Copy)]
pub struct Taken {
    texts: u32,
    bytes: u32,
}

impl Taken {
    /// The column holds the texts.
    pub closed spec fn measures(self, texts: Seq<Seq<char>>) -> bool {
        &&& self.texts == capped(texts.len())
        &&& self.bytes == capped(texts_size(texts))
    }

    /// A column without texts.
    pub(crate) fn new() -> (r: Self)
        ensures
            r.measures(Seq::empty()),
    {
        Taken { texts: 0, bytes: 0 }
    }

    /// The column with one more text.
    pub(crate) fn with(self, text: &str, Ghost(texts): Ghost<Seq<Seq<char>>>) -> (r: Self)
        requires
            self.measures(texts),
        ensures
            r.measures(texts.push(text@)),
    {
        proof {
            assert(texts.push(text@).drop_last() =~= texts);
        }
        Taken { texts: add_capped(self.texts, 1), bytes: add_capped(self.bytes, text_len(text)) }
    }

    /// Whether the texts fit a column.
    pub(crate) fn fits(self, Ghost(texts): Ghost<Seq<Seq<char>>>) -> (r: bool)
        requires
            self.measures(texts),
        ensures
            r == (texts.len() <= MAX_OFFSET && texts_size(texts) <= MAX_OFFSET),
    {
        self.texts <= MAX_OFFSET && self.bytes <= MAX_OFFSET
    }
}

/// The number of bytes that a text takes up.
pub fn text_len(text: &str) -> (r: usize)
    ensures
        r == text_size(text@),
{
    text.as_bytes().len()
}

/// Adds sizes, as far as it matters.
pub(crate) fn add_capped(a: u32, b: usize) -> (r: u32)
    requires
        a <= MAX_OFFSET + 1,
    ensures
        r == capped(a as nat + b as nat),
{
    if a > MAX_OFFSET || b > MAX_OFFSET as usize {
        MAX_OFFSET + 1
    } else {
        let sum = a as u64 + b as u64;
        if sum > MAX_OFFSET as u64 {
            MAX_OFFSET + 1
        } else {
            sum as u32
        }
    }
}

/// How much room the schemas of a catalog take up, with their tables and columns.
#[derive(Clone, Copy)]
pub struct Room {
    schemas: Taken,
    tables: Taken,
    kinds: Taken,
    columns: Taken,
}

impl Room {
    /// The columns hold the tables and their columns.
    pub closed spec fn measures_tables(self, tables: Seq<TableView>) -> bool {
        &&& self.tables.measures(names_of_tables(tables))
        &&& self.kinds.measures(kinds_of_tables(tables))
        &&& self.columns.measures(names_of_columns(all_columns(tables)))
    }

    /// The columns hold the schemas, their tables and their columns.
    pub closed spec fn measures(self, schemas: Seq<SchemaView>) -> bool {
        &&& self.schemas.measures(names_of_schemas(schemas))
        &&& self.measures_tables(all_tables(schemas))
    }

    /// Columns without schemas.
    pub(crate) fn new() -> (r: Self)
        ensures
            r.measures(Seq::empty()),
    {
        proof {
            let none = Seq::<SchemaView>::empty();
            assert(names_of_schemas(none) =~= Seq::<Seq<char>>::empty());
            assert(names_of_tables(all_tables(none)) =~= Seq::<Seq<char>>::empty());
            assert(kinds_of_tables(all_tables(none)) =~= Seq::<Seq<char>>::empty());
            assert(names_of_columns(all_columns(all_tables(none))) =~= Seq::<Seq<char>>::empty());
        }
        Room {
            schemas: Taken::new(),
            tables: Taken::new(),
            kinds: Taken::new(),
            columns: Taken::new(),
        }
    }

    /// With one more table and without its columns.
    fn with_table(self, name: &str, kind: &str, Ghost(tables): Ghost<Seq<TableView>>) -> (r: Self)
        requires
            self.measures_tables(tables),
        ensures
            r.schemas == self.schemas,
            r.columns == self.columns,
            forall|columns: Option<Seq<Seq<char>>>|
                {
                    let more = tables.push(#[trigger] a_table(name@, kind@, columns));
                    r.tables.measures(names_of_tables(more)) && r.kinds.measures(
                        kinds_of_tables(more),
                    )
                },
    {
        let r = Room {
            tables: self.tables.with(name, Ghost(names_of_tables(tables))),
            kinds: self.kinds.with(kind, Ghost(kinds_of_tables(tables))),
            ..self
        };
        proof {
            assert forall|columns: Option<Seq<Seq<char>>>|
                {
                    let more = tables.push(#[trigger] a_table(name@, kind@, columns));
                    r.tables.measures(names_of_tables(more)) && r.kinds.measures(
                        kinds_of_tables(more),
                    )
                } by {
                let more = tables.push(a_table(name@, kind@, columns));
                assert(names_of_tables(more) =~= names_of_tables(tables).push(name@));
                assert(kinds_of_tables(more) =~= kinds_of_tables(tables).push(kind@));
            }
        }
        r
    }

    /// With what is listed below a schema.
    fn with_listing(self, listing: &Listing, Ghost(tables): Ghost<Seq<TableView>>) -> (r: Self)
        requires
            self.measures_tables(tables),
        ensures
            r.schemas == self.schemas,
            r.measures_tables(
                tables + match listed(*listing) {
                    Some(more) => more,
                    None => Seq::empty(),
                },
            ),
    {
        let mut r = self;
        match listing {
            Listing::Nothing => {
                assert(tables + Seq::<TableView>::empty() =~= tables);
            },
            Listing::Tables(more) => {
                let ghost all = listed(*listing)->Some_0;
                let mut i: usize = 0;
                assert(tables + all.take(0) =~= tables);
                while i < more.len()
                    invariant
                        i <= more.len(),
                        *listing == Listing::Tables(*more),
                        listed(*listing) == Some(all),
                        all.len() == more.len(),
                        r.schemas == self.schemas,
                        r.measures_tables(tables + all.take(i as int)),
                    decreases more.len() - i,
                {
                    let ghost so_far = tables + all.take(i as int);
                    let table = &more[i];
                    r = r.with_table(
                        table.table_name.as_str(),
                        table.table_type.as_str(),
                        Ghost(so_far),
                    );
                    proof {
                        let added = a_table(table.table_name@, table.table_type@, None);
                        assert(all[i as int] == added);
                        assert(tables + all.take(i + 1) =~= so_far.push(added));
                        assert(so_far.push(added).drop_last() =~= so_far);
                        assert(all_columns(so_far.push(added)) =~= all_columns(so_far));
                    }
                    i += 1;
                }
                assert(all.take(all.len() as int) =~= all);
            },
            Listing::Columns(more) => {
                let ghost all = listed(*listing)->Some_0;
                let mut i: usize = 0;
                assert(tables + all.take(0) =~= tables);
                while i < more.len()
                    invariant
                        i <= more.len(),
                        *listing == Listing::Columns(*more),
                        listed(*listing) == Some(all),
                        all.len() == more.len(),
                        r.schemas == self.schemas,
                        r.measures_tables(tables + all.take(i as int)),
                    decreases more.len() - i,
                {
                    let ghost so_far = tables + all.take(i as int);
                    let table = &more[i].table;
                    let columns = &more[i].columns;
                    r = r.with_table(
                        table.table_name.as_str(),
                        table.table_type.as_str(),
                        Ghost(so_far),
                    );
                    let ghost earlier = names_of_columns(all_columns(so_far));
                    let ghost names = all[i as int].columns->Some_0;
                    let mut j: usize = 0;
                    assert(earlier + names.take(0) =~= earlier);
                    let mut taken = r.columns;
                    while j < columns.len()
                        invariant
                            j <= columns.len(),
                            i < more.len(),
                            *columns == more@[i as int].columns,
                            names == column_names(columns@),
                            taken.measures(earlier + names.take(j as int)),
                        decreases columns.len() - j,
                    {
                        let ghost held = earlier + names.take(j as int);
                        taken = taken.with(columns[j].column_name.as_str(), Ghost(held));
                        proof {
                            assert(earlier + names.take(j + 1) =~= held.push(names[j as int]));
                        }
                        j += 1;
                    }
                    r = Room { columns: taken, ..r };
                    proof {
                        assert(names.take(names.len() as int) =~= names);
                        let added = a_table(table.table_name@, table.table_type@, Some(names));
                        assert(all[i as int] == added);
                        assert(tables + all.take(i + 1) =~= so_far.push(added));
                        assert(so_far.push(added).drop_last() =~= so_far);
                        assert(names_of_columns(all_columns(so_far) + numbered(names)) =~= earlier
                            + names);
                    }
                    i += 1;
                }
                assert(all.take(all.len() as int) =~= all);
            },
        }
        r
    }

    /// With one more schema and what is listed below it.
    pub(crate) fn with_schema(
        self,
        name: &str,
        listing: &Listing,
        Ghost(schemas): Ghost<Seq<SchemaView>>,
    ) -> (r: Self)
        requires
            self.measures(schemas),
        ensures
            r.measures(schemas.push(SchemaView { name: name@, tables: listed(*listing) })),
    {
        let ghost schema = SchemaView { name: name@, tables: listed(*listing) };
        let named = Room {
            schemas: self.schemas.with(name, Ghost(names_of_schemas(schemas))),
            ..self
        };
        proof {
            let more = schemas.push(schema);
            assert(names_of_schemas(more) =~= names_of_schemas(schemas).push(name@));
            assert(more.drop_last() =~= schemas);
            assert(all_tables(more) == all_tables(schemas) + own_tables(schema));
        }
        named.with_listing(listing, Ghost(all_tables(schemas)))
    }

    /// Whether the schemas fit the columns.
    pub(crate) fn fits(self, Ghost(schemas): Ghost<Seq<SchemaView>>) -> (r: bool)
        requires
            self.measures(schemas),
        ensures
            r == schemas_fit(schemas),
    {
        let ghost tables = all_tables(schemas);
        let columns_fit = self.columns.fits(Ghost(names_of_columns(all_columns(tables))));
        let tables_fit = self.tables.fits(Ghost(names_of_tables(tables)));
        let kinds_fit = self.kinds.fits(Ghost(kinds_of_tables(tables)));
        let schemas_fit = self.schemas.fits(Ghost(names_of_schemas(schemas)));
        schemas_fit && tables_fit && kinds_fit && columns_fit
    }
}

/// A table.
pub open spec fn a_table(
    name: Seq<char>,
    kind: Seq<char>,
    columns: Option<Seq<Seq<char>>>,
) -> TableView {
    TableView { name, kind, columns }
}

} // verus!
