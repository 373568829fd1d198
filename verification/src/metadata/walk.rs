//! The walk down the hierarchy of database objects, catalog by catalog.
//!
//! The walk never calls a server. It says what to ask next, takes the answers, and hands out one
//! batch for each catalog.

use std::collections::VecDeque;

use vstd::prelude::*;

use crate::builders::{built_texts, text_size, ListContent, TextBuilder, MAX_OFFSET};
use crate::columns::Batch;
use crate::error::{display_view, ArrowError, Error, ErrorHelper, ErrorView, FlightSqlErrorHelper};
use crate::metadata::objects::{
    all_columns, all_tables, append_catalog, append_db_schema, full_table_views, get_objects_schema,
    holds_catalog, kinds_of_tables, lemma_schemas_fit, listed, lists, names_of_columns,
    names_of_schemas, names_of_tables, schemas_content, schemas_fit, table_views, CatalogSchemas,
    Listing, ObjectDepth, SchemaView, TableAndColumnInfo, TableInfo, TableView,
};
use crate::metadata::room::{text_len, Room};
use crate::text::{
    copy_opt, copy_texts, has_part, holds_part, opt_str_view, opt_view, own_opt, views,
};

verus! {

/// A request for the schemas of a catalog.
pub struct CommandGetDbSchemas {
    pub catalog: Option<String>,
    pub db_schema_filter_pattern: Option<String>,
}

/// The content of a [`CommandGetDbSchemas`].
#[verifier::ext_equal]
pub struct DbSchemasCommandView {
    pub catalog: Option<Seq<char>>,
    pub db_schema_filter_pattern: Option<Seq<char>>,
}

impl View for CommandGetDbSchemas {
    type V = DbSchemasCommandView;

    open spec fn view(&self) -> DbSchemasCommandView {
        DbSchemasCommandView {
            catalog: opt_view(self.catalog),
            db_schema_filter_pattern: opt_view(self.db_schema_filter_pattern),
        }
    }
}

/// A request for tables.
pub struct CommandGetTables {
    pub catalog: Option<String>,
    pub db_schema_filter_pattern: Option<String>,
    pub table_name_filter_pattern: Option<String>,
    pub table_types: Vec<String>,
    pub include_schema: bool,
}

/// The content of a [`CommandGetTables`].
#[verifier::ext_equal]
pub struct TablesCommandView {
    pub catalog: Option<Seq<char>>,
    pub db_schema_filter_pattern: Option<Seq<char>>,
    pub table_name_filter_pattern: Option<Seq<char>>,
    pub table_types: Seq<Seq<char>>,
    pub include_schema: bool,
}

impl View for CommandGetTables {
    type V = TablesCommandView;

    open spec fn view(&self) -> TablesCommandView {
        TablesCommandView {
            catalog: opt_view(self.catalog),
            db_schema_filter_pattern: opt_view(self.db_schema_filter_pattern),
            table_name_filter_pattern: opt_view(self.table_name_filter_pattern),
            table_types: views(self.table_types@),
            include_schema: self.include_schema,
        }
    }
}

/// A name to ask for: an empty one asks for nothing in particular.
pub open spec fn asked_name(name: Seq<char>) -> Option<Seq<char>> {
    if name.len() == 0 {
        None
    } else {
        Some(name)
    }
}

/// A name to ask for.
fn ask_name(name: &str) -> (r: Option<String>)
    ensures
        opt_view(r) == asked_name(name@),
{
    if name.is_empty() {
        None
    } else {
        Some(name.to_owned())
    }
}

/// The request for the schemas of a catalog.
pub open spec fn db_schemas_command(
    catalog: Seq<char>,
    filter: Option<Seq<char>>,
) -> DbSchemasCommandView {
    DbSchemasCommandView { catalog: asked_name(catalog), db_schema_filter_pattern: filter }
}

/// The request for the tables of a schema.
pub open spec fn tables_command(
    catalog: Seq<char>,
    db_schema: Seq<char>,
    table_filter: Option<Seq<char>>,
    table_types: Option<Seq<Seq<char>>>,
    include_schema: bool,
) -> TablesCommandView {
    TablesCommandView {
        catalog: asked_name(catalog),
        db_schema_filter_pattern: asked_name(db_schema),
        table_name_filter_pattern: table_filter,
        table_types: match table_types {
            Some(types) => types,
            None => Seq::empty(),
        },
        include_schema,
    }
}

/// The catalogs to walk through: all that were found and hold the filter. Where none was found, a
/// nameless catalog stands in, so that a server without catalogs still shows its schemas.
pub open spec fn selected(found: Seq<Seq<char>>, filter: Option<Seq<char>>) -> Seq<Seq<char>> {
    if found.len() == 0 {
        seq![Seq::empty()]
    } else {
        match filter {
            Some(f) => found.filter(|name: Seq<char>| holds_part(name, f)),
            None => found,
        }
    }
}

/// The content of a queue of names.
pub open spec fn queue_view(names: Seq<String>) -> Seq<Seq<char>> {
    names.map_values(|s: String| s@)
}

/// Selects the catalogs to walk through.
pub fn get_catalogs(found: Vec<String>, filter: Option<&str>) -> (r: VecDeque<String>)
    ensures
        queue_view(r@) == selected(views(found@), opt_str_view(filter)),
{
    let mut r: VecDeque<String> = VecDeque::new();
    if found.len() == 0 {
        let nameless = String::new();
        r.push_back(nameless);
        assert(queue_view(r@) =~= seq![Seq::<char>::empty()]);
        return r;
    }
    let ghost names = views(found@);
    let ghost wanted = |name: Seq<char>| match opt_str_view(filter) {
        Some(f) => holds_part(name, f),
        None => true,
    };
    let mut i: usize = 0;
    proof {
        assert(names.take(0) =~= Seq::<Seq<char>>::empty());
        assert(queue_view(r@) =~= Seq::<Seq<char>>::empty());
        reveal(Seq::filter);
    }
    while i < found.len()
        invariant
            i <= found.len(),
            names == views(found@),
            wanted == (|name: Seq<char>| match opt_str_view(filter) {
                Some(f) => holds_part(name, f),
                None => true,
            }),
            queue_view(r@) == names.take(i as int).filter(wanted),
        decreases found.len() - i,
    {
        proof {
            reveal(Seq::filter);
            assert(names.take(i + 1).drop_last() =~= names.take(i as int));
            assert(names.take(i + 1).last() == found@[i as int]@);
        }
        let keep = match filter {
            Some(f) => has_part(found[i].as_str(), f),
            None => true,
        };
        if keep {
            let ghost before = r@;
            r.push_back(found[i].clone());
            assert(queue_view(r@) =~= queue_view(before).push(found@[i as int]@));
        }
        i += 1;
    }
    proof {
        assert(names.take(names.len() as int) =~= names);
        match filter {
            Some(f) => {
                assert(wanted =~= (|name: Seq<char>| holds_part(name, f@)));
            },
            None => {
                lemma_all_kept(names, wanted);
            },
        }
    }
    r
}

/// A filter that lets everything through changes nothing.
proof fn lemma_all_kept(names: Seq<Seq<char>>, wanted: spec_fn(Seq<char>) -> bool)
    requires
        forall|name: Seq<char>| #[trigger] wanted(name),
    ensures
        names.filter(wanted) == names,
    decreases names.len(),
{
    reveal(Seq::filter);
    if names.len() > 0 {
        lemma_all_kept(names.drop_last(), wanted);
        assert(names.drop_last().push(names.last()) =~= names);
    }
}

/// What to ask a server next.
pub enum ObjectsRequest {
    /// All catalogs.
    Catalogs,
    /// The schemas of a catalog.
    DbSchemas(CommandGetDbSchemas),
    /// The tables of a schema.
    Tables(CommandGetTables),
    /// The tables of a schema with their columns.
    Columns(CommandGetTables),
}

/// The content of an [`ObjectsRequest`].
#[verifier::ext_equal]
pub enum RequestView {
    Catalogs,
    DbSchemas(DbSchemasCommandView),
    Tables(TablesCommandView),
    Columns(TablesCommandView),
}

impl View for ObjectsRequest {
    type V = RequestView;

    open spec fn view(&self) -> RequestView {
        match self {
            ObjectsRequest::Catalogs => RequestView::Catalogs,
            ObjectsRequest::DbSchemas(c) => RequestView::DbSchemas(c@),
            ObjectsRequest::Tables(c) => RequestView::Tables(c@),
            ObjectsRequest::Columns(c) => RequestView::Columns(c@),
        }
    }
}

/// What the walk does next.
pub enum Step {
    /// It asks, and goes on with the answer.
    Ask(ObjectsRequest),
    /// It hands out a batch, or an error after which it is over.
    Yield(Result<Batch, ArrowError>),
    /// It is over.
    End,
}

/// Where the walk stands.
enum BuilderState {
    Uninit,
    ReadCatalogs(VecDeque<String>),
    /// The schemas of a catalog are to be asked for.
    ReadSchemas { catalog: String, rest: VecDeque<String> },
    /// The tables of the first of `schemas` are to be asked for.
    ReadTables { catalog: String, schemas: VecDeque<String>, rest: VecDeque<String> },
    Finished,
}

/// Where the walk stands.
#[verifier::ext_equal]
pub enum Phase {
    /// The catalogs are to be asked for.
    Uninit,
    /// The catalogs that are left.
    Catalogs(Seq<Seq<char>>),
    /// The schemas of a catalog are to be asked for.
    Schemas { catalog: Seq<char>, rest: Seq<Seq<char>> },
    /// The schemas of a catalog: those that are done, and the names of those that are left.
    Tables {
        catalog: Seq<char>,
        done: Seq<SchemaView>,
        schemas: Seq<Seq<char>>,
        rest: Seq<Seq<char>>,
    },
    Finished,
}

/// What the walk was started with.
#[verifier::ext_equal]
pub struct Scope {
    pub depth: ObjectDepth,
    pub catalog: Option<Seq<char>>,
    pub db_schema: Option<Seq<char>>,
    pub table_name: Option<Seq<char>>,
    pub table_type: Option<Seq<Seq<char>>>,
    pub column_name: Option<Seq<char>>,
}

impl Scope {
    /// The walk goes down to tables, or further.
    pub open spec fn reaches_tables(self) -> bool {
        !(self.depth is Catalogs) && !(self.depth is Schemas)
    }

    /// What is asked for the tables of a schema.
    pub open spec fn tables_request(self, catalog: Seq<char>, db_schema: Seq<char>) -> RequestView {
        if self.depth is Tables {
            RequestView::Tables(
                tables_command(catalog, db_schema, self.table_name, self.table_type, false),
            )
        } else {
            RequestView::Columns(
                tables_command(catalog, db_schema, self.table_name, self.table_type, true),
            )
        }
    }
}

/// What the walk does next, by its content.
#[verifier::ext_equal]
pub enum Outcome {
    /// It asks.
    Ask(RequestView),
    /// It hands out the batch of a catalog, with the schemas of the catalog if it lists them.
    Catalog(Seq<char>, Option<Seq<SchemaView>>),
    /// It is over.
    End,
}

/// What the walk does next from where it stands.
pub open spec fn next_outcome(scope: Scope, phase: Phase) -> Outcome {
    match phase {
        Phase::Uninit => Outcome::Ask(RequestView::Catalogs),
        Phase::Catalogs(catalogs) => if catalogs.len() == 0 {
            Outcome::End
        } else if scope.depth is Catalogs {
            Outcome::Catalog(catalogs[0], None)
        } else {
            Outcome::Ask(
                RequestView::DbSchemas(db_schemas_command(catalogs[0], scope.db_schema)),
            )
        },
        Phase::Schemas { catalog, .. } => Outcome::Ask(
            RequestView::DbSchemas(db_schemas_command(catalog, scope.db_schema)),
        ),
        Phase::Tables { catalog, done, schemas, .. } => if schemas.len() == 0 {
            Outcome::Catalog(catalog, Some(done))
        } else {
            Outcome::Ask(scope.tables_request(catalog, schemas[0]))
        },
        Phase::Finished => Outcome::End,
    }
}

/// Where the walk stands once it did what it does next.
pub open spec fn next_phase(scope: Scope, phase: Phase) -> Phase {
    match phase {
        Phase::Catalogs(catalogs) => if catalogs.len() == 0 {
            Phase::Finished
        } else if scope.depth is Catalogs {
            Phase::Catalogs(catalogs.drop_first())
        } else {
            Phase::Schemas { catalog: catalogs[0], rest: catalogs.drop_first() }
        },
        Phase::Tables { schemas, rest, .. } if schemas.len() == 0 => Phase::Catalogs(rest),
        _ => phase,
    }
}

/// The step has the content.
pub open spec fn is_step(step: Step, outcome: Outcome) -> bool {
    match outcome {
        Outcome::Ask(request) => step matches Step::Ask(r) && r@ == request,
        Outcome::Catalog(name, schemas) => step matches Step::Yield(Ok(batch)) && holds_catalog(
            batch,
            name,
            schemas,
        ),
        Outcome::End => step is End,
    }
}

/// The walk: its scope, where it stands, and the columns that it builds.
pub struct BatchIterator {
    depth: ObjectDepth,
    catalog_filter: Option<String>,
    db_schema_filter: Option<String>,
    table_name_filter: Option<String>,
    table_type_filter: Option<Vec<String>>,
    column_name_filter: Option<String>,
    state: BuilderState,
    catalog_name: TextBuilder,
    catalog_db_schemas: CatalogSchemas,
    room: Room,
    done: Ghost<Seq<SchemaView>>,
}

/// The view of optional texts.
pub open spec fn opt_views(texts: Option<Vec<String>>) -> Option<Seq<Seq<char>>> {
    match texts {
        Some(t) => Some(views(t@)),
        None => None,
    }
}

/// Every name fits a column of texts.
pub open spec fn names_fit(names: Seq<Seq<char>>) -> bool {
    forall|i: int| 0 <= i < names.len() ==> text_size(#[trigger] names[i]) <= MAX_OFFSET
}

/// The text of an error, as an Arrow error wraps it.
pub open spec fn wrapped(error: ErrorView) -> Seq<char> {
    display_view("adbc_flightsql"@, error)
}

/// The Arrow error wraps the error.
pub open spec fn wraps(arrow: ArrowError, error: ErrorView) -> bool {
    arrow matches ArrowError::ExternalError(text) && text@ == wrapped(error)
}

impl BatchIterator {
    /// What the walk was started with.
    pub closed spec fn scope(&self) -> Scope {
        Scope {
            depth: self.depth,
            catalog: opt_view(self.catalog_filter),
            db_schema: opt_view(self.db_schema_filter),
            table_name: opt_view(self.table_name_filter),
            table_type: opt_views(self.table_type_filter),
            column_name: opt_view(self.column_name_filter),
        }
    }

    /// Where the walk stands.
    pub closed spec fn phase(&self) -> Phase {
        match self.state {
            BuilderState::Uninit => Phase::Uninit,
            BuilderState::ReadCatalogs(catalogs) => Phase::Catalogs(queue_view(catalogs@)),
            BuilderState::ReadSchemas { catalog, rest } => Phase::Schemas {
                catalog: catalog@,
                rest: queue_view(rest@),
            },
            BuilderState::ReadTables { catalog, schemas, rest } => Phase::Tables {
                catalog: catalog@,
                done: self.done@,
                schemas: queue_view(schemas@),
                rest: queue_view(rest@),
            },
            BuilderState::Finished => Phase::Finished,
        }
    }

    /// The columns hold the schemas that are done, and nothing else.
    pub closed spec fn wf(&self) -> bool {
        &&& !(self.phase() is Finished) ==> {
            &&& built_texts(self.catalog_name) == Seq::<Seq<char>>::empty()
            &&& lists(self.catalog_db_schemas) == (ListContent {
                rows: Seq::empty(),
                items: schemas_content(self.done@),
            })
            &&& schemas_fit(self.done@)
            &&& self.room.measures(self.done@)
            &&& !(self.phase() is Tables) ==> self.done@ == Seq::<SchemaView>::empty()
        }
        &&& match self.phase() {
            Phase::Catalogs(catalogs) => names_fit(catalogs),
            Phase::Schemas { catalog, rest } => text_size(catalog) <= MAX_OFFSET && names_fit(rest)
                && !(self.depth is Catalogs),
            Phase::Tables { catalog, schemas, rest, .. } => text_size(catalog) <= MAX_OFFSET
                && names_fit(rest) && !(self.depth is Catalogs) && (self.depth is Schemas
                ==> schemas.len() == 0),
            _ => true,
        }
    }

    /// Starts a walk.
    pub fn new(
        depth: ObjectDepth,
        catalog: Option<&str>,
        db_schema: Option<&str>,
        table_name: Option<&str>,
        table_type: Option<Vec<String>>,
        column_name: Option<&str>,
    ) -> (r: Self)
        ensures
            r.wf(),
            r.phase() is Uninit,
            r.scope() == (Scope {
                depth,
                catalog: opt_str_view(catalog),
                db_schema: opt_str_view(db_schema),
                table_name: opt_str_view(table_name),
                table_type: opt_views(table_type),
                column_name: opt_str_view(column_name),
            }),
    {
        let schema = get_objects_schema();
        let r = BatchIterator {
            depth,
            catalog_filter: own_opt(catalog),
            db_schema_filter: own_opt(db_schema),
            table_name_filter: own_opt(table_name),
            table_type_filter: table_type,
            column_name_filter: own_opt(column_name),
            state: BuilderState::Uninit,
            catalog_name: TextBuilder::with_capacity(32, 65536),
            catalog_db_schemas: CatalogSchemas::new(&schema),
            room: Room::new(),
            done: Ghost(Seq::empty()),
        };
        proof {
            lemma_nothing_fits();
        }
        r
    }

    /// The request for the schemas of a catalog.
    fn ask_db_schemas(&self, catalog: &str) -> (r: ObjectsRequest)
        ensures
            r@ == RequestView::DbSchemas(db_schemas_command(catalog@, self.scope().db_schema)),
    {
        ObjectsRequest::DbSchemas(
            CommandGetDbSchemas {
                catalog: ask_name(catalog),
                db_schema_filter_pattern: copy_opt(&self.db_schema_filter),
            },
        )
    }

    /// The request for the tables of a schema.
    fn ask_tables(&self, catalog: &str, db_schema: &str) -> (r: ObjectsRequest)
        ensures
            r@ == self.scope().tables_request(catalog@, db_schema@),
    {
        let table_types = match &self.table_type_filter {
            Some(types) => copy_texts(types),
            None => {
                let none: Vec<String> = Vec::new();
                assert(views(none@) =~= Seq::<Seq<char>>::empty());
                none
            },
        };
        let include_schema = match self.depth {
            ObjectDepth::Tables => false,
            _ => true,
        };
        let command = CommandGetTables {
            catalog: ask_name(catalog),
            db_schema_filter_pattern: ask_name(db_schema),
            table_name_filter_pattern: copy_opt(&self.table_name_filter),
            table_types,
            include_schema,
        };
        if include_schema {
            ObjectsRequest::Columns(command)
        } else {
            ObjectsRequest::Tables(command)
        }
    }

    /// Hands out the batch of a catalog, and leaves the other catalogs.
    fn hand_out(&mut self, catalog: &str, deep: bool, rest: VecDeque<String>) -> (r: Step)
        requires
            built_texts(old(self).catalog_name) == Seq::<Seq<char>>::empty(),
            lists(old(self).catalog_db_schemas) == (ListContent {
                rows: Seq::empty(),
                items: schemas_content(old(self).done@),
            }),
            schemas_fit(old(self).done@),
            text_size(catalog@) <= MAX_OFFSET,
            names_fit(queue_view(rest@)),
            !deep ==> old(self).done@.len() == 0,
        ensures
            final(self).wf(),
            final(self).scope() == old(self).scope(),
            final(self).phase() == Phase::Catalogs(queue_view(rest@)),
            r matches Step::Yield(Ok(batch)) && holds_catalog(
                batch,
                catalog@,
                if deep {
                    Some(old(self).done@)
                } else {
                    None
                },
            ),
    {
        let batch = append_catalog(
            catalog,
            deep,
            &mut self.catalog_name,
            &mut self.catalog_db_schemas,
            Ghost(self.done@),
        );
        self.room = Room::new();
        self.done = Ghost(Seq::empty());
        proof {
            lemma_nothing_fits();
        }
        match batch {
            Ok(b) => {
                self.state = BuilderState::ReadCatalogs(rest);
                Step::Yield(Ok(b))
            },
            Err(e) => {
                self.state = BuilderState::Finished;
                Step::Yield(Err(ArrowError::InvalidArgumentError(e)))
            },
        }
    }

    /// Goes on with the walk.
    pub fn next(&mut self) -> (r: Step)
        requires
            old(self).wf(),
        ensures
            final(self).wf(),
            final(self).scope() == old(self).scope(),
            final(self).phase() == next_phase(old(self).scope(), old(self).phase()),
            is_step(r, next_outcome(old(self).scope(), old(self).phase())),
    {
        let mut state = BuilderState::Finished;
        std::mem::swap(&mut state, &mut self.state);
        match state {
            BuilderState::Uninit => {
                self.state = BuilderState::Uninit;
                Step::Ask(ObjectsRequest::Catalogs)
            },
            BuilderState::ReadCatalogs(catalogs) => {
                let mut catalogs = catalogs;
                let ghost all = queue_view(catalogs@);
                match catalogs.pop_front() {
                    None => Step::End,
                    Some(catalog) => {
                        assert(queue_view(catalogs@) =~= all.drop_first());
                        assert(catalog@ == all[0]);
                        assert(names_fit(queue_view(catalogs@))) by {
                            assert forall|i: int| 0 <= i < all.drop_first().len() implies text_size(
                                #[trigger] all.drop_first()[i],
                            ) <= MAX_OFFSET by {
                                assert(all.drop_first()[i] == all[i + 1]);
                            }
                        }
                        match self.depth {
                            ObjectDepth::Catalogs => self.hand_out(
                                catalog.as_str(),
                                false,
                                catalogs,
                            ),
                            _ => {
                                let request = self.ask_db_schemas(catalog.as_str());
                                self.state = BuilderState::ReadSchemas { catalog, rest: catalogs };
                                Step::Ask(request)
                            },
                        }
                    },
                }
            },
            BuilderState::ReadSchemas { catalog, rest } => {
                let request = self.ask_db_schemas(catalog.as_str());
                self.state = BuilderState::ReadSchemas { catalog, rest };
                Step::Ask(request)
            },
            BuilderState::ReadTables { catalog, schemas, rest } => {
                if schemas.len() == 0 {
                    self.hand_out(catalog.as_str(), true, rest)
                } else {
                    let request = self.ask_tables(catalog.as_str(), schemas[0].as_str());
                    self.state = BuilderState::ReadTables { catalog, schemas, rest };
                    Step::Ask(request)
                }
            },
            BuilderState::Finished => Step::End,
        }
    }
}

/// Nothing fits the offsets.
proof fn lemma_nothing_fits()
    ensures
        schemas_fit(Seq::<SchemaView>::empty()),
{
    let none = Seq::<SchemaView>::empty();
    assert(names_of_schemas(none).len() == 0);
    assert(all_tables(none).len() == 0);
    assert(names_of_tables(all_tables(none)).len() == 0);
    assert(kinds_of_tables(all_tables(none)).len() == 0);
    assert(names_of_columns(all_columns(all_tables(none))).len() == 0);
}

/// Schemas below which nothing is listed.
pub open spec fn bare_schemas(names: Seq<Seq<char>>) -> Seq<SchemaView> {
    names.map_values(|name: Seq<char>| SchemaView { name, tables: None })
}

/// Where the walk stands when the catalogs were answered.
pub open spec fn after_catalogs(scope: Scope, found: Seq<Seq<char>>) -> Phase {
    Phase::Catalogs(selected(found, scope.catalog))
}

/// Where the walk stands when the schemas of a catalog were answered.
pub open spec fn after_db_schemas(
    scope: Scope,
    catalog: Seq<char>,
    rest: Seq<Seq<char>>,
    names: Seq<Seq<char>>,
) -> Phase {
    if scope.depth is Schemas {
        Phase::Tables { catalog, done: bare_schemas(names), schemas: Seq::empty(), rest }
    } else {
        Phase::Tables { catalog, done: Seq::empty(), schemas: names, rest }
    }
}

/// Where the walk stands when the tables of a schema were answered.
pub open spec fn after_tables(phase: Phase, tables: Seq<TableView>) -> Phase {
    match phase {
        Phase::Tables { catalog, done, schemas, rest } => Phase::Tables {
            catalog,
            done: done.push(SchemaView { name: schemas[0], tables: Some(tables) }),
            schemas: schemas.drop_first(),
            rest,
        },
        _ => phase,
    }
}

/// An answer of a server, or what went wrong with it.
#[verifier::ext_equal]
pub enum Answer {
    Catalogs(Seq<Seq<char>>),
    DbSchemas(Seq<Seq<char>>),
    Tables(Seq<TableView>),
    Failed(ErrorView),
}

/// Where the walk stands when it was answered. A failure ends it.
pub open spec fn answered_phase(scope: Scope, phase: Phase, answer: Answer) -> Phase {
    match answer {
        Answer::Catalogs(found) => after_catalogs(scope, found),
        Answer::DbSchemas(names) => match phase {
            Phase::Schemas { catalog, rest } => after_db_schemas(scope, catalog, rest, names),
            _ => phase,
        },
        Answer::Tables(tables) => after_tables(phase, tables),
        Answer::Failed(_) => Phase::Finished,
    }
}

/// What taking an answer gives: nothing, or the error that wraps a failure.
pub open spec fn is_taken(r: Result<(), ArrowError>, answer: Answer) -> bool {
    match answer {
        Answer::Failed(e) => r matches Err(x) && wraps(x, e),
        _ => r is Ok,
    }
}

/// The content of an answer on catalogs.
pub open spec fn catalogs_answer(answer: Result<Vec<String>, Error<FlightSqlErrorHelper>>) -> Answer {
    match answer {
        Ok(found) => Answer::Catalogs(views(found@)),
        Err(e) => Answer::Failed(e@),
    }
}

/// The content of an answer on the schemas of a catalog.
pub open spec fn db_schemas_answer(
    answer: Result<Vec<String>, Error<FlightSqlErrorHelper>>,
) -> Answer {
    match answer {
        Ok(names) => Answer::DbSchemas(views(names@)),
        Err(e) => Answer::Failed(e@),
    }
}

/// The content of an answer on the tables of a schema.
pub open spec fn tables_answer(
    answer: Result<Vec<TableInfo>, Error<FlightSqlErrorHelper>>,
) -> Answer {
    match answer {
        Ok(tables) => Answer::Tables(table_views(tables@)),
        Err(e) => Answer::Failed(e@),
    }
}

/// The content of an answer on the tables of a schema with their columns.
pub open spec fn columns_answer(
    answer: Result<Vec<TableAndColumnInfo>, Error<FlightSqlErrorHelper>>,
) -> Answer {
    match answer {
        Ok(tables) => Answer::Tables(full_table_views(tables@)),
        Err(e) => Answer::Failed(e@),
    }
}

/// The schemas that are done once the tables of a schema were answered.
pub open spec fn done_after(phase: Phase, tables: Seq<TableView>) -> Seq<SchemaView> {
    match after_tables(phase, tables) {
        Phase::Tables { done, .. } => done,
        _ => Seq::empty(),
    }
}

/// A failed answer ends the walk and becomes the Arrow error that wraps it.
fn give_up(error: Error<FlightSqlErrorHelper>) -> (r: ArrowError)
    ensures
        wraps(r, error@),
{
    ArrowError::ExternalError(error.display_text())
}

/// A queue of names.
fn queue(names: Vec<String>) -> (r: VecDeque<String>)
    ensures
        queue_view(r@) == views(names@),
{
    let mut r: VecDeque<String> = VecDeque::new();
    let mut i: usize = 0;
    assert(queue_view(r@) =~= views(names@).take(0));
    while i < names.len()
        invariant
            i <= names.len(),
            queue_view(r@) == views(names@).take(i as int),
        decreases names.len() - i,
    {
        let ghost before = r@;
        r.push_back(names[i].clone());
        proof {
            assert(queue_view(r@) =~= queue_view(before).push(names@[i as int]@));
            assert(views(names@).take(i + 1) =~= views(names@).take(i as int).push(
                names@[i as int]@,
            ));
        }
        i += 1;
    }
    assert(views(names@).take(names@.len() as int) =~= views(names@));
    r
}

impl BatchIterator {
    /// Takes the catalogs that were found.
    pub fn answer_catalogs(&mut self, answer: Result<Vec<String>, Error<FlightSqlErrorHelper>>) -> (r:
        Result<(), ArrowError>)
        requires
            old(self).wf(),
            old(self).phase() is Uninit,
            answer matches Ok(found) ==> names_fit(
                selected(views(found@), old(self).scope().catalog),
            ),
        ensures
            final(self).wf(),
            final(self).scope() == old(self).scope(),
            final(self).phase() == answered_phase(
                old(self).scope(),
                old(self).phase(),
                catalogs_answer(answer),
            ),
            is_taken(r, catalogs_answer(answer)),
    {
        match answer {
            Ok(found) => {
                let filter = match &self.catalog_filter {
                    Some(f) => Some(f.as_str()),
                    None => None,
                };
                let catalogs = get_catalogs(found, filter);
                self.state = BuilderState::ReadCatalogs(catalogs);
                Ok(())
            },
            Err(e) => {
                self.state = BuilderState::Finished;
                Err(give_up(e))
            },
        }
    }

    /// Takes the schemas of the catalog that was asked for.
    pub fn answer_db_schemas(
        &mut self,
        answer: Result<Vec<String>, Error<FlightSqlErrorHelper>>,
    ) -> (r: Result<(), ArrowError>)
        requires
            old(self).wf(),
            old(self).phase() is Schemas,
            answer matches Ok(names) ==> (old(self).scope().depth is Schemas ==> schemas_fit(
                bare_schemas(views(names@)),
            )),
        ensures
            final(self).wf(),
            final(self).scope() == old(self).scope(),
            final(self).phase() == answered_phase(
                old(self).scope(),
                old(self).phase(),
                db_schemas_answer(answer),
            ),
            is_taken(r, db_schemas_answer(answer)),
    {
        let mut state = BuilderState::Finished;
        std::mem::swap(&mut state, &mut self.state);
        match answer {
            Ok(names) => {
                if let BuilderState::ReadSchemas { catalog, rest } = state {
                    let schemas = match self.depth {
                        ObjectDepth::Schemas => {
                            self.append_bare_schemas(&names);
                            assert(queue_view(Seq::<String>::empty()) =~= Seq::<Seq<char>>::empty());
                            VecDeque::new()
                        },
                        _ => queue(names),
                    };
                    self.state = BuilderState::ReadTables { catalog, schemas, rest };
                }
                Ok(())
            },
            Err(e) => Err(give_up(e)),
        }
    }

    /// Adds schemas below which nothing is listed.
    fn append_bare_schemas(&mut self, names: &Vec<String>)
        requires
            lists(old(self).catalog_db_schemas) == (ListContent {
                rows: Seq::empty(),
                items: schemas_content(Seq::empty()),
            }),
            old(self).room.measures(Seq::empty()),
            schemas_fit(bare_schemas(views(names@))),
        ensures
            lists(final(self).catalog_db_schemas) == (ListContent {
                rows: Seq::empty(),
                items: schemas_content(bare_schemas(views(names@))),
            }),
            final(self).done@ == bare_schemas(views(names@)),
            final(self).room.measures(final(self).done@),
            final(self).scope() == old(self).scope(),
            final(self).state == old(self).state,
            final(self).catalog_name == old(self).catalog_name,
    {
        let ghost all = bare_schemas(views(names@));
        let mut i: usize = 0;
        assert(all.take(0) =~= Seq::<SchemaView>::empty());
        while i < names.len()
            invariant
                i <= names.len(),
                all == bare_schemas(views(names@)),
                schemas_fit(all),
                lists(self.catalog_db_schemas) == (ListContent {
                    rows: Seq::empty(),
                    items: schemas_content(all.take(i as int)),
                }),
                self.room.measures(all.take(i as int)),
                self.scope() == old(self).scope(),
                self.state == old(self).state,
                self.catalog_name == old(self).catalog_name,
            decreases names.len() - i,
        {
            let ghost so_far = all.take(i as int);
            proof {
                assert(all.take(i + 1) =~= so_far.push(all[i as int]));
                lemma_schemas_fit(all, i + 1);
            }
            append_db_schema(
                self.catalog_db_schemas.values(),
                names[i].as_str(),
                Listing::Nothing,
                Ghost(so_far),
            );
            self.room = self.room.with_schema(
                names[i].as_str(),
                &Listing::Nothing,
                Ghost(so_far),
            );
            i += 1;
        }
        assert(all.take(all.len() as int) =~= all);
        self.done = Ghost(all);
    }

    /// Adds the first schema that is left and what is listed below it.
    fn append_listing(&mut self, listing: Listing)
        requires
            old(self).wf(),
            old(self).phase() matches Phase::Tables { schemas, .. } && schemas.len() > 0,
            listed(listing) matches Some(tables) && schemas_fit(
                done_after(old(self).phase(), tables),
            ),
        ensures
            final(self).wf(),
            final(self).scope() == old(self).scope(),
            final(self).phase() == after_tables(old(self).phase(), listed(listing)->Some_0),
    {
        let mut state = BuilderState::Finished;
        std::mem::swap(&mut state, &mut self.state);
        if let BuilderState::ReadTables { catalog, schemas, rest } = state {
            let mut schemas = schemas;
            let ghost names = queue_view(schemas@);
            let ghost done = self.done@;
            let first = schemas.pop_front();
            if let Some(name) = first {
                assert(name@ == names[0]);
                assert(queue_view(schemas@) =~= names.drop_first());
                self.room = self.room.with_schema(name.as_str(), &listing, Ghost(done));
                append_db_schema(
                    self.catalog_db_schemas.values(),
                    name.as_str(),
                    listing,
                    Ghost(done),
                );
                self.done = Ghost(
                    done.push(SchemaView { name: name@, tables: listed(listing) }),
                );
            }
            self.state = BuilderState::ReadTables { catalog, schemas, rest };
        }
    }

    /// Takes the tables of the schema that was asked for.
    pub fn answer_tables(
        &mut self,
        answer: Result<Vec<TableInfo>, Error<FlightSqlErrorHelper>>,
    ) -> (r: Result<(), ArrowError>)
        requires
            old(self).wf(),
            old(self).phase() matches Phase::Tables { schemas, .. } && schemas.len() > 0,
            answer matches Ok(tables) ==> schemas_fit(
                done_after(old(self).phase(), table_views(tables@)),
            ),
        ensures
            final(self).wf(),
            final(self).scope() == old(self).scope(),
            final(self).phase() == answered_phase(
                old(self).scope(),
                old(self).phase(),
                tables_answer(answer),
            ),
            is_taken(r, tables_answer(answer)),
    {
        match answer {
            Ok(tables) => {
                self.append_listing(Listing::Tables(&tables));
                Ok(())
            },
            Err(e) => {
                self.state = BuilderState::Finished;
                Err(give_up(e))
            },
        }
    }

    /// Takes the tables of the schema that was asked for, with their columns.
    pub fn answer_columns(
        &mut self,
        answer: Result<Vec<TableAndColumnInfo>, Error<FlightSqlErrorHelper>>,
    ) -> (r: Result<(), ArrowError>)
        requires
            old(self).wf(),
            old(self).phase() matches Phase::Tables { schemas, .. } && schemas.len() > 0,
            answer matches Ok(tables) ==> schemas_fit(
                done_after(old(self).phase(), full_table_views(tables@)),
            ),
        ensures
            final(self).wf(),
            final(self).scope() == old(self).scope(),
            final(self).phase() == answered_phase(
                old(self).scope(),
                old(self).phase(),
                columns_answer(answer),
            ),
            is_taken(r, columns_answer(answer)),
    {
        match answer {
            Ok(tables) => {
                self.append_listing(Listing::Columns(&tables));
                Ok(())
            },
            Err(e) => {
                self.state = BuilderState::Finished;
                Err(give_up(e))
            },
        }
    }
}

impl BatchIterator {
    /// Whether the catalogs that were found fit the columns.
    pub fn fits_catalogs(&self, found: &Vec<String>) -> (r: bool)
        ensures
            r == names_fit(selected(views(found@), self.scope().catalog)),
    {
        let ghost names = views(found@);
        let ghost all = selected(names, self.scope().catalog);
        let mut i: usize = 0;
        while i < found.len()
            invariant
                i <= found.len(),
                names == views(found@),
                all == selected(names, self.scope().catalog),
                forall|k: int|
                    0 <= k < i && all.contains(names[k]) ==> text_size(#[trigger] names[k])
                        <= MAX_OFFSET,
            decreases found.len() - i,
        {
            let kept = match &self.catalog_filter {
                Some(f) => has_part(found[i].as_str(), f.as_str()),
                None => true,
            };
            proof {
                assert(names[i as int] == found@[i as int]@);
                assert(names.contains(names[i as int]));
                law_selected_catalogs(names, self.scope().catalog, names[i as int]);
            }
            if kept && text_len(found[i].as_str()) > MAX_OFFSET as usize {
                proof {
                    let k = choose|k: int| 0 <= k < all.len() && all[k] == names[i as int];
                    assert(text_size(all[k]) > MAX_OFFSET);
                }
                return false;
            }
            i += 1;
        }
        proof {
            if names.len() == 0 {
                law_selected_catalogs(names, self.scope().catalog, Seq::empty());
            } else {
                assert forall|k: int| 0 <= k < all.len() implies text_size(#[trigger] all[k])
                    <= MAX_OFFSET by {
                    assert(all.contains(all[k]));
                    law_selected_catalogs(names, self.scope().catalog, all[k]);
                    let i = choose|i: int| 0 <= i < names.len() && names[i] == all[k];
                    assert(all.contains(names[i]));
                }
            }
        }
        true
    }

    /// Whether the schemas of the catalog that was asked for fit the columns.
    pub fn fits_db_schemas(&self, names: &Vec<String>) -> (r: bool)
        ensures
            r == (self.scope().depth is Schemas ==> schemas_fit(bare_schemas(views(names@)))),
    {
        match self.depth {
            ObjectDepth::Schemas => {
                let ghost all = bare_schemas(views(names@));
                let mut room = Room::new();
                let mut i: usize = 0;
                assert(all.take(0) =~= Seq::<SchemaView>::empty());
                while i < names.len()
                    invariant
                        i <= names.len(),
                        all == bare_schemas(views(names@)),
                        room.measures(all.take(i as int)),
                    decreases names.len() - i,
                {
                    let ghost so_far = all.take(i as int);
                    assert(all.take(i + 1) =~= so_far.push(all[i as int]));
                    room = room.with_schema(names[i].as_str(), &Listing::Nothing, Ghost(so_far));
                    i += 1;
                }
                assert(all.take(all.len() as int) =~= all);
                room.fits(Ghost(all))
            },
            _ => true,
        }
    }

    /// Whether what is listed below the schema that was asked for fits the columns.
    fn fits_listing(&self, listing: &Listing) -> (r: bool)
        requires
            self.wf(),
            self.phase() matches Phase::Tables { schemas, .. } && schemas.len() > 0,
            listed(*listing) is Some,
        ensures
            r == schemas_fit(done_after(self.phase(), listed(*listing)->Some_0)),
    {
        match &self.state {
            BuilderState::ReadTables { schemas, .. } => {
                let ghost done = self.done@;
                let ghost name = queue_view(schemas@)[0];
                assert(name == schemas@[0]@);
                let room = self.room.with_schema(schemas[0].as_str(), listing, Ghost(done));
                room.fits(Ghost(done.push(SchemaView { name, tables: listed(*listing) })))
            },
            _ => true,
        }
    }

    /// Whether the tables of the schema that was asked for fit the columns.
    pub fn fits_tables(&self, tables: &Vec<TableInfo>) -> (r: bool)
        requires
            self.wf(),
            self.phase() matches Phase::Tables { schemas, .. } && schemas.len() > 0,
        ensures
            r == schemas_fit(done_after(self.phase(), table_views(tables@))),
    {
        self.fits_listing(&Listing::Tables(tables))
    }

    /// Whether the tables of the schema that was asked for fit the columns, with their own columns.
    pub fn fits_columns(&self, tables: &Vec<TableAndColumnInfo>) -> (r: bool)
        requires
            self.wf(),
            self.phase() matches Phase::Tables { schemas, .. } && schemas.len() > 0,
        ensures
            r == schemas_fit(done_after(self.phase(), full_table_views(tables@))),
    {
        self.fits_listing(&Listing::Columns(tables))
    }
}

/// Starts a walk down the hierarchy: catalogs, schemas, tables and columns, as deep as `depth` says.
pub fn get_objects(
    depth: ObjectDepth,
    catalog: Option<&str>,
    db_schema: Option<&str>,
    table_name: Option<&str>,
    table_type: Option<Vec<String>>,
    column_name: Option<&str>,
) -> (r: BatchIterator)
    ensures
        r.wf(),
        r.phase() is Uninit,
        r.scope() == (Scope {
            depth,
            catalog: opt_str_view(catalog),
            db_schema: opt_str_view(db_schema),
            table_name: opt_str_view(table_name),
            table_type: opt_views(table_type),
            column_name: opt_str_view(column_name),
        }),
{
    BatchIterator::new(depth, catalog, db_schema, table_name, table_type, column_name)
}

/// Where the walk stands when the tables of several schemas were answered, one after the other.
pub open spec fn after_all_tables(phase: Phase, answers: Seq<Seq<TableView>>) -> Phase
    decreases answers.len(),
{
    if answers.len() == 0 {
        phase
    } else {
        after_tables(after_all_tables(phase, answers.drop_last()), answers.last())
    }
}

/// The schemas of a catalog, each with the tables that were answered for it.
pub open spec fn answered_schemas(
    names: Seq<Seq<char>>,
    answers: Seq<Seq<TableView>>,
) -> Seq<SchemaView> {
    Seq::new(answers.len(), |i: int| SchemaView { name: names[i], tables: Some(answers[i]) })
}

/// A catalog shows what was answered: once every schema of a catalog has its answer, exactly these
/// schemas are done, in the order in which they were found and each with its own tables, and none
/// is left.
pub proof fn law_catalog_shows_the_answers(
    scope: Scope,
    catalog: Seq<char>,
    rest: Seq<Seq<char>>,
    names: Seq<Seq<char>>,
    answers: Seq<Seq<TableView>>,
)
    requires
        scope.reaches_tables(),
        answers.len() <= names.len(),
    ensures
        after_all_tables(after_db_schemas(scope, catalog, rest, names), answers) == (Phase::Tables {
            catalog,
            done: answered_schemas(names, answers),
            schemas: names.skip(answers.len() as int),
            rest,
        }),
    decreases answers.len(),
{
    if answers.len() == 0 {
        assert(names.skip(0) =~= names);
        assert(answered_schemas(names, answers) =~= Seq::<SchemaView>::empty());
    } else {
        let earlier = answers.drop_last();
        law_catalog_shows_the_answers(scope, catalog, rest, names, earlier);
        let n = earlier.len() as int;
        assert(names.skip(n)[0] == names[n]);
        assert(names.skip(n).drop_first() =~= names.skip(n + 1));
        assert(answered_schemas(names, answers) =~= answered_schemas(names, earlier).push(
            SchemaView { name: names[n], tables: Some(answers.last()) },
        ));
    }
}

/// A filter selects, among the catalogs that were found, exactly those that hold it; without a
/// filter all of them are selected, and where none was found there is one without a name.
pub proof fn law_selected_catalogs(
    found: Seq<Seq<char>>,
    filter: Option<Seq<char>>,
    name: Seq<char>,
)
    ensures
        found.len() > 0 ==> (selected(found, filter).contains(name) <==> found.contains(name)
            && match filter {
            Some(f) => holds_part(name, f),
            None => true,
        }),
        found.len() == 0 ==> selected(found, filter) == seq![Seq::<char>::empty()],
{
    if let Some(f) = filter {
        let wanted = |n: Seq<char>| holds_part(n, f);
        lemma_filter_members(found, wanted, name);
    }
}

/// What a filter lets through is what stands in the sequence and meets the filter.
proof fn lemma_filter_members(
    names: Seq<Seq<char>>,
    wanted: spec_fn(Seq<char>) -> bool,
    name: Seq<char>,
)
    ensures
        names.filter(wanted).contains(name) <==> names.contains(name) && wanted(name),
    decreases names.len(),
{
    reveal(Seq::filter);
    if names.len() > 0 {
        let shorter = names.drop_last();
        let kept = shorter.filter(wanted);
        lemma_filter_members(shorter, wanted, name);
        assert(names =~= shorter.push(names.last()));
        if names.contains(name) {
            let i = choose|i: int| 0 <= i < names.len() && names[i] == name;
            if i < shorter.len() {
                assert(shorter[i] == name);
            }
        }
        if shorter.contains(name) {
            let i = choose|i: int| 0 <= i < shorter.len() && shorter[i] == name;
            assert(names[i] == name);
        }
        if wanted(names.last()) {
            let longer = kept.push(names.last());
            if kept.contains(name) {
                let i = choose|i: int| 0 <= i < kept.len() && kept[i] == name;
                assert(longer[i] == name);
            }
            if longer.contains(name) {
                let i = choose|i: int| 0 <= i < longer.len() && longer[i] == name;
                if i < kept.len() {
                    assert(kept[i] == name);
                }
            }
            if name == names.last() {
                assert(longer[kept.len() as int] == name);
            }
        }
    }
}

/// Something that happens on a walk: it goes on, or it is answered.
#[verifier::ext_equal]
pub enum Event {
    Next(Outcome),
    Answered(Answer),
}

/// The answer is one to the request.
pub open spec fn answers(request: RequestView, answer: Answer) -> bool {
    match answer {
        Answer::Catalogs(_) => request is Catalogs,
        Answer::DbSchemas(_) => request is DbSchemas,
        Answer::Tables(_) => request is Tables || request is Columns,
        Answer::Failed(_) => true,
    }
}

/// Where a walk stands after some events.
pub open spec fn phase_after(scope: Scope, events: Seq<Event>) -> Phase
    decreases events.len(),
{
    if events.len() == 0 {
        Phase::Uninit
    } else {
        let before = phase_after(scope, events.drop_last());
        match events.last() {
            Event::Next(_) => next_phase(scope, before),
            Event::Answered(answer) => answered_phase(scope, before, answer),
        }
    }
}

/// The request that waits for its answer after some events.
pub open spec fn pending(events: Seq<Event>) -> Option<RequestView> {
    if events.len() == 0 {
        None
    } else {
        match events.last() {
            Event::Next(Outcome::Ask(request)) => Some(request),
            _ => None,
        }
    }
}

/// The events of a walk from its start: every request is answered before the walk goes on.
pub open spec fn is_run(scope: Scope, events: Seq<Event>) -> bool
    decreases events.len(),
{
    events.len() > 0 ==> {
        let earlier = events.drop_last();
        &&& is_run(scope, earlier)
        &&& match (pending(earlier), events.last()) {
            (Some(request), Event::Answered(answer)) => answers(request, answer),
            (None, Event::Next(outcome)) => outcome == next_outcome(
                scope,
                phase_after(scope, earlier),
            ),
            _ => false,
        }
    }
}

/// The names of the catalogs that were handed out, in order.
pub open spec fn handed_out(events: Seq<Event>) -> Seq<Seq<char>>
    decreases events.len(),
{
    if events.len() == 0 {
        Seq::empty()
    } else {
        match events.last() {
            Event::Next(Outcome::Catalog(name, _)) => handed_out(events.drop_last()).push(name),
            _ => handed_out(events.drop_last()),
        }
    }
}

/// How often the catalogs were asked for.
pub open spec fn times_asked(events: Seq<Event>) -> nat
    decreases events.len(),
{
    if events.len() == 0 {
        0
    } else {
        times_asked(events.drop_last()) + if events.last() == Event::Next(
            Outcome::Ask(RequestView::Catalogs),
        ) {
            1nat
        } else {
            0
        }
    }
}

/// The catalogs that were found, once they were answered.
pub open spec fn found_catalogs(events: Seq<Event>) -> Option<Seq<Seq<char>>>
    decreases events.len(),
{
    if events.len() == 0 {
        None
    } else {
        match events.last() {
            Event::Answered(Answer::Catalogs(found)) => Some(found),
            _ => found_catalogs(events.drop_last()),
        }
    }
}

/// An answer was a failure.
pub open spec fn has_failed(events: Seq<Event>) -> bool {
    exists|i: int| 0 <= i < events.len() && is_failure(#[trigger] events[i])
}

/// The event is a failed answer.
pub open spec fn is_failure(event: Event) -> bool {
    event matches Event::Answered(Answer::Failed(_))
}

/// The event ends the walk.
pub open spec fn is_last(event: Event) -> bool {
    is_failure(event) || event == Event::Next(Outcome::End)
}

/// The walk is over.
pub open spec fn is_over(events: Seq<Event>) -> bool {
    exists|i: int| 0 <= i < events.len() && is_last(#[trigger] events[i])
}

/// The catalogs that are not handed out yet.
pub open spec fn left(phase: Phase) -> Seq<Seq<char>> {
    match phase {
        Phase::Catalogs(catalogs) => catalogs,
        Phase::Schemas { catalog, rest } => seq![catalog] + rest,
        Phase::Tables { catalog, rest, .. } => seq![catalog] + rest,
        _ => Seq::empty(),
    }
}

/// What a run and the phase that it leads to have to do with each other.
spec fn in_step(scope: Scope, events: Seq<Event>) -> bool {
    let phase = phase_after(scope, events);
    &&& (phase is Finished <==> is_over(events))
    &&& match found_catalogs(events) {
        None => {
            &&& handed_out(events).len() == 0
            &&& phase is Uninit || (phase is Finished && has_failed(events))
        },
        Some(found) => {
            &&& !(phase is Uninit)
            &&& phase is Finished && has_failed(events) ==> handed_out(events)
                == selected(found, scope.catalog).take(handed_out(events).len() as int)
            &&& phase is Finished && has_failed(events) ==> handed_out(events).len() <= selected(
                found,
                scope.catalog,
            ).len()
            &&& !(phase is Finished && has_failed(events)) ==> handed_out(events) + left(phase)
                == selected(found, scope.catalog)
        },
    }
    &&& phase is Uninit ==> times_asked(events) == (if pending(events) is Some {
        1nat
    } else {
        0
    })
    &&& times_asked(events) <= 1
    &&& pending(events) matches Some(request) ==> !(phase is Finished) && (request is Catalogs <==>
        phase is Uninit) && (request is DbSchemas <==> phase is Schemas)
    &&& phase is Schemas ==> pending(events) is Some
}

/// Every run is in step with the phase that it leads to.
proof fn lemma_in_step(scope: Scope, events: Seq<Event>)
    requires
        is_run(scope, events),
    ensures
        in_step(scope, events),
    decreases events.len(),
{
    if events.len() > 0 {
        let earlier = events.drop_last();
        let last = events.last();
        let before = phase_after(scope, earlier);
        lemma_in_step(scope, earlier);
        lemma_event_added(events);
        match last {
            Event::Next(Outcome::Catalog(name, _)) => {
                let all = selected(found_catalogs(events)->Some_0, scope.catalog);
                assert(handed_out(events) + left(phase_after(scope, events)) =~= all);
            },
            Event::Next(_) => {
                assert(left(phase_after(scope, events)) =~= left(before));
            },
            Event::Answered(Answer::Catalogs(found)) => {
                assert(handed_out(events) + left(phase_after(scope, events)) =~= selected(
                    found,
                    scope.catalog,
                ));
            },
            Event::Answered(Answer::Failed(_)) => {
                if let Some(found) = found_catalogs(events) {
                    let all = selected(found, scope.catalog);
                    assert(all.take(handed_out(events).len() as int) =~= handed_out(events));
                }
            },
            Event::Answered(_) => {},
        }
    }
}

/// What an event adds to what happened.
proof fn lemma_event_added(events: Seq<Event>)
    requires
        events.len() > 0,
    ensures
        has_failed(events) <==> has_failed(events.drop_last()) || is_failure(events.last()),
        is_over(events) <==> is_over(events.drop_last()) || is_last(events.last()),
{
    let earlier = events.drop_last();
    let n = earlier.len() as int;
    assert(events[n] == events.last());
    if has_failed(earlier) {
        let i = choose|i: int| 0 <= i < earlier.len() && is_failure(#[trigger] earlier[i]);
        assert(is_failure(events[i]));
    }
    if has_failed(events) && !is_failure(events.last()) {
        let i = choose|i: int| 0 <= i < events.len() && is_failure(#[trigger] events[i]);
        assert(is_failure(earlier[i]));
    }
    if is_over(earlier) {
        let i = choose|i: int| 0 <= i < earlier.len() && is_last(#[trigger] earlier[i]);
        assert(is_last(events[i]));
    }
    if is_over(events) && !is_last(events.last()) {
        let i = choose|i: int| 0 <= i < events.len() && is_last(#[trigger] events[i]);
        assert(is_last(earlier[i]));
    }
}

/// A walk from its start to its end: the catalogs are asked for once, at the start. One batch is
/// handed out for each catalog that was selected, in their order, and the walk ends when all are
/// handed out, or with the first failure. From then on it only says that it is over.
pub proof fn law_walk_hands_out_every_catalog(scope: Scope, events: Seq<Event>)
    requires
        is_run(scope, events),
    ensures
        events.len() > 0 ==> events[0] == Event::Next(Outcome::Ask(RequestView::Catalogs)),
        times_asked(events) <= 1,
        match found_catalogs(events) {
            Some(found) => handed_out(events).is_prefix_of(selected(found, scope.catalog)),
            None => handed_out(events).len() == 0,
        },
        is_over(events) && !has_failed(events) ==> (found_catalogs(events) matches Some(found)
            && handed_out(events) == selected(found, scope.catalog)),
        forall|i: int, j: int|
            0 <= i < j < events.len() && #[trigger] is_last(events[i]) ==> #[trigger] events[j]
                == Event::Next(Outcome::End),
    decreases events.len(),
{
    lemma_in_step(scope, events);
    if events.len() > 0 {
        let earlier = events.drop_last();
        law_walk_hands_out_every_catalog(scope, earlier);
        lemma_in_step(scope, earlier);
        if let Some(found) = found_catalogs(events) {
            let all = selected(found, scope.catalog);
            if !has_failed(events) {
                let phase = phase_after(scope, events);
                assert((handed_out(events) + left(phase)).take(handed_out(events).len() as int)
                    =~= handed_out(events));
            }
            assert(handed_out(events) =~= all.subrange(0, handed_out(events).len() as int));
        }
        assert forall|i: int, j: int|
            0 <= i < j < events.len() && #[trigger] is_last(events[i]) implies #[trigger] events[j]
            == Event::Next(Outcome::End) by {
            assert(events[i] == earlier[i]);
            if j < earlier.len() {
                assert(events[j] == earlier[j]);
            } else {
                assert(is_over(earlier));
            }
        }
    }
}

} // verus!
