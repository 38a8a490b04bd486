//! The schema migration that creates the items table: its steps up and down,
//! and what they do to the database catalog.

use vstd::prelude::*;
use vstd::string::*;

verus! {

/// Column types the migration uses.
pub enum ColumnType {
    Uuid,
    Text,
    TimestampWithTimeZone,
}

/// A column of a created table.
pub struct ColumnSpec {
    pub name: String,
    pub column_type: ColumnType,
    pub not_null: bool,
    /// An SQL expression for the default value.
    pub default_expr: Option<String>,
    pub primary_key: bool,
}

/// An index on one column.
pub struct IndexSpec {
    pub name: String,
    pub column: String,
    pub descending: bool,
}

/// One schema change, run in order.
pub enum SchemaStep {
    /// `CREATE SCHEMA IF NOT EXISTS "<schema>"`.
    CreateSchemaIfMissing(String),
    CreateTable { schema: String, table: String, columns: Vec<ColumnSpec> },
    CreateIndex { schema: String, table: String, index: IndexSpec },
    DropTable { schema: String, table: String },
    /// `DROP SCHEMA IF EXISTS "<schema>" CASCADE`.
    DropSchemaCascade(String),
}

/// The migration that creates the items table.
pub struct Migration;

/// `c` is a column with these properties.
pub open spec fn is_column(
    c: ColumnSpec,
    name: Seq<char>,
    t: ColumnType,
    default_expr: Option<Seq<char>>,
    primary_key: bool,
) -> bool {
    &&& c.name@ == name
    &&& c.column_type == t
    &&& c.not_null
    &&& match default_expr {
        Some(d) => c.default_expr matches Some(e) && e@ == d,
        None => c.default_expr is None,
    }
    &&& c.primary_key == primary_key
}

/// The columns of the items table.
pub open spec fn is_items_columns(cols: Seq<ColumnSpec>) -> bool {
    &&& cols.len() == 4
    &&& is_column(cols[0], "id"@, ColumnType::Uuid, Some("gen_random_uuid()"@), true)
    &&& is_column(cols[1], "content"@, ColumnType::Text, None, false)
    &&& is_column(cols[2], "user_id"@, ColumnType::Uuid, Some("'00000000-0000-0000-0000-000000000000'"@), false)
    &&& is_column(cols[3], "created_at"@, ColumnType::TimestampWithTimeZone, Some("NOW()"@), false)
}

/// `step` creates index `name` on `column` of `helloworld.items`.
pub open spec fn is_items_index(step: SchemaStep, name: Seq<char>, column: Seq<char>, descending: bool) -> bool {
    step matches SchemaStep::CreateIndex { schema, table, index } && schema@ == "helloworld"@ && table@ == "items"@
        && index.name@ == name && index.column@ == column && index.descending == descending
}

/// The steps up: the schema, the items table, then its two indexes.
pub open spec fn is_up_plan(steps: Seq<SchemaStep>) -> bool {
    &&& steps.len() == 4
    &&& steps[0] matches SchemaStep::CreateSchemaIfMissing(s) && s@ == "helloworld"@
    &&& steps[1] matches SchemaStep::CreateTable { schema, table, columns } && schema@ == "helloworld"@
        && table@ == "items"@ && is_items_columns(columns@)
    &&& is_items_index(steps[2], "items_created_at_idx"@, "created_at"@, true)
    &&& is_items_index(steps[3], "items_user_id_idx"@, "user_id"@, false)
}

/// The steps down: the items table, then the whole schema.
pub open spec fn is_down_plan(steps: Seq<SchemaStep>) -> bool {
    &&& steps.len() == 2
    &&& steps[0] matches SchemaStep::DropTable { schema, table } && schema@ == "helloworld"@ && table@ == "items"@
    &&& steps[1] matches SchemaStep::DropSchemaCascade(s) && s@ == "helloworld"@
}

fn column(name: &str, t: ColumnType, default_expr: Option<&str>, primary_key: bool) -> (c: ColumnSpec)
    ensures
        c.name@ == name@,
        c.column_type == t,
        c.not_null,
        match default_expr {
            Some(d) => c.default_expr matches Some(e) && e@ == d@,
            None => c.default_expr is None,
        },
        c.primary_key == primary_key,
{
    let default_expr = match default_expr {
        Some(d) => Some(String::from_str(d)),
        None => None,
    };
    ColumnSpec { name: String::from_str(name), column_type: t, not_null: true, default_expr, primary_key }
}

fn items_index(name: &str, col: &str, descending: bool) -> (step: SchemaStep)
    ensures
        is_items_index(step, name@, col@, descending),
{
    SchemaStep::CreateIndex {
        schema: String::from_str("helloworld"),
        table: String::from_str("items"),
        index: IndexSpec { name: String::from_str(name), column: String::from_str(col), descending },
    }
}

impl Migration {
    /// Creates the `helloworld` schema, the `items` table (UUID key generated
    /// by the database, text, owner UUID defaulting to the nil UUID, creation
    /// time defaulting to now) and its indexes on creation time (descending)
    /// and owner.
    pub fn up(&self) -> (steps: Vec<SchemaStep>)
        ensures
            is_up_plan(steps@),
    {
        let mut columns: Vec<ColumnSpec> = Vec::new();
        columns.push(column("id", ColumnType::Uuid, Some("gen_random_uuid()"), true));
        columns.push(column("content", ColumnType::Text, None, false));
        columns.push(column("user_id", ColumnType::Uuid, Some("'00000000-0000-0000-0000-000000000000'"), false));
        columns.push(column("created_at", ColumnType::TimestampWithTimeZone, Some("NOW()"), false));
        let mut steps: Vec<SchemaStep> = Vec::new();
        steps.push(SchemaStep::CreateSchemaIfMissing(String::from_str("helloworld")));
        steps.push(SchemaStep::CreateTable {
            schema: String::from_str("helloworld"),
            table: String::from_str("items"),
            columns,
        });
        steps.push(items_index("items_created_at_idx", "created_at", true));
        steps.push(items_index("items_user_id_idx", "user_id", false));
        steps
    }

    /// Drops the `items` table, then the `helloworld` schema with all it holds.
    pub fn down(&self) -> (steps: Vec<SchemaStep>)
        ensures
            is_down_plan(steps@),
    {
        let mut steps: Vec<SchemaStep> = Vec::new();
        steps.push(SchemaStep::DropTable { schema: String::from_str("helloworld"), table: String::from_str("items") });
        steps.push(SchemaStep::DropSchemaCascade(String::from_str("helloworld")));
        steps
    }
}

/// The SQL that drops `schema` and everything in it, if it exists.
pub fn drop_schema_statement(schema: &str) -> (stmt: String)
    ensures
        stmt@ == "DROP SCHEMA IF EXISTS \""@ + schema@ + "\" CASCADE"@,
{
    proof {
        reveal_strlit("DROP SCHEMA IF EXISTS \"");
        reveal_strlit("\" CASCADE");
    }
    String::from_str("DROP SCHEMA IF EXISTS \"").concat(schema).concat("\" CASCADE")
}

/// A named object of the database catalog.
pub enum CatalogObject {
    Schema(Seq<char>),
    Table(Seq<char>, Seq<char>),
    Index(Seq<char>, Seq<char>, Seq<char>),
}

/// The schema an object belongs to.
pub open spec fn schema_of(o: CatalogObject) -> Seq<char> {
    match o {
        CatalogObject::Schema(s) => s,
        CatalogObject::Table(s, _) => s,
        CatalogObject::Index(s, _, _) => s,
    }
}

/// Whether `o` is table `s.t` or one of its indexes.
pub open spec fn belongs_to_table(o: CatalogObject, s: Seq<char>, t: Seq<char>) -> bool {
    match o {
        CatalogObject::Table(s2, t2) => s2 == s && t2 == t,
        CatalogObject::Index(s2, t2, _) => s2 == s && t2 == t,
        _ => false,
    }
}

/// What a step does to the set of catalog objects.
pub open spec fn apply_step(catalog: Set<CatalogObject>, step: SchemaStep) -> Set<CatalogObject> {
    match step {
        SchemaStep::CreateSchemaIfMissing(s) => catalog.insert(CatalogObject::Schema(s@)),
        SchemaStep::CreateTable { schema, table, .. } => catalog.insert(CatalogObject::Table(schema@, table@)),
        SchemaStep::CreateIndex { schema, table, index } => catalog.insert(
            CatalogObject::Index(schema@, table@, index.name@),
        ),
        SchemaStep::DropTable { schema, table } => catalog.filter(
            |o: CatalogObject| !belongs_to_table(o, schema@, table@),
        ),
        SchemaStep::DropSchemaCascade(s) => catalog.filter(|o: CatalogObject| schema_of(o) != s@),
    }
}

/// What a sequence of steps does, in order.
pub open spec fn apply_steps(catalog: Set<CatalogObject>, steps: Seq<SchemaStep>) -> Set<CatalogObject>
    decreases steps.len(),
{
    if steps.len() == 0 {
        catalog
    } else {
        apply_steps(apply_step(catalog, steps[0]), steps.drop_first())
    }
}

/// Going down after going up gives back the catalog the migration started
/// from, when that catalog held nothing in the `helloworld` schema.
pub proof fn lemma_down_undoes_up(catalog: Set<CatalogObject>, up: Seq<SchemaStep>, down: Seq<SchemaStep>)
    requires
        is_up_plan(up),
        is_down_plan(down),
        forall|o: CatalogObject| #[trigger] catalog.contains(o) ==> schema_of(o) != "helloworld"@,
    ensures
        apply_steps(apply_steps(catalog, up), down) == catalog,
{
    let s: Seq<char> = "helloworld"@;
    let t: Seq<char> = "items"@;
    let c1 = apply_step(catalog, up[0]);
    let c2 = apply_step(c1, up[1]);
    let c3 = apply_step(c2, up[2]);
    let c4 = apply_step(c3, up[3]);
    assert(up.drop_first().drop_first().drop_first().drop_first().len() == 0);
    assert(apply_steps(catalog, up) == c4) by {
        reveal_with_fuel(apply_steps, 5);
        assert(apply_steps(c4, up.drop_first().drop_first().drop_first().drop_first()) == c4);
        assert(up.drop_first()[0] == up[1]);
        assert(up.drop_first().drop_first()[0] == up[2]);
        assert(up.drop_first().drop_first().drop_first()[0] == up[3]);
    }
    let d1 = apply_step(c4, down[0]);
    let d2 = apply_step(d1, down[1]);
    assert(apply_steps(c4, down) == d2) by {
        reveal_with_fuel(apply_steps, 3);
        assert(down.drop_first()[0] == down[1]);
        assert(down.drop_first().drop_first().len() == 0);
    }
    assert(d2 =~= catalog) by {
        assert forall|o: CatalogObject| d2.contains(o) implies catalog.contains(o) by {
            assert(schema_of(o) != s);
            if !catalog.contains(o) {
                assert(c4.contains(o));
                assert(schema_of(o) == s);
            }
        }
        assert forall|o: CatalogObject| catalog.contains(o) implies d2.contains(o) by {
            assert(schema_of(o) != s);
            assert(c4.contains(o));
            assert(!belongs_to_table(o, s, t));
        }
    }
}

/// Where the performance of a plan stands.
pub enum PlanState {
    /// Performing step `i`.
    Running(usize),
    Done,
    Failed,
}

/// How the last step went; a failure carries its error.
pub enum PlanEvent<E> {
    Succeeded,
    Failed(E),
}

/// What to do next.
pub enum PlanAction<E> {
    /// Perform step `i`.
    Perform(usize),
    /// Every step succeeded.
    Finish,
    /// Stop with this error; no later step is performed.
    Fail(E),
}

/// How performing `count` steps starts.
pub open spec fn plan_start<E>(count: usize) -> (PlanState, PlanAction<E>) {
    if count == 0 {
        (PlanState::Done, PlanAction::Finish)
    } else {
        (PlanState::Running(0), PlanAction::Perform(0))
    }
}

/// One step of performing a plan: after a success the next step, after the
/// last one the end; a failure ends the plan with its error.
pub open spec fn plan_next<E>(count: usize, state: PlanState, event: PlanEvent<E>) -> (PlanState, PlanAction<E>) {
    match event {
        PlanEvent::Failed(e) => (PlanState::Failed, PlanAction::Fail(e)),
        PlanEvent::Succeeded => match state {
            PlanState::Running(i) => if i + 1 < count {
                (PlanState::Running((i + 1) as usize), PlanAction::Perform((i + 1) as usize))
            } else {
                (PlanState::Done, PlanAction::Finish)
            },
            _ => (state, PlanAction::Finish),
        },
    }
}

/// The performance of a plan of `count` steps.
pub struct PlanRun {
    pub count: usize,
    pub state: PlanState,
}

impl PlanRun {
    /// The step index stays below the number of steps.
    pub open spec fn wf(self) -> bool {
        self.state matches PlanState::Running(i) ==> i < self.count
    }

    /// Only a running plan takes events.
    pub open spec fn expects(self) -> bool {
        self.state is Running
    }

    /// Takes how the last step went and returns what to do next.
    pub fn step<E>(&mut self, event: PlanEvent<E>) -> (action: PlanAction<E>)
        requires
            old(self).wf(),
            old(self).expects(),
        ensures
            final(self).wf(),
            final(self).count == old(self).count,
            (final(self).state, action) == plan_next(old(self).count, old(self).state, event),
            event matches PlanEvent::Failed(e) ==> final(self).state is Failed && action == PlanAction::Fail(e),
            action is Finish ==> event is Succeeded,
    {
        match event {
            PlanEvent::Failed(e) => {
                self.state = PlanState::Failed;
                PlanAction::Fail(e)
            },
            PlanEvent::Succeeded => {
                let i = match self.state {
                    PlanState::Running(i) => i,
                    _ => 0,
                };
                if i + 1 < self.count {
                    self.state = PlanState::Running(i + 1);
                    PlanAction::Perform(i + 1)
                } else {
                    self.state = PlanState::Done;
                    PlanAction::Finish
                }
            },
        }
    }
}

/// Starts performing a plan of `count` steps, in order.
pub fn perform_plan<E>(count: usize) -> (res: (PlanRun, PlanAction<E>))
    ensures
        res.0.wf(),
        res.0.count == count,
        (res.0.state, res.1) == plan_start::<E>(count),
{
    if count == 0 {
        (PlanRun { count, state: PlanState::Done }, PlanAction::Finish)
    } else {
        (PlanRun { count, state: PlanState::Running(0) }, PlanAction::Perform(0))
    }
}

/// Whether the database refuses `step` on `catalog`: a table is created only
/// in an existing schema and only if it does not exist yet; an index only on
/// an existing table and under a name unused in its schema; a table is
/// dropped only if it exists. The schema statements carry `IF NOT EXISTS` and
/// `IF EXISTS`, and are not refused.
pub open spec fn step_refused(catalog: Set<CatalogObject>, step: SchemaStep) -> bool {
    match step {
        SchemaStep::CreateSchemaIfMissing(_) => false,
        SchemaStep::CreateTable { schema, table, .. } => !catalog.contains(CatalogObject::Schema(schema@))
            || catalog.contains(CatalogObject::Table(schema@, table@)),
        SchemaStep::CreateIndex { schema, table, index } => !catalog.contains(CatalogObject::Table(schema@, table@))
            || exists|t: Seq<char>| #[trigger] catalog.contains(CatalogObject::Index(schema@, t, index.name@)),
        SchemaStep::DropTable { schema, table } => !catalog.contains(CatalogObject::Table(schema@, table@)),
        SchemaStep::DropSchemaCascade(_) => false,
    }
}

/// How far a plan in `state` is from its end.
pub open spec fn plan_distance(count: usize, state: PlanState) -> nat {
    match state {
        PlanState::Running(i) => if i < count { (count - i) as nat } else { 0 },
        _ => 0,
    }
}

/// The catalog and final state after performing `steps` from `state`, each
/// step refused or applied as the database does.
pub open spec fn execute_plan(catalog: Set<CatalogObject>, steps: Seq<SchemaStep>, count: usize, state: PlanState) -> (Set<CatalogObject>, PlanState)
    decreases plan_distance(count, state),
{
    match state {
        PlanState::Running(i) => if i < count {
            if step_refused(catalog, steps[i as int]) {
                (catalog, plan_next::<()>(count, state, PlanEvent::Failed(())).0)
            } else {
                execute_plan(apply_step(catalog, steps[i as int]), steps, count, plan_next::<()>(count, state, PlanEvent::Succeeded).0)
            }
        } else {
            (catalog, state)
        },
        _ => (catalog, state),
    }
}

/// Going up from a catalog with nothing in `helloworld` performs every step
/// and ends done.
pub proof fn lemma_up_from_fresh_catalog(catalog: Set<CatalogObject>, up: Seq<SchemaStep>)
    requires
        is_up_plan(up),
        forall|o: CatalogObject| #[trigger] catalog.contains(o) ==> schema_of(o) != "helloworld"@,
    ensures
        execute_plan(catalog, up, 4, plan_start::<()>(4).0) == (apply_steps(catalog, up), PlanState::Done),
{
    let s: Seq<char> = "helloworld"@;
    let c1 = apply_step(catalog, up[0]);
    let c2 = apply_step(c1, up[1]);
    let c3 = apply_step(c2, up[2]);
    let c4 = apply_step(c3, up[3]);
    assert(!catalog.contains(CatalogObject::Table(s, "items"@)));
    assert(!step_refused(c1, up[1]));
    assert forall|t: Seq<char>| !c2.contains(CatalogObject::Index(s, t, "items_created_at_idx"@)) by {
        assert(!catalog.contains(CatalogObject::Index(s, t, "items_created_at_idx"@)));
    }
    assert(!step_refused(c2, up[2]));
    assert forall|t: Seq<char>| !c3.contains(CatalogObject::Index(s, t, "items_user_id_idx"@)) by {
        reveal_strlit("items_created_at_idx");
        reveal_strlit("items_user_id_idx");
        assert(!catalog.contains(CatalogObject::Index(s, t, "items_user_id_idx"@)));
        assert("items_created_at_idx"@ != "items_user_id_idx"@) by {
            assert("items_created_at_idx"@[6] != "items_user_id_idx"@[6]);
        }
    }
    assert(!step_refused(c3, up[3]));
    assert(execute_plan(catalog, up, 4, PlanState::Running(0)) == (c4, PlanState::Done)) by {
        reveal_with_fuel(execute_plan, 6);
    }
    assert(apply_steps(catalog, up) == c4) by {
        reveal_with_fuel(apply_steps, 5);
        assert(up.drop_first()[0] == up[1]);
        assert(up.drop_first().drop_first()[0] == up[2]);
        assert(up.drop_first().drop_first().drop_first()[0] == up[3]);
        assert(up.drop_first().drop_first().drop_first().drop_first().len() == 0);
    }
}

/// Going up where the items table already exists creates the schema if it
/// is missing, is refused at the table, and creates no index.
pub proof fn lemma_up_stops_at_existing_table(catalog: Set<CatalogObject>, up: Seq<SchemaStep>)
    requires
        is_up_plan(up),
        catalog.contains(CatalogObject::Table("helloworld"@, "items"@)),
    ensures
        execute_plan(catalog, up, 4, plan_start::<()>(4).0)
            == (catalog.insert(CatalogObject::Schema("helloworld"@)), PlanState::Failed),
{
    let c1 = apply_step(catalog, up[0]);
    assert(step_refused(c1, up[1]));
    assert(execute_plan(catalog, up, 4, PlanState::Running(0)) == (c1, PlanState::Failed)) by {
        reveal_with_fuel(execute_plan, 3);
    }
}

/// Going down where the items table does not exist is refused at the first
/// step: the schema is left in place and the catalog unchanged.
pub proof fn lemma_down_stops_at_missing_table(catalog: Set<CatalogObject>, down: Seq<SchemaStep>)
    requires
        is_down_plan(down),
        !catalog.contains(CatalogObject::Table("helloworld"@, "items"@)),
    ensures
        execute_plan(catalog, down, 2, plan_start::<()>(2).0) == (catalog, PlanState::Failed),
{
    assert(step_refused(catalog, down[0]));
    reveal_with_fuel(execute_plan, 2);
}

/// Going down after a successful way up performs both steps, ends done, and
/// gives back the catalog the migration started from.
pub proof fn lemma_down_after_up_restores(catalog: Set<CatalogObject>, up: Seq<SchemaStep>, down: Seq<SchemaStep>)
    requires
        is_up_plan(up),
        is_down_plan(down),
        forall|o: CatalogObject| #[trigger] catalog.contains(o) ==> schema_of(o) != "helloworld"@,
    ensures
        execute_plan(execute_plan(catalog, up, 4, plan_start::<()>(4).0).0, down, 2, plan_start::<()>(2).0)
            == (catalog, PlanState::Done),
{
    lemma_up_from_fresh_catalog(catalog, up);
    lemma_down_undoes_up(catalog, up, down);
    let c4 = apply_steps(catalog, up);
    let d1 = apply_step(c4, down[0]);
    assert(c4.contains(CatalogObject::Table("helloworld"@, "items"@))) by {
        reveal_with_fuel(apply_steps, 5);
        assert(up.drop_first()[0] == up[1]);
        assert(up.drop_first().drop_first()[0] == up[2]);
        assert(up.drop_first().drop_first().drop_first()[0] == up[3]);
        assert(up.drop_first().drop_first().drop_first().drop_first().len() == 0);
    }
    assert(!step_refused(c4, down[0]));
    assert(!step_refused(d1, down[1]));
    assert(execute_plan(c4, down, 2, PlanState::Running(0)) == (apply_step(d1, down[1]), PlanState::Done)) by {
        reveal_with_fuel(execute_plan, 3);
    }
    assert(apply_steps(c4, down) == apply_step(d1, down[1])) by {
        reveal_with_fuel(apply_steps, 3);
        assert(down.drop_first()[0] == down[1]);
        assert(down.drop_first().drop_first().len() == 0);
    }
}

/// A refused step ends the plan with its error, whichever step it is, the
/// last one included; the plan finishes only on a step that succeeded, and
/// then only after its last step.
pub proof fn lemma_refusal_fails_plan<E>(count: usize, state: PlanState, event: PlanEvent<E>, e: E)
    ensures
        plan_next(count, state, PlanEvent::Failed(e)) == (PlanState::Failed, PlanAction::Fail(e)),
        plan_next(count, state, event).1 is Finish ==> event is Succeeded,
        state matches PlanState::Running(i) ==> (plan_next(count, state, event).1 is Finish ==> i + 1 >= count),
{
}

/// Performing a plan of `count` steps where step `k` is refused: the steps
/// before it are performed, then the plan fails with that step's error.
pub proof fn lemma_refused_step_ends_plan<E>(count: usize, k: usize, e: E)
    requires
        k < count,
    ensures
        forall|i: usize| i < k ==> #[trigger] plan_next::<E>(count, PlanState::Running(i), PlanEvent::Succeeded)
            == (PlanState::Running((i + 1) as usize), PlanAction::<E>::Perform((i + 1) as usize)),
        plan_next(count, PlanState::Running(k), PlanEvent::Failed(e)) == (PlanState::Failed, PlanAction::Fail(e)),
{
}

} // verus!
