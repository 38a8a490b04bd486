//! Database bootstrap: connection settings, the schema statements, and the
//! migration ledger walk, which applies each migration not yet recorded.

use vstd::prelude::*;
use vstd::string::*;

verus! {

/// The schema used when none is configured.
pub open spec fn default_schema() -> Seq<char> {
    "helloworld"@
}

/// The schema to use: the configured one, else `helloworld`.
pub fn schema_name(configured: Option<String>) -> (schema: String)
    ensures
        match configured {
            Some(s) => schema == s,
            None => schema@ == default_schema(),
        },
{
    match configured {
        Some(s) => s,
        None => String::from_str("helloworld"),
    }
}

/// Why the database could not be configured.
pub enum DbConfigError {
    MissingUrl,
}

impl DbConfigError {
    /// The message reported for the error.
    pub fn message(&self) -> (m: String)
        ensures
            m@ == "DATABASE_URL is required"@,
    {
        String::from_str("DATABASE_URL is required")
    }
}

/// The connection URL: it must be configured.
pub fn database_url(configured: Option<String>) -> (res: Result<String, DbConfigError>)
    ensures
        match configured {
            Some(u) => res == Ok::<String, DbConfigError>(u),
            None => res is Err,
        },
{
    match configured {
        Some(u) => Ok(u),
        None => Err(DbConfigError::MissingUrl),
    }
}

/// Connection pool settings.
pub struct PoolSettings {
    pub application_name: String,
    pub max_connections: u32,
    pub min_connections: u32,
}

/// The pool the app opens: at most four connections, at least one, named
/// after the app.
pub fn pool_settings() -> (p: PoolSettings)
    ensures
        p.application_name@ == "tokimo-app-helloworld"@,
        p.max_connections == 4,
        p.min_connections == 1,
        p.min_connections <= p.max_connections,
{
    PoolSettings { application_name: String::from_str("tokimo-app-helloworld"), max_connections: 4, min_connections: 1 }
}

/// `schema` quoted as an SQL identifier, as the statements write it.
pub open spec fn quoted(schema: Seq<char>) -> Seq<char> {
    "\""@ + schema + "\""@
}

/// The statement run on each new connection: look up names in `schema` first.
pub fn search_path_statement(schema: &str) -> (stmt: String)
    ensures
        stmt@ == "SET search_path TO "@ + quoted(schema@) + ", public"@,
{
    proof {
        reveal_strlit("SET search_path TO \"");
        reveal_strlit("\", public");
        reveal_strlit("SET search_path TO ");
        reveal_strlit("\"");
        reveal_strlit(", public");
    }
    let s = String::from_str("SET search_path TO \"").concat(schema).concat("\", public");
    proof {
        assert(s@ =~= "SET search_path TO "@ + quoted(schema@) + ", public"@);
    }
    s
}

/// The statement that makes sure `schema` exists.
pub fn create_schema_statement(schema: &str) -> (stmt: String)
    ensures
        stmt@ == "CREATE SCHEMA IF NOT EXISTS "@ + quoted(schema@),
{
    proof {
        reveal_strlit("CREATE SCHEMA IF NOT EXISTS \"");
        reveal_strlit("CREATE SCHEMA IF NOT EXISTS ");
        reveal_strlit("\"");
    }
    let s = String::from_str("CREATE SCHEMA IF NOT EXISTS \"").concat(schema).concat("\"");
    proof {
        assert(s@ =~= "CREATE SCHEMA IF NOT EXISTS "@ + quoted(schema@));
    }
    s
}

/// How the pool is opened: where to, with which settings, and the statement
/// each new connection runs first.
pub struct PoolPlan {
    pub url: String,
    pub schema: String,
    pub settings: PoolSettings,
    pub search_path: String,
}

/// Plans the database pool from the configured URL and schema: the URL is
/// required; the schema defaults to `helloworld`, and each connection puts it
/// first on its search path.
pub fn init_pool(url: Option<String>, schema: Option<String>) -> (res: Result<PoolPlan, DbConfigError>)
    ensures
        match url {
            None => res is Err,
            Some(u) => (res matches Ok(plan) && plan.url == u
                && (match schema {
                    Some(s) => plan.schema == s,
                    None => plan.schema@ == default_schema(),
                })
                && plan.search_path@ == "SET search_path TO "@ + quoted(plan.schema@) + ", public"@
                && plan.settings.application_name@ == "tokimo-app-helloworld"@
                && plan.settings.max_connections == 4 && plan.settings.min_connections == 1),
        },
{
    let url = match database_url(url) {
        Ok(u) => u,
        Err(e) => return Err(e),
    };
    let schema = schema_name(schema);
    let search_path = search_path_statement(schema.as_str());
    Ok(PoolPlan { url, schema, settings: pool_settings(), search_path })
}

/// Where the ledger walk stands, over migrations numbered from 0.
pub enum LedgerState {
    /// Making sure the app's schema exists.
    CreatingSchema,
    /// Making sure the ledger table exists.
    CreatingLedger,
    /// Asking whether migration `i` is recorded as applied.
    Checking(usize),
    /// Applying migration `i` and recording it, in one transaction.
    Applying(usize),
    Done,
    Aborted,
}

/// What the database answered.
pub enum LedgerEvent {
    /// The preparing statement ran.
    Prepared,
    /// Whether the migration asked about is recorded.
    Recorded(bool),
    /// The migration was applied and recorded.
    Applied,
    /// The last statement failed.
    Failed,
}

/// What to do next.
pub enum LedgerAction {
    /// Run the statement that creates the app's schema if it is missing.
    CreateSchema,
    /// Run the statement that creates the ledger table if it is missing.
    CreateLedgerTable,
    /// Ask whether migration `i` is recorded.
    Check(usize),
    /// Apply migration `i` and record it.
    Apply(usize),
    /// All migrations are applied.
    Finish,
    /// Stop with the failure.
    Abort,
}

/// After migration `i`: the next one, or the end.
pub open spec fn ledger_advance(count: usize, i: usize) -> (LedgerState, LedgerAction) {
    if i + 1 < count {
        (LedgerState::Checking((i + 1) as usize), LedgerAction::Check((i + 1) as usize))
    } else {
        (LedgerState::Done, LedgerAction::Finish)
    }
}

/// How the walk over `count` migrations starts, once the ledger exists.
pub open spec fn ledger_walk_start(count: usize) -> (LedgerState, LedgerAction) {
    if count == 0 {
        (LedgerState::Done, LedgerAction::Finish)
    } else {
        (LedgerState::Checking(0), LedgerAction::Check(0))
    }
}

/// How a migration run starts: by making sure the schema exists.
pub open spec fn ledger_start(count: usize) -> (LedgerState, LedgerAction) {
    (LedgerState::CreatingSchema, LedgerAction::CreateSchema)
}

/// One step of a migration run: the schema, then the ledger table, then the
/// walk, in which a recorded migration is skipped and one not recorded is
/// applied; any failure ends the run.
pub open spec fn ledger_next(count: usize, state: LedgerState, event: LedgerEvent) -> (LedgerState, LedgerAction) {
    match event {
        LedgerEvent::Failed => (LedgerState::Aborted, LedgerAction::Abort),
        LedgerEvent::Prepared => match state {
            LedgerState::CreatingSchema => (LedgerState::CreatingLedger, LedgerAction::CreateLedgerTable),
            LedgerState::CreatingLedger => ledger_walk_start(count),
            _ => (state, LedgerAction::Abort),
        },
        LedgerEvent::Recorded(true) => match state {
            LedgerState::Checking(i) => ledger_advance(count, i),
            _ => (state, LedgerAction::Abort),
        },
        LedgerEvent::Recorded(false) => match state {
            LedgerState::Checking(i) => (LedgerState::Applying(i), LedgerAction::Apply(i)),
            _ => (state, LedgerAction::Abort),
        },
        LedgerEvent::Applied => match state {
            LedgerState::Applying(i) => ledger_advance(count, i),
            _ => (state, LedgerAction::Abort),
        },
    }
}

/// A walk over `count` migrations.
pub struct MigrationRun {
    pub count: usize,
    pub state: LedgerState,
}

impl MigrationRun {
    /// Indices stay below the number of migrations.
    pub open spec fn wf(self) -> bool {
        match self.state {
            LedgerState::Checking(i) => i < self.count,
            LedgerState::Applying(i) => i < self.count,
            _ => true,
        }
    }

    /// The events the walk can receive in its current state.
    pub open spec fn expects(self, event: LedgerEvent) -> bool {
        match self.state {
            LedgerState::CreatingSchema => event is Prepared || event is Failed,
            LedgerState::CreatingLedger => event is Prepared || event is Failed,
            LedgerState::Checking(_) => event is Recorded || event is Failed,
            LedgerState::Applying(_) => event is Applied || event is Failed,
            _ => false,
        }
    }

    /// Takes the database's answer and returns what to do next.
    pub fn step(&mut self, event: LedgerEvent) -> (action: LedgerAction)
        requires
            old(self).wf(),
            old(self).expects(event),
        ensures
            final(self).wf(),
            final(self).count == old(self).count,
            (final(self).state, action) == ledger_next(old(self).count, old(self).state, event),
            event is Failed ==> final(self).state is Aborted && action is Abort,
            action is Finish ==> !(event is Failed) && !(event is Recorded && event->Recorded_0 == false),
    {
        let count = self.count;
        match event {
            LedgerEvent::Failed => {
                self.state = LedgerState::Aborted;
                LedgerAction::Abort
            },
            LedgerEvent::Prepared => match self.state {
                LedgerState::CreatingSchema => {
                    self.state = LedgerState::CreatingLedger;
                    LedgerAction::CreateLedgerTable
                },
                _ => {
                    if count == 0 {
                        self.state = LedgerState::Done;
                        LedgerAction::Finish
                    } else {
                        self.state = LedgerState::Checking(0);
                        LedgerAction::Check(0)
                    }
                },
            },
            LedgerEvent::Recorded(recorded) => {
                let i = match self.state {
                    LedgerState::Checking(i) => i,
                    _ => 0,
                };
                if recorded {
                    self.advance(i)
                } else {
                    self.state = LedgerState::Applying(i);
                    LedgerAction::Apply(i)
                }
            },
            LedgerEvent::Applied => {
                let i = match self.state {
                    LedgerState::Applying(i) => i,
                    _ => 0,
                };
                self.advance(i)
            },
        }
    }

    fn advance(&mut self, i: usize) -> (action: LedgerAction)
        requires
            i < old(self).count,
        ensures
            final(self).count == old(self).count,
            final(self).wf(),
            (final(self).state, action) == ledger_advance(old(self).count, i),
    {
        if i + 1 < self.count {
            self.state = LedgerState::Checking(i + 1);
            LedgerAction::Check(i + 1)
        } else {
            self.state = LedgerState::Done;
            LedgerAction::Finish
        }
    }
}

/// Starts a run over `count` migrations, taken in their listed order.
pub fn run_migrations(count: usize) -> (res: (MigrationRun, LedgerAction))
    ensures
        res.0.wf(),
        res.0.count == count,
        (res.0.state, res.1) == ledger_start(count),
{
    (MigrationRun { count, state: LedgerState::CreatingSchema }, LedgerAction::CreateSchema)
}

/// The ledger table: one row per applied migration, with when it was applied.
pub fn ledger_table_statement() -> (stmt: String)
    ensures
        stmt@ == "CREATE TABLE IF NOT EXISTS _migrations (\n            id          TEXT PRIMARY KEY,\n            applied_at  TIMESTAMPTZ NOT NULL DEFAULT NOW()\n        )"@,
{
    String::from_str("CREATE TABLE IF NOT EXISTS _migrations (\n            id          TEXT PRIMARY KEY,\n            applied_at  TIMESTAMPTZ NOT NULL DEFAULT NOW()\n        )")
}

/// The query whether the migration with id `$1` is recorded.
pub fn ledger_lookup_statement() -> (stmt: String)
    ensures
        stmt@ == "SELECT EXISTS(SELECT 1 FROM _migrations WHERE id = $1)"@,
{
    String::from_str("SELECT EXISTS(SELECT 1 FROM _migrations WHERE id = $1)")
}

/// The statement that records the migration with id `$1`, run in the same
/// transaction as the migration itself.
pub fn ledger_record_statement() -> (stmt: String)
    ensures
        stmt@ == "INSERT INTO _migrations(id) VALUES ($1)"@,
{
    String::from_str("INSERT INTO _migrations(id) VALUES ($1)")
}

/// The ids of the app's SQL migrations, in the order they apply.
pub fn migration_ids() -> (ids: Vec<String>)
    ensures
        ids@.len() == 1,
        ids@[0]@ == "0001_init"@,
{
    let mut ids: Vec<String> = Vec::new();
    ids.push(String::from_str("0001_init"));
    ids
}

/// The migrations from `i` on that are not recorded, in order.
pub open spec fn pending(recorded: Seq<bool>, i: nat) -> Seq<nat>
    decreases recorded.len() - i,
{
    if i >= recorded.len() {
        Seq::empty()
    } else if recorded[i as int] {
        pending(recorded, i + 1)
    } else {
        seq![i].add(pending(recorded, i + 1))
    }
}

/// How far a walk in `state` is from its end.
pub open spec fn ledger_distance(count: usize, state: LedgerState) -> nat {
    match state {
        LedgerState::Checking(i) => if i < count { (count - i) as nat } else { 0 },
        _ => 0,
    }
}

/// The migrations a walk from `state` applies when the database answers each
/// question from `recorded` and every statement succeeds.
pub open spec fn applied_by_walk(count: usize, recorded: Seq<bool>, state: LedgerState) -> Seq<nat>
    decreases ledger_distance(count, state),
{
    match state {
        LedgerState::Checking(i) => if i < count {
            let (s1, a1) = ledger_next(count, state, LedgerEvent::Recorded(recorded[i as int]));
            if recorded[i as int] {
                applied_by_walk(count, recorded, s1)
            } else {
                let s2 = ledger_next(count, s1, LedgerEvent::Applied).0;
                seq![i as nat].add(applied_by_walk(count, recorded, s2))
            }
        } else {
            Seq::empty()
        },
        _ => Seq::empty(),
    }
}

/// The state a walk from `state` ends in under the same answers.
pub open spec fn walk_end(count: usize, recorded: Seq<bool>, state: LedgerState) -> LedgerState
    decreases ledger_distance(count, state),
{
    match state {
        LedgerState::Checking(i) => if i < count {
            let (s1, a1) = ledger_next(count, state, LedgerEvent::Recorded(recorded[i as int]));
            if recorded[i as int] {
                walk_end(count, recorded, s1)
            } else {
                walk_end(count, recorded, ledger_next(count, s1, LedgerEvent::Applied).0)
            }
        } else {
            state
        },
        _ => state,
    }
}

proof fn lemma_walk_from(count: usize, recorded: Seq<bool>, i: usize)
    requires
        recorded.len() == count,
        i < count,
    ensures
        applied_by_walk(count, recorded, LedgerState::Checking(i)) == pending(recorded, i as nat),
        walk_end(count, recorded, LedgerState::Checking(i)) == LedgerState::Done,
    decreases count - i,
{
    let here = LedgerState::Checking(i);
    let after = ledger_advance(count, i).0;
    assert(ledger_next(count, here, LedgerEvent::Recorded(true)).0 == after);
    assert(ledger_next(count, LedgerState::Applying(i), LedgerEvent::Applied).0 == after);
    assert(ledger_next(count, here, LedgerEvent::Recorded(false)).0 == LedgerState::Applying(i));
    if i + 1 < count {
        lemma_walk_from(count, recorded, (i + 1) as usize);
        assert(after == LedgerState::Checking((i + 1) as usize));
    } else {
        assert(pending(recorded, (i + 1) as nat) =~= Seq::<nat>::empty());
        assert(after == LedgerState::Done);
        assert(applied_by_walk(count, recorded, after) =~= Seq::<nat>::empty());
    }
    assert(applied_by_walk(count, recorded, after) == pending(recorded, (i + 1) as nat));
    assert(walk_end(count, recorded, after) == LedgerState::Done);
    assert(walk_end(count, recorded, here) == walk_end(count, recorded, after));
    if recorded[i as int] {
        assert(applied_by_walk(count, recorded, here) == applied_by_walk(count, recorded, after));
    } else {
        assert(applied_by_walk(count, recorded, here) == seq![i as nat].add(applied_by_walk(count, recorded, after)));
    }
}

/// A complete walk applies exactly the migrations that are not recorded, in
/// their listed order, and ends done.
pub proof fn lemma_walk_applies_pending(count: usize, recorded: Seq<bool>)
    requires
        recorded.len() == count,
    ensures
        applied_by_walk(count, recorded, ledger_walk_start(count).0) == pending(recorded, 0),
        walk_end(count, recorded, ledger_walk_start(count).0) == LedgerState::Done,
{
    if count > 0 {
        lemma_walk_from(count, recorded, 0);
    }
}

proof fn lemma_pending_empty(recorded: Seq<bool>, i: nat)
    requires
        forall|j: int| 0 <= j < recorded.len() ==> recorded[j],
    ensures
        pending(recorded, i) =~= Seq::<nat>::empty(),
    decreases recorded.len() - i,
{
    if i < recorded.len() {
        lemma_pending_empty(recorded, i + 1);
    }
}

/// Once every migration is recorded, a walk applies nothing: running the
/// migrations again changes nothing.
pub proof fn lemma_rerun_applies_nothing(count: usize, recorded: Seq<bool>)
    requires
        recorded.len() == count,
        forall|j: int| 0 <= j < recorded.len() ==> recorded[j],
    ensures
        applied_by_walk(count, recorded, ledger_walk_start(count).0) =~= Seq::<nat>::empty(),
{
    lemma_walk_applies_pending(count, recorded);
    lemma_pending_empty(recorded, 0);
}

/// A run makes sure the schema exists, then the ledger table, and only then
/// walks the migrations.
pub proof fn lemma_prepares_before_walk(count: usize)
    ensures
        ledger_start(count) == (LedgerState::CreatingSchema, LedgerAction::CreateSchema),
        ledger_next(count, LedgerState::CreatingSchema, LedgerEvent::Prepared)
            == (LedgerState::CreatingLedger, LedgerAction::CreateLedgerTable),
        ledger_next(count, LedgerState::CreatingLedger, LedgerEvent::Prepared) == ledger_walk_start(count),
{
}

/// The ledger after a walk from `state` that starts from `recorded`, where
/// applying a migration records it in the same transaction.
pub open spec fn recorded_after_walk(count: usize, recorded: Seq<bool>, state: LedgerState) -> Seq<bool>
    decreases ledger_distance(count, state),
{
    match state {
        LedgerState::Checking(i) => if i < count {
            let s1 = ledger_next(count, state, LedgerEvent::Recorded(recorded[i as int])).0;
            if recorded[i as int] {
                recorded_after_walk(count, recorded, s1)
            } else {
                recorded_after_walk(count, recorded.update(i as int, true), ledger_next(count, s1, LedgerEvent::Applied).0)
            }
        } else {
            recorded
        },
        _ => recorded,
    }
}

proof fn lemma_recorded_after_from(count: usize, recorded: Seq<bool>, i: usize)
    requires
        recorded.len() == count,
        i < count,
    ensures
        recorded_after_walk(count, recorded, LedgerState::Checking(i)).len() == count,
        forall|j: int| 0 <= j < count ==> #[trigger] recorded_after_walk(count, recorded, LedgerState::Checking(i))[j]
            == if j >= i { true } else { recorded[j] },
    decreases count - i,
{
    let here = LedgerState::Checking(i);
    let after = ledger_advance(count, i).0;
    let r2 = if recorded[i as int] { recorded } else { recorded.update(i as int, true) };
    assert(ledger_next(count, here, LedgerEvent::Recorded(true)).0 == after);
    assert(ledger_next(count, LedgerState::Applying(i), LedgerEvent::Applied).0 == after);
    assert(ledger_next(count, here, LedgerEvent::Recorded(false)).0 == LedgerState::Applying(i));
    assert(recorded_after_walk(count, recorded, here) == recorded_after_walk(count, r2, after));
    if i + 1 < count {
        lemma_recorded_after_from(count, r2, (i + 1) as usize);
    } else {
        assert(after == LedgerState::Done);
    }
}

/// A complete walk, applying and recording each migration not yet recorded,
/// leaves every migration recorded.
pub proof fn lemma_walk_records_every_migration(count: usize, recorded: Seq<bool>)
    requires
        recorded.len() == count,
    ensures
        recorded_after_walk(count, recorded, ledger_walk_start(count).0).len() == count,
        forall|j: int| 0 <= j < count ==> #[trigger] recorded_after_walk(count, recorded, ledger_walk_start(count).0)[j],
{
    if count > 0 {
        lemma_recorded_after_from(count, recorded, 0);
    }
}

/// Running the migrations a second time after a complete run applies none:
/// the first run recorded every migration it applied.
pub proof fn lemma_second_run_applies_nothing(count: usize, recorded: Seq<bool>)
    requires
        recorded.len() == count,
    ensures
        applied_by_walk(count, recorded_after_walk(count, recorded, ledger_walk_start(count).0), ledger_walk_start(count).0)
            =~= Seq::<nat>::empty(),
{
    lemma_walk_records_every_migration(count, recorded);
    let after = recorded_after_walk(count, recorded, ledger_walk_start(count).0);
    assert forall|j: int| 0 <= j < after.len() implies after[j] by {}
    lemma_rerun_applies_nothing(count, after);
}

/// Any failed statement ends a run, in whatever state it is: the run is
/// aborted and stops with the failure. A run finishes only on a statement
/// that succeeded: a prepared table, a migration found recorded, or one just
/// applied.
pub proof fn lemma_failure_aborts_run(count: usize, state: LedgerState, event: LedgerEvent)
    ensures
        ledger_next(count, state, LedgerEvent::Failed) == (LedgerState::Aborted, LedgerAction::Abort),
        ledger_next(count, state, event).1 is Finish ==> (event is Prepared || event is Applied
            || event == LedgerEvent::Recorded(true)),
        ledger_next(count, state, event).1 is Finish ==> ledger_next(count, state, event).0 is Done,
{
}

} // verus!
