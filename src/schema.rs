use vstd::prelude::*;

verus! {

/// The schema version this library reads and writes.
pub const SCHEMA_VERSION: u32 = 1;

/// Reads the store's schema-version marker.
pub const READ_VERSION_STATEMENT: &'static str = "PRAGMA user_version;";

/// Creates the paste table with strict column types.
pub const CREATE_PASTES_TABLE: &'static str = "CREATE TABLE IF NOT EXISTS pastes (id TEXT PRIMARY KEY, category TEXT, contents BLOB, date TEXT, duration INTEGER) STRICT;";

/// A change that brings the store's structure from one version to the next.
#[derive(Clone, Copy, Debug, PartialEq, Eq, Structural)]
pub enum SchemaChange {
    /// A fresh store: create the paste table in its latest form.
    CreatePasteTable,
}

impl SchemaChange {
    /// The statement that performs this change.
    pub fn statement(self) -> (r: &'static str)
        ensures
            r@ == CREATE_PASTES_TABLE@,
    {
        match self {
            SchemaChange::CreatePasteTable => CREATE_PASTES_TABLE,
        }
    }
}

/// The decimal digit for `d`, which is below ten.
pub open spec fn digit_char(d: nat) -> char {
    if d == 0 { '0' }
    else if d == 1 { '1' }
    else if d == 2 { '2' }
    else if d == 3 { '3' }
    else if d == 4 { '4' }
    else if d == 5 { '5' }
    else if d == 6 { '6' }
    else if d == 7 { '7' }
    else if d == 8 { '8' }
    else { '9' }
}

/// The decimal notation of `n`, without leading zeros.
pub open spec fn decimal(n: nat) -> Seq<char>
    decreases n,
{
    if n < 10 {
        seq![digit_char(n)]
    } else {
        decimal(n / 10) + seq![digit_char(n % 10)]
    }
}

/// The statement that records `version` as the store's schema version.
pub open spec fn version_statement_spec(version: u32) -> Seq<char> {
    "PRAGMA user_version = "@ + decimal(version as nat) + ";"@
}

fn digit_str(d: u32) -> (r: &'static str)
    requires
        d < 10,
    ensures
        r@ == seq![digit_char(d as nat)],
{
    proof {
        reveal_strlit("0");
        reveal_strlit("1");
        reveal_strlit("2");
        reveal_strlit("3");
        reveal_strlit("4");
        reveal_strlit("5");
        reveal_strlit("6");
        reveal_strlit("7");
        reveal_strlit("8");
        reveal_strlit("9");
    }
    if d == 0 { "0" }
    else if d == 1 { "1" }
    else if d == 2 { "2" }
    else if d == 3 { "3" }
    else if d == 4 { "4" }
    else if d == 5 { "5" }
    else if d == 6 { "6" }
    else if d == 7 { "7" }
    else if d == 8 { "8" }
    else { "9" }
}

/// The statement that records `version` as the store's schema version.
pub fn version_statement(version: u32) -> (r: String)
    ensures
        r@ == version_statement_spec(version),
{
    let mut digits = String::from_str(digit_str(version % 10));
    let mut rest: u32 = version / 10;
    while rest > 0
        invariant
            rest > 0 ==> decimal(version as nat) == decimal(rest as nat) + digits@,
            rest == 0 ==> decimal(version as nat) == digits@,
        decreases rest,
    {
        let d = String::from_str(digit_str(rest % 10));
        proof {
            if rest >= 10 {
                assert(decimal(rest as nat) == decimal((rest / 10) as nat) + seq![
                    digit_char((rest % 10) as nat),
                ]);
                assert(decimal(version as nat) == decimal((rest / 10) as nat) + (d@ + digits@));
            } else {
                assert(decimal(rest as nat) == d@);
            }
        }
        digits = d.concat(digits.as_str());
        rest = rest / 10;
    }
    let head = String::from_str("PRAGMA user_version = ");
    let r = head.concat(digits.as_str()).concat(";");
    assert(r@ == version_statement_spec(version));
    r
}

/// What initialization does next, given the version the store reports.
#[derive(Clone, Copy, Debug, PartialEq, Eq, Structural)]
pub enum SchemaStep {
    /// The store has the expected structure.
    Ready,
    /// Apply `change`, then record `to` as the store's version.
    Migrate { change: SchemaChange, to: u32 },
    /// No migration is defined from this version: the store must not be used.
    Unsupported(u32),
}

/// The step taken from a store at version `current`.
pub open spec fn step_spec(current: u32) -> SchemaStep {
    if current == SCHEMA_VERSION {
        SchemaStep::Ready
    } else if current == 0 {
        SchemaStep::Migrate { change: SchemaChange::CreatePasteTable, to: SCHEMA_VERSION }
    } else {
        SchemaStep::Unsupported(current)
    }
}

/// The version a store at `current` ends at when initialization runs at most
/// `n` migrations, or `None` when it stops on an unsupported version or runs out.
pub open spec fn run_from(current: u32, n: nat) -> Option<u32>
    decreases n,
{
    match step_spec(current) {
        SchemaStep::Ready => Some(current),
        SchemaStep::Migrate { change, to } => if n == 0 {
            None
        } else {
            run_from(to, (n - 1) as nat)
        },
        SchemaStep::Unsupported(_) => None,
    }
}

/// Decides the next initialization step for a store that reports `current`.
pub fn schema_step(current: u32) -> (r: SchemaStep)
    ensures
        r == step_spec(current),
{
    if current == SCHEMA_VERSION {
        SchemaStep::Ready
    } else if current == 0 {
        SchemaStep::Migrate { change: SchemaChange::CreatePasteTable, to: SCHEMA_VERSION }
    } else {
        SchemaStep::Unsupported(current)
    }
}

/// A fresh store is brought to the current version by one migration, and
/// initializing it again finds it ready and changes nothing.
pub proof fn lemma_init_idempotent(current: u32, n: nat)
    requires
        run_from(current, n) is Some,
    ensures
        run_from(current, n) == Some(SCHEMA_VERSION),
        step_spec(SCHEMA_VERSION) == SchemaStep::Ready,
        run_from(0, 1) == Some(SCHEMA_VERSION),
    decreases n,
{
    assert(run_from(SCHEMA_VERSION, 0) == Some(SCHEMA_VERSION));
    match step_spec(current) {
        SchemaStep::Migrate { change, to } => {
            lemma_init_idempotent(to, (n - 1) as nat);
        },
        _ => {},
    }
}

/// A store at a version with no defined migration is never declared ready,
/// however many steps initialization may take.
pub proof fn lemma_unknown_version_fatal(current: u32, n: nat)
    requires
        current != 0,
        current != SCHEMA_VERSION,
    ensures
        step_spec(current) == SchemaStep::Unsupported(current),
        run_from(current, n) is None,
{
}

} // verus!
