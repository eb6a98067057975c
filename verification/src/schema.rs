//! The PostgreSQL schema that holds the effect fences.
use lenso_postgres_kit::{Migration, PlanError, SchemaPlan};
use vstd::prelude::*;

use crate::text::is_blank;

verus! {

/// Creates the table of effect fences. Its columns hold digests, the state of the fence and the
/// portable response: no recipient, subject, body or credential.
pub const CREATE_SMTP_EFFECTS: &'static str = "CREATE TABLE smtp_dispatch_effects (
    idempotency_key_hash text PRIMARY KEY,
    delivery_id_hash text NOT NULL,
    attempt_id_hash text NOT NULL,
    request_fingerprint text NOT NULL,
    content_digest text NOT NULL,
    state text NOT NULL CHECK (state IN ('prepared', 'sending', 'accepted', 'temporary_failure', 'permanent_failure', 'delivery_unknown')),
    fence bigint NOT NULL DEFAULT 0 CHECK (fence >= 0),
    effect_started_at timestamptz,
    lease_expires_at timestamptz,
    response jsonb,
    created_at timestamptz NOT NULL DEFAULT clock_timestamp(),
    updated_at timestamptz NOT NULL DEFAULT clock_timestamp(),
    UNIQUE (delivery_id_hash, attempt_id_hash)
);
";

pub const MIGRATION_VERSION: u64 = 1;

pub const MIGRATION_NAME: &'static str = "create-smtp-effects";

#[verifier::external_type_specification]
#[verifier::external_body]
pub struct ExSchemaPlan(lenso_postgres_kit::SchemaPlan);

#[verifier::external_type_specification]
#[verifier::external_body]
pub struct ExPlanError(lenso_postgres_kit::PlanError);

pub open spec fn is_schema_start(c: char) -> bool {
    'a' <= c <= 'z'
}

pub open spec fn is_schema_char(c: char) -> bool {
    'a' <= c <= 'z' || '0' <= c <= '9' || c == '_'
}

/// A schema that one plugin can own: an unquoted lower-case identifier of at most sixty-three
/// characters that PostgreSQL does not keep for itself.
pub open spec fn is_owned_schema_name(name: Seq<char>) -> bool {
    &&& 1 <= name.len() <= 63
    &&& is_schema_start(name[0])
    &&& forall|i: int| 0 <= i < name.len() ==> is_schema_char(#[trigger] name[i])
    &&& name != "public"@
    &&& name != "information_schema"@
    &&& !"pg_"@.is_prefix_of(name)
}

/// A migration's name: at most one hundred and twenty-eight characters, a lower-case letter
/// first.
pub open spec fn is_migration_name(name: Seq<char>) -> bool {
    &&& 1 <= name.len() <= 128
    &&& is_schema_start(name[0])
    &&& forall|i: int|
        0 <= i < name.len() ==> is_schema_char(#[trigger] name[i]) || name[i] == '-'
}

/// One plugin can own the schema, and the migration is a well-formed first one.
pub open spec fn is_sound_plan(
    schema: Seq<char>,
    version: u64,
    name: Seq<char>,
    sql: Seq<char>,
) -> bool {
    &&& is_owned_schema_name(schema)
    &&& version == 1
    &&& is_migration_name(name)
    &&& !is_blank(sql)
}

/// What `SchemaPlan::new` returns for `schema` and one migration.
pub uninterp spec fn schema_plan_result(
    schema: Seq<char>,
    version: u64,
    name: Seq<char>,
    sql: Seq<char>,
) -> Result<SchemaPlan, PlanError>;

/// The plan of this plugin's one migration in `schema`.
pub open spec fn schema_plan_of(schema: Seq<char>) -> Result<SchemaPlan, PlanError> {
    schema_plan_result(schema, MIGRATION_VERSION, MIGRATION_NAME@, CREATE_SMTP_EFFECTS@)
}

/// `lenso_postgres_kit::SchemaPlan::new` with a list of one migration: the result depends on the
/// arguments alone, and there is a plan exactly when one plugin can own the schema, the migration
/// has the first version, its name is well formed and its SQL is not blank. The plan keeps the
/// list for the life of the process.
#[verifier::external_body]
fn plan_one_migration(
    schema: &str,
    version: u64,
    name: &'static str,
    sql: &'static str,
) -> (plan: Result<SchemaPlan, PlanError>)
    ensures
        plan == schema_plan_result(schema@, version, name@, sql@),
        plan is Ok <==> is_sound_plan(schema@, version, name@, sql@),
{
    SchemaPlan::new(schema, vec![Migration::new(version, name, sql)].leak())
}

proof fn the_migration_is_well_formed()
    ensures
        is_migration_name(MIGRATION_NAME@),
        !is_blank(CREATE_SMTP_EFFECTS@),
{
    reveal_strlit("create-smtp-effects");
    reveal_strlit("CREATE TABLE smtp_dispatch_effects (
    idempotency_key_hash text PRIMARY KEY,
    delivery_id_hash text NOT NULL,
    attempt_id_hash text NOT NULL,
    request_fingerprint text NOT NULL,
    content_digest text NOT NULL,
    state text NOT NULL CHECK (state IN ('prepared', 'sending', 'accepted', 'temporary_failure', 'permanent_failure', 'delivery_unknown')),
    fence bigint NOT NULL DEFAULT 0 CHECK (fence >= 0),
    effect_started_at timestamptz,
    lease_expires_at timestamptz,
    response jsonb,
    created_at timestamptz NOT NULL DEFAULT clock_timestamp(),
    updated_at timestamptz NOT NULL DEFAULT clock_timestamp(),
    UNIQUE (delivery_id_hash, attempt_id_hash)
);
");
    assert(CREATE_SMTP_EFFECTS@[0] == 'C');
}

/// The plan for the effect table in `schema`: there is one exactly for the names that one plugin
/// can own.
pub fn schema_plan(schema: &str) -> (plan: Result<SchemaPlan, PlanError>)
    ensures
        plan == schema_plan_of(schema@),
        plan is Ok <==> is_owned_schema_name(schema@),
{
    proof {
        the_migration_is_well_formed();
    }
    plan_one_migration(schema, MIGRATION_VERSION, MIGRATION_NAME, CREATE_SMTP_EFFECTS)
}

/// A schema that one plugin can own is named by lower-case letters, digits and underscores, with a
/// letter first, and is none of those that PostgreSQL keeps for itself.
pub proof fn schema_names_are_lower_case_identifiers(name: Seq<char>)
    ensures
        is_owned_schema_name(name) <==> {
            &&& name.len() >= 1
            &&& name.len() <= 63
            &&& 'a' <= name[0] <= 'z'
            &&& forall|i: int|
                0 <= i < name.len() ==> {
                    let c = #[trigger] name[i];
                    'a' <= c <= 'z' || '0' <= c <= '9' || c == '_'
                }
            &&& name != "public"@
            &&& name != "information_schema"@
            &&& !(name.len() >= 3 && name[0] == 'p' && name[1] == 'g' && name[2] == '_')
        },
{
    reveal_strlit("pg_");
    let reserved = "pg_"@;
    if name.len() >= 3 && name[0] == 'p' && name[1] == 'g' && name[2] == '_' {
        assert(reserved =~= name.subrange(0, 3));
    }
    if reserved.is_prefix_of(name) {
        let front = name.subrange(0, 3);
        assert(front[0] == 'p' && front[1] == 'g' && front[2] == '_');
    }
}

/// Whatever the schema, its plan is one first migration, the one that creates the effect table.
pub proof fn every_plan_is_the_one_migration(schema: Seq<char>)
    ensures
        schema_plan_of(schema) == schema_plan_result(
            schema,
            1,
            "create-smtp-effects"@,
            CREATE_SMTP_EFFECTS@,
        ),
{
}

} // verus!
