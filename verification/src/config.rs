//! The configuration entities and their translation into statements:
//! one rule per entity kind, each a pure function of the entity.

use vstd::prelude::*;

use crate::render::{join, join_with, quote_free, redact, lemma_quote_free_concat,
    lemma_redact_elides_secret};
use crate::statement::{duplicate_database_code, duplicate_object_code, spec_duplicate_database,
    spec_duplicate_object, Statement, StatementModel, Statements, TranslationError};

verus! {

/// What one entity contributes to the collection: well-formed
/// statements and translation failures, in emission order.
pub type Emitted = Seq<Result<StatementModel, Seq<char>>>;

/// A statement for the administrative (default) connection.
pub open spec fn admin_statement(sql: Seq<char>, ignorable: Seq<Seq<char>>) -> StatementModel {
    StatementModel { target: None, sql, ignorable }
}

/// A statement for the connection to `db`, with no ignorable classes.
pub open spec fn targeted_statement(db: Seq<char>, sql: Seq<char>) -> StatementModel {
    StatementModel { target: Some(db), sql, ignorable: Seq::empty() }
}

pub open spec fn create_database_sql(name: Seq<char>) -> Seq<char> {
    "CREATE DATABASE "@ + name + ";"@
}

pub open spec fn create_extension_sql(name: Seq<char>) -> Seq<char> {
    "CREATE EXTENSION IF NOT EXISTS "@ + name + ";"@
}

pub open spec fn create_user_sql(name: Seq<char>) -> Seq<char> {
    "CREATE USER "@ + name + ";"@
}

/// The password statement embeds the secret in a single-quoted
/// literal; its display form is therefore always redacted.
pub open spec fn alter_password_sql(name: Seq<char>, secret: Seq<char>) -> Seq<char> {
    "ALTER USER "@ + name + " WITH PASSWORD "@ + seq!['\''] + secret + seq!['\''] + ";"@
}

/// The secret written into the password statement. Resolving a
/// credential source is a collaborator concern outside this library;
/// a fixed placeholder stands in for the resolved value.
pub open spec fn spec_placeholder_secret() -> Seq<char> {
    "super_secret_password"@
}

pub open spec fn grant_database_sql(role: Seq<char>, verbs: Seq<Seq<char>>, db: Seq<char>) -> Seq<
    char,
> {
    "GRANT "@ + join_with(verbs, ", "@) + " ON DATABASE "@ + db + " TO "@ + role + ";"@
}

/// The capability shared by every configuration entity kind: render
/// itself into an ordered sequence of statements. Pure: translation
/// never mutates the entity and does no I/O.
pub trait ToSQLStatements {
    fn to_sql_statements(&self) -> Statements;
}

/// A database to create.
#[derive(Clone, Debug, PartialEq, Eq)]
pub struct Database {
    pub name: String,
}

impl Database {
    /// One creation statement on the administrative connection,
    /// ignorable when the database already exists.
    pub open spec fn spec_statements(self) -> Emitted {
        seq![
            Ok(
                admin_statement(
                    create_database_sql(self.name@),
                    seq![spec_duplicate_database()],
                ),
            ),
        ]
    }
}

impl ToSQLStatements for Database {
    fn to_sql_statements(&self) -> (r: Statements)
        ensures
            r@ == self.spec_statements(),
    {
        let mut sql = String::new();
        sql.append("CREATE DATABASE ");
        sql.append(self.name.as_str());
        sql.append(";");
        let mut ignorable: Vec<String> = Vec::new();
        ignorable.push(duplicate_database_code());
        let statement = Statement { database: None, sql, ignorable_errors: ignorable };
        proof {
            assert(statement@.sql =~= create_database_sql(self.name@));
            assert(statement@.ignorable =~= seq![spec_duplicate_database()]);
            assert(statement@ =~= admin_statement(
                create_database_sql(self.name@),
                seq![spec_duplicate_database()],
            ));
        }
        let mut r = Statements::new();
        r.push_statement(statement);
        proof {
            assert(r@ =~= self.spec_statements());
        }
        r
    }
}

/// A statement whose target is `db`, built from finished text.
fn targeted(db: &String, sql: String) -> (s: Statement)
    ensures
        s@ == targeted_statement(db@, sql@),
{
    let s = Statement { database: Some(db.clone()), sql, ignorable_errors: Vec::new() };
    proof {
        assert(s@ =~= targeted_statement(db@, sql@));
    }
    s
}

/// An extension to load into its owning database.
#[derive(Clone, Debug, PartialEq, Eq)]
pub struct Extension {
    pub name: String,
    pub database: String,
}

impl Extension {
    /// One statement targeting the owning database; the `IF NOT
    /// EXISTS` form is itself idempotent, so nothing is ignorable.
    pub open spec fn spec_statements(self) -> Emitted {
        seq![Ok(targeted_statement(self.database@, create_extension_sql(self.name@)))]
    }
}

impl ToSQLStatements for Extension {
    fn to_sql_statements(&self) -> (r: Statements)
        ensures
            r@ == self.spec_statements(),
    {
        let mut sql = String::new();
        sql.append("CREATE EXTENSION IF NOT EXISTS ");
        sql.append(self.name.as_str());
        sql.append(";");
        proof {
            assert(sql@ =~= create_extension_sql(self.name@));
        }
        let statement = targeted(&self.database, sql);
        let mut r = Statements::new();
        r.push_statement(statement);
        proof {
            assert(r@ =~= self.spec_statements());
        }
        r
    }
}

/// A user (role) to create, with an optional reference to a
/// credential source — never the literal secret.
#[derive(Clone, Debug, PartialEq, Eq)]
pub struct User {
    pub name: String,
    pub systemd_password_credential: Option<String>,
}

impl User {
    /// A creation statement, ignorable when the user already exists;
    /// with a credential source set, also a password statement, not
    /// ignorable — a failure to apply the secret must stay visible.
    pub open spec fn spec_statements(self) -> Emitted {
        let create = seq![
            Ok(admin_statement(create_user_sql(self.name@), seq![spec_duplicate_object()])),
        ];
        if self.systemd_password_credential is Some {
            create + seq![
                Ok(
                    admin_statement(
                        alter_password_sql(self.name@, spec_placeholder_secret()),
                        Seq::empty(),
                    ),
                ),
            ]
        } else {
            create
        }
    }
}

impl ToSQLStatements for User {
    fn to_sql_statements(&self) -> (r: Statements)
        ensures
            r@ == self.spec_statements(),
    {
        let mut sql = String::new();
        sql.append("CREATE USER ");
        sql.append(self.name.as_str());
        sql.append(";");
        let mut ignorable: Vec<String> = Vec::new();
        ignorable.push(duplicate_object_code());
        let statement = Statement { database: None, sql, ignorable_errors: ignorable };
        proof {
            assert(statement@.sql =~= create_user_sql(self.name@));
            assert(statement@.ignorable =~= seq![spec_duplicate_object()]);
            assert(statement@ =~= admin_statement(
                create_user_sql(self.name@),
                seq![spec_duplicate_object()],
            ));
        }
        let mut r = Statements::new();
        r.push_statement(statement);
        if self.systemd_password_credential.is_some() {
            let mut alter = String::new();
            alter.append("ALTER USER ");
            alter.append(self.name.as_str());
            alter.append(" WITH PASSWORD ");
            alter.append("'");
            alter.append("super_secret_password");
            alter.append("'");
            alter.append(";");
            let second = Statement { database: None, sql: alter, ignorable_errors: Vec::new() };
            proof {
                reveal_strlit("'");
                assert("'"@ =~= seq!['\'']);
                assert(second@.sql =~= alter_password_sql(self.name@, spec_placeholder_secret()));
                assert(second@ =~= admin_statement(
                    alter_password_sql(self.name@, spec_placeholder_secret()),
                    Seq::empty(),
                ));
            }
            r.push_statement(second);
        }
        proof {
            assert(r@ =~= self.spec_statements());
        }
        r
    }
}

proof fn lemma_literals_quote_free()
    ensures
        quote_free("ALTER USER "@),
        quote_free(" WITH PASSWORD "@),
        quote_free(spec_placeholder_secret()),
{
    reveal_strlit("ALTER USER ");
    reveal_strlit(" WITH PASSWORD ");
    reveal_strlit("super_secret_password");
    reveal_with_fuel(quote_free, 25);
    assert(quote_free("ALTER USER "@));
    assert(quote_free(" WITH PASSWORD "@));
    assert(quote_free(spec_placeholder_secret()));
}

pub open spec fn grant_schema_sql(role: Seq<char>, verbs: Seq<Seq<char>>, schema: Seq<char>) -> Seq<
    char,
> {
    "GRANT "@ + join_with(verbs, ", "@) + " ON SCHEMA "@ + schema + " TO "@ + role + ";"@
}

pub open spec fn default_schema_sql(role: Seq<char>, verbs: Seq<Seq<char>>) -> Seq<char> {
    "ALTER DEFAULT PRIVILEGES GRANT "@ + join_with(verbs, ", "@) + " ON SCHEMAS TO "@ + role + ";"@
}

pub open spec fn grant_table_sql(role: Seq<char>, verbs: Seq<Seq<char>>, clause: Seq<char>) -> Seq<
    char,
> {
    "GRANT "@ + join_with(verbs, ", "@) + " ON "@ + clause + " TO "@ + role + ";"@
}

pub open spec fn default_table_sql(role: Seq<char>, verbs: Seq<Seq<char>>) -> Seq<char> {
    "ALTER DEFAULT PRIVILEGES GRANT "@ + join_with(verbs, ", "@) + " ON TABLES TO "@ + role + ";"@
}

/// What one database name contributes to a database permission.
pub open spec fn grant_database_item(role: Seq<char>, verbs: Seq<Seq<char>>) -> spec_fn(
    Seq<char>,
) -> Result<StatementModel, Seq<char>> {
    |db: Seq<char>| Ok(targeted_statement(db, grant_database_sql(role, verbs, db)))
}

/// A set of permission verbs granted to a role on whole databases.
#[derive(Clone, Debug, PartialEq, Eq)]
pub struct DatabasePermission {
    pub role: String,
    pub permissions: Vec<String>,
    pub databases: Vec<String>,
}

impl DatabasePermission {
    /// One grant statement per listed database, in list order, each
    /// targeting its own database.
    pub open spec fn spec_statements(self) -> Emitted {
        self.databases.deep_view().map_values(
            grant_database_item(self.role@, self.permissions.deep_view()),
        )
    }
}

impl ToSQLStatements for DatabasePermission {
    fn to_sql_statements(&self) -> (r: Statements)
        ensures
            r@ == self.spec_statements(),
    {
        let verbs = join(&self.permissions, ", ");
        let mut r = Statements::new();
        let mut i: usize = 0;
        while i < self.databases.len()
            invariant
                i <= self.databases.len(),
                verbs@ == join_with(self.permissions.deep_view(), ", "@),
                r@ =~= self.databases.deep_view().take(i as int).map_values(
                    grant_database_item(self.role@, self.permissions.deep_view()),
                ),
            decreases self.databases.len() - i,
        {
            let db = &self.databases[i];
            let mut sql = String::new();
            sql.append("GRANT ");
            sql.append(verbs.as_str());
            sql.append(" ON DATABASE ");
            sql.append(db.as_str());
            sql.append(" TO ");
            sql.append(self.role.as_str());
            sql.append(";");
            proof {
                assert(sql@ =~= grant_database_sql(
                    self.role@,
                    self.permissions.deep_view(),
                    db@,
                ));
            }
            let statement = targeted(db, sql);
            proof {
                let f = grant_database_item(self.role@, self.permissions.deep_view());
                let dv = self.databases.deep_view();
                assert(dv[i as int] == self.databases@[i as int]@);
                assert(dv.take(i as int + 1).map_values(f) =~= dv.take(i as int).map_values(
                    f,
                ).push(f(dv[i as int])));
            }
            r.push_statement(statement);
            i = i + 1;
        }
        proof {
            assert(self.databases.deep_view().take(self.databases.len() as int)
                =~= self.databases.deep_view());
        }
        r
    }
}

/// What one schema name contributes to a schema permission: the grant
/// statement, immediately followed — when defaults are asked for — by
/// the default-privileges statement, once per schema.
pub open spec fn schema_permission_items(
    role: Seq<char>,
    verbs: Seq<Seq<char>>,
    db: Seq<char>,
    make_default: bool,
) -> spec_fn(Seq<char>) -> Emitted {
    |schema: Seq<char>|
        {
            let grant = seq![Ok(targeted_statement(db, grant_schema_sql(role, verbs, schema)))];
            if make_default {
                grant + seq![Ok(targeted_statement(db, default_schema_sql(role, verbs)))]
            } else {
                grant
            }
        }
}

/// A set of permission verbs granted to a role on schemas of one
/// database, optionally also as default privileges for future objects.
#[derive(Clone, Debug, PartialEq, Eq)]
pub struct SchemaPermission {
    pub role: String,
    pub permissions: Vec<String>,
    pub database: String,
    pub schemas: Vec<String>,
    pub make_default: bool,
}

impl SchemaPermission {
    /// Per schema, in list order: the grant statement, then — when
    /// `make_default` is set — the default-privileges statement. The
    /// default statement repeats per schema; the redundancy is
    /// accepted and reproducible.
    pub open spec fn spec_statements(self) -> Emitted {
        self.schemas.deep_view().flat_map(
            schema_permission_items(
                self.role@,
                self.permissions.deep_view(),
                self.database@,
                self.make_default,
            ),
        )
    }
}

impl ToSQLStatements for SchemaPermission {
    fn to_sql_statements(&self) -> (r: Statements)
        ensures
            r@ == self.spec_statements(),
    {
        let verbs = join(&self.permissions, ", ");
        let mut r = Statements::new();
        let mut i: usize = 0;
        while i < self.schemas.len()
            invariant
                i <= self.schemas.len(),
                verbs@ == join_with(self.permissions.deep_view(), ", "@),
                r@ =~= self.schemas.deep_view().take(i as int).flat_map(
                    schema_permission_items(
                        self.role@,
                        self.permissions.deep_view(),
                        self.database@,
                        self.make_default,
                    ),
                ),
            decreases self.schemas.len() - i,
        {
            let ghost r_before = r@;
            let schema = &self.schemas[i];
            let mut sql = String::new();
            sql.append("GRANT ");
            sql.append(verbs.as_str());
            sql.append(" ON SCHEMA ");
            sql.append(schema.as_str());
            sql.append(" TO ");
            sql.append(self.role.as_str());
            sql.append(";");
            proof {
                assert(sql@ =~= grant_schema_sql(
                    self.role@,
                    self.permissions.deep_view(),
                    schema@,
                ));
            }
            let statement = targeted(&self.database, sql);
            r.push_statement(statement);
            if self.make_default {
                let mut dsql = String::new();
                dsql.append("ALTER DEFAULT PRIVILEGES GRANT ");
                dsql.append(verbs.as_str());
                dsql.append(" ON SCHEMAS TO ");
                dsql.append(self.role.as_str());
                dsql.append(";");
                proof {
                    assert(dsql@ =~= default_schema_sql(
                        self.role@,
                        self.permissions.deep_view(),
                    ));
                }
                let dstatement = targeted(&self.database, dsql);
                r.push_statement(dstatement);
            }
            proof {
                let f = schema_permission_items(
                    self.role@,
                    self.permissions.deep_view(),
                    self.database@,
                    self.make_default,
                );
                let dv = self.schemas.deep_view();
                assert(dv[i as int] == self.schemas@[i as int]@);
                dv.lemma_flat_map_take_append(f, i as int);
                assert(r@ =~= r_before + f(dv[i as int]));
                assert(r@ =~= dv.take(i as int + 1).flat_map(f));
            }
            i = i + 1;
        }
        proof {
            assert(self.schemas.deep_view().take(self.schemas.len() as int)
                =~= self.schemas.deep_view());
        }
        r
    }
}

/// The table selector of a table permission, as the configuration
/// document held it: the literal token `ALL`, an explicit list of
/// table names, or a token of no recognized shape, which fails
/// translation for this entity alone.
#[derive(Clone, Debug, PartialEq, Eq)]
pub enum Tables {
    All,
    List(Vec<String>),
    Unrecognized(String),
}

/// The mathematical content of a table selector.
pub enum TablesView {
    All,
    List(Seq<Seq<char>>),
    Unrecognized(Seq<char>),
}

impl View for Tables {
    type V = TablesView;

    open spec fn view(&self) -> TablesView {
        match self {
            Tables::All => TablesView::All,
            Tables::List(names) => TablesView::List(names.deep_view()),
            Tables::Unrecognized(token) => TablesView::Unrecognized(token@),
        }
    }
}

/// The rendered clause of a well-formed selector: the whole-schema
/// form names the `public` schema literally — a known limitation, not
/// a parameter.
pub open spec fn table_clause(t: TablesView) -> Seq<char>
    recommends
        !(t is Unrecognized),
{
    match t {
        TablesView::All => "ALL IN SCHEMA public"@,
        TablesView::List(names) => "TABLE "@ + join_with(names, ", "@),
        TablesView::Unrecognized(_) => Seq::empty(),
    }
}

/// The description a malformed table selector fails with.
pub open spec fn unrecognized_tables_message(token: Seq<char>) -> Seq<char> {
    "unrecognized table selector: "@ + token
}

/// A set of permission verbs granted to a role on tables of one
/// database, optionally also as default privileges for future tables.
#[derive(Clone, Debug, PartialEq, Eq)]
pub struct TablePermission {
    pub role: String,
    pub permissions: Vec<String>,
    pub database: String,
    pub tables: Tables,
    pub make_default: bool,
}

impl TablePermission {
    /// The grant statement over the rendered table clause, then —
    /// when `make_default` is set — the default-privileges statement.
    /// A selector of unrecognized shape yields a single failed item
    /// and no statements for this entity.
    pub open spec fn spec_statements(self) -> Emitted {
        match self.tables@ {
            TablesView::Unrecognized(token) => seq![Err(unrecognized_tables_message(token))],
            _ => {
                let grant = seq![
                    Ok(
                        targeted_statement(
                            self.database@,
                            grant_table_sql(
                                self.role@,
                                self.permissions.deep_view(),
                                table_clause(self.tables@),
                            ),
                        ),
                    ),
                ];
                if self.make_default {
                    grant + seq![
                        Ok(
                            targeted_statement(
                                self.database@,
                                default_table_sql(self.role@, self.permissions.deep_view()),
                            ),
                        ),
                    ]
                } else {
                    grant
                }
            },
        }
    }
}

impl ToSQLStatements for TablePermission {
    fn to_sql_statements(&self) -> (r: Statements)
        ensures
            r@ == self.spec_statements(),
    {
        let mut r = Statements::new();
        let clause: String;
        match &self.tables {
            Tables::Unrecognized(token) => {
                let mut message = String::new();
                message.append("unrecognized table selector: ");
                message.append(token.as_str());
                proof {
                    assert(message@ =~= unrecognized_tables_message(token@));
                }
                r.push_error(TranslationError { message });
                proof {
                    assert(r@ =~= self.spec_statements());
                }
                return r;
            },
            Tables::All => {
                clause = "ALL IN SCHEMA public".to_owned();
                proof {
                    assert(clause@ == table_clause(self.tables@));
                }
            },
            Tables::List(names) => {
                let mut c = String::new();
                c.append("TABLE ");
                let joined = join(names, ", ");
                c.append(joined.as_str());
                clause = c;
                proof {
                    assert(clause@ =~= table_clause(self.tables@));
                }
            },
        }
        let verbs = join(&self.permissions, ", ");
        let mut sql = String::new();
        sql.append("GRANT ");
        sql.append(verbs.as_str());
        sql.append(" ON ");
        sql.append(clause.as_str());
        sql.append(" TO ");
        sql.append(self.role.as_str());
        sql.append(";");
        proof {
            assert(sql@ =~= grant_table_sql(
                self.role@,
                self.permissions.deep_view(),
                table_clause(self.tables@),
            ));
        }
        let statement = targeted(&self.database, sql);
        r.push_statement(statement);
        if self.make_default {
            let mut dsql = String::new();
            dsql.append("ALTER DEFAULT PRIVILEGES GRANT ");
            dsql.append(verbs.as_str());
            dsql.append(" ON TABLES TO ");
            dsql.append(self.role.as_str());
            dsql.append(";");
            proof {
                assert(dsql@ =~= default_table_sql(self.role@, self.permissions.deep_view()));
            }
            let dstatement = targeted(&self.database, dsql);
            r.push_statement(dstatement);
        }
        proof {
            assert(r@ =~= self.spec_statements());
        }
        r
    }
}

/// What one database entity contributes to the collection.
pub open spec fn database_item() -> spec_fn(Database) -> Emitted {
    |d: Database| d.spec_statements()
}

/// What one extension entity contributes.
pub open spec fn extension_item() -> spec_fn(Extension) -> Emitted {
    |e: Extension| e.spec_statements()
}

/// What one user entity contributes.
pub open spec fn user_item() -> spec_fn(User) -> Emitted {
    |u: User| u.spec_statements()
}

/// What one database permission contributes.
pub open spec fn database_permission_item() -> spec_fn(DatabasePermission) -> Emitted {
    |p: DatabasePermission| p.spec_statements()
}

/// What one schema permission contributes.
pub open spec fn schema_permission_item() -> spec_fn(SchemaPermission) -> Emitted {
    |p: SchemaPermission| p.spec_statements()
}

/// What one table permission contributes.
pub open spec fn table_permission_item() -> spec_fn(TablePermission) -> Emitted {
    |p: TablePermission| p.spec_statements()
}

/// The whole desired state: ordered lists of entities of each kind.
/// Read-only once loaded; translation never mutates it.
#[derive(Clone, Debug, PartialEq, Eq)]
pub struct ClusterConfig {
    pub databases: Vec<Database>,
    pub extensions: Vec<Extension>,
    pub users: Vec<User>,
    pub database_permissions: Vec<DatabasePermission>,
    pub schema_permissions: Vec<SchemaPermission>,
    pub table_permissions: Vec<TablePermission>,
}

impl ClusterConfig {
    /// The one collection of the run: every category's statements
    /// concatenated in the fixed dependency order — databases, then
    /// extensions, then users, then database, schema and table
    /// permissions. The order is the engine's only dependency
    /// mechanism and is preserved exactly.
    pub open spec fn spec_statements(self) -> Emitted {
        self.databases@.flat_map(database_item()) + self.extensions@.flat_map(extension_item())
            + self.users@.flat_map(user_item()) + self.database_permissions@.flat_map(
            database_permission_item(),
        ) + self.schema_permissions@.flat_map(schema_permission_item())
            + self.table_permissions@.flat_map(table_permission_item())
    }
}

/// The creation statements of every configured database, in order.
pub fn create_databases(config: &ClusterConfig) -> (r: Statements)
    ensures
        r@ == config.databases@.flat_map(database_item()),
{
    let mut r = Statements::new();
    let mut i: usize = 0;
    while i < config.databases.len()
        invariant
            i <= config.databases.len(),
            r@ =~= config.databases@.take(i as int).flat_map(database_item()),
        decreases config.databases.len() - i,
    {
        let s = config.databases[i].to_sql_statements();
        proof {
            config.databases@.lemma_flat_map_take_append(database_item(), i as int);
        }
        r.append(s);
        i = i + 1;
    }
    proof {
        assert(config.databases@.take(config.databases.len() as int) =~= config.databases@);
    }
    r
}

/// The load statements of every configured extension, in order.
pub fn load_extensions(config: &ClusterConfig) -> (r: Statements)
    ensures
        r@ == config.extensions@.flat_map(extension_item()),
{
    let mut r = Statements::new();
    let mut i: usize = 0;
    while i < config.extensions.len()
        invariant
            i <= config.extensions.len(),
            r@ =~= config.extensions@.take(i as int).flat_map(extension_item()),
        decreases config.extensions.len() - i,
    {
        let s = config.extensions[i].to_sql_statements();
        proof {
            config.extensions@.lemma_flat_map_take_append(extension_item(), i as int);
        }
        r.append(s);
        i = i + 1;
    }
    proof {
        assert(config.extensions@.take(config.extensions.len() as int) =~= config.extensions@);
    }
    r
}

/// The creation statements of every configured user, in order.
pub fn create_users(config: &ClusterConfig) -> (r: Statements)
    ensures
        r@ == config.users@.flat_map(user_item()),
{
    let mut r = Statements::new();
    let mut i: usize = 0;
    while i < config.users.len()
        invariant
            i <= config.users.len(),
            r@ =~= config.users@.take(i as int).flat_map(user_item()),
        decreases config.users.len() - i,
    {
        let s = config.users[i].to_sql_statements();
        proof {
            config.users@.lemma_flat_map_take_append(user_item(), i as int);
        }
        r.append(s);
        i = i + 1;
    }
    proof {
        assert(config.users@.take(config.users.len() as int) =~= config.users@);
    }
    r
}

/// The grant statements of every database permission, in order.
pub fn grant_database_permissions(config: &ClusterConfig) -> (r: Statements)
    ensures
        r@ == config.database_permissions@.flat_map(database_permission_item()),
{
    let mut r = Statements::new();
    let mut i: usize = 0;
    while i < config.database_permissions.len()
        invariant
            i <= config.database_permissions.len(),
            r@ =~= config.database_permissions@.take(i as int).flat_map(
                database_permission_item(),
            ),
        decreases config.database_permissions.len() - i,
    {
        let s = config.database_permissions[i].to_sql_statements();
        proof {
            config.database_permissions@.lemma_flat_map_take_append(
                database_permission_item(),
                i as int,
            );
        }
        r.append(s);
        i = i + 1;
    }
    proof {
        assert(config.database_permissions@.take(config.database_permissions.len() as int)
            =~= config.database_permissions@);
    }
    r
}

/// The grant statements of every schema permission, in order.
pub fn grant_schema_permissions(config: &ClusterConfig) -> (r: Statements)
    ensures
        r@ == config.schema_permissions@.flat_map(schema_permission_item()),
{
    let mut r = Statements::new();
    let mut i: usize = 0;
    while i < config.schema_permissions.len()
        invariant
            i <= config.schema_permissions.len(),
            r@ =~= config.schema_permissions@.take(i as int).flat_map(schema_permission_item()),
        decreases config.schema_permissions.len() - i,
    {
        let s = config.schema_permissions[i].to_sql_statements();
        proof {
            config.schema_permissions@.lemma_flat_map_take_append(
                schema_permission_item(),
                i as int,
            );
        }
        r.append(s);
        i = i + 1;
    }
    proof {
        assert(config.schema_permissions@.take(config.schema_permissions.len() as int)
            =~= config.schema_permissions@);
    }
    r
}

/// The grant statements of every table permission, in order.
pub fn grant_table_permissions(config: &ClusterConfig) -> (r: Statements)
    ensures
        r@ == config.table_permissions@.flat_map(table_permission_item()),
{
    let mut r = Statements::new();
    let mut i: usize = 0;
    while i < config.table_permissions.len()
        invariant
            i <= config.table_permissions.len(),
            r@ =~= config.table_permissions@.take(i as int).flat_map(table_permission_item()),
        decreases config.table_permissions.len() - i,
    {
        let s = config.table_permissions[i].to_sql_statements();
        proof {
            config.table_permissions@.lemma_flat_map_take_append(
                table_permission_item(),
                i as int,
            );
        }
        r.append(s);
        i = i + 1;
    }
    proof {
        assert(config.table_permissions@.take(config.table_permissions.len() as int)
            =~= config.table_permissions@);
    }
    r
}

impl ToSQLStatements for ClusterConfig {
    fn to_sql_statements(&self) -> (r: Statements)
        ensures
            r@ == self.spec_statements(),
    {
        let mut r = create_databases(self);
        r.append(load_extensions(self));
        r.append(create_users(self));
        r.append(grant_database_permissions(self));
        r.append(grant_schema_permissions(self));
        r.append(grant_table_permissions(self));
        r
    }
}

proof fn lemma_join_pair(v1: Seq<char>, v2: Seq<char>)
    ensures
        join_with(seq![v1, v2], ", "@) == v1 + ", "@ + v2,
{
    let verbs = seq![v1, v2];
    assert(verbs.drop_first() =~= seq![v2]);
    assert(join_with(seq![v2], ", "@) == v2);
    assert(join_with(verbs, ", "@) == verbs[0] + ", "@ + join_with(verbs.drop_first(), ", "@));
}

proof fn lemma_flat_map_pair<A, B>(s: Seq<A>, f: spec_fn(A) -> Seq<B>)
    requires
        s.len() == 2,
    ensures
        s.flat_map(f) == f(s[0]) + f(s[1]),
{
    s.lemma_flat_map_take_append(f, 0);
    s.lemma_flat_map_take_append(f, 1);
    assert(s.take(0).map_values(f) =~= Seq::<Seq<B>>::empty());
    assert(Seq::<Seq<B>>::empty().flatten() == Seq::<B>::empty());
    assert(s.take(0).flat_map(f) =~= Seq::<B>::empty());
    assert(s.take(1).flat_map(f) =~= f(s[0]));
    assert(s.take(2) =~= s);
    assert(s.flat_map(f) =~= f(s[0]) + f(s[1]));
}

proof fn lemma_flat_map_concat<A, B>(x: Seq<A>, y: Seq<A>, f: spec_fn(A) -> Seq<B>)
    ensures
        (x + y).flat_map(f) == x.flat_map(f) + y.flat_map(f),
{
    assert((x + y).map_values(f) =~= x.map_values(f) + y.map_values(f));
    vstd::seq_lib::lemma_flatten_concat(x.map_values(f), y.map_values(f));
    assert((x + y).flat_map(f) =~= x.flat_map(f) + y.flat_map(f));
}

/// Law (grouping and order): in the collection, the contribution of
/// entity `k` of a category stands whole and in place, between what
/// its earlier and later siblings contribute.
pub proof fn lemma_entity_contribution_split<A>(entities: Seq<A>, f: spec_fn(A) -> Emitted, k: int)
    requires
        0 <= k < entities.len(),
    ensures
        entities.flat_map(f) == entities.take(k).flat_map(f) + f(entities[k]) + entities.skip(
            k + 1,
        ).flat_map(f),
{
    let a = entities.take(k);
    let mid = seq![entities[k]];
    let b = entities.skip(k + 1);
    assert(entities =~= a + mid + b);
    lemma_flat_map_concat(a + mid, b, f);
    lemma_flat_map_concat(a, mid, f);
    mid.lemma_flat_map_singleton(f);
}

/// Law (failure locality): a table permission whose selector has no
/// recognized shape contributes exactly one failed item — its
/// description — while every other entity's statements stand
/// unchanged, in their original relative order.
pub proof fn lemma_malformed_entity_is_local(c: ClusterConfig, k: int, token: Seq<char>)
    requires
        0 <= k < c.table_permissions@.len(),
        c.table_permissions@[k].tables@ == TablesView::Unrecognized(token),
    ensures
        c.spec_statements() == c.databases@.flat_map(database_item()) + c.extensions@.flat_map(
            extension_item(),
        ) + c.users@.flat_map(user_item()) + c.database_permissions@.flat_map(
            database_permission_item(),
        ) + c.schema_permissions@.flat_map(schema_permission_item()) + (
        c.table_permissions@.take(k).flat_map(table_permission_item()) + seq![
            Err::<StatementModel, Seq<char>>(unrecognized_tables_message(token)),
        ] + c.table_permissions@.skip(k + 1).flat_map(table_permission_item())),
{
    lemma_entity_contribution_split(c.table_permissions@, table_permission_item(), k);
    assert(table_permission_item()(c.table_permissions@[k]) =~= seq![
        Err::<StatementModel, Seq<char>>(unrecognized_tables_message(token)),
    ]);
}

/// Law (per-database fan-out): a database permission with databases
/// `[d1, d2]` and verbs `[v1, v2]` yields exactly two grant
/// statements, in list order, each targeting its own database, the
/// verbs rendered verbatim and in order.
pub proof fn lemma_database_permission_pair(
    p: DatabasePermission,
    v1: Seq<char>,
    v2: Seq<char>,
    d1: Seq<char>,
    d2: Seq<char>,
)
    requires
        p.permissions.deep_view() == seq![v1, v2],
        p.databases.deep_view() == seq![d1, d2],
    ensures
        p.spec_statements() =~= seq![
            Ok::<StatementModel, Seq<char>>(
                targeted_statement(
                    d1,
                    "GRANT "@ + (v1 + ", "@ + v2) + " ON DATABASE "@ + d1 + " TO "@ + p.role@
                        + ";"@,
                ),
            ),
            Ok::<StatementModel, Seq<char>>(
                targeted_statement(
                    d2,
                    "GRANT "@ + (v1 + ", "@ + v2) + " ON DATABASE "@ + d2 + " TO "@ + p.role@
                        + ";"@,
                ),
            ),
        ],
{
    lemma_join_pair(v1, v2);
    let f = grant_database_item(p.role@, p.permissions.deep_view());
    assert(p.spec_statements() =~= seq![f(d1), f(d2)]);
}

/// Law (interleaving): a schema permission over schemas `[s1, s2]`
/// with defaults asked for yields four statements — per schema the
/// grant immediately followed by the default-privileges statement,
/// interleaved, not grouped.
pub proof fn lemma_schema_permission_interleaves(p: SchemaPermission, s1: Seq<char>, s2: Seq<char>)
    requires
        p.schemas.deep_view() == seq![s1, s2],
        p.make_default,
    ensures
        p.spec_statements() =~= seq![
            Ok::<StatementModel, Seq<char>>(
                targeted_statement(
                    p.database@,
                    grant_schema_sql(p.role@, p.permissions.deep_view(), s1),
                ),
            ),
            Ok::<StatementModel, Seq<char>>(
                targeted_statement(
                    p.database@,
                    default_schema_sql(p.role@, p.permissions.deep_view()),
                ),
            ),
            Ok::<StatementModel, Seq<char>>(
                targeted_statement(
                    p.database@,
                    grant_schema_sql(p.role@, p.permissions.deep_view(), s2),
                ),
            ),
            Ok::<StatementModel, Seq<char>>(
                targeted_statement(
                    p.database@,
                    default_schema_sql(p.role@, p.permissions.deep_view()),
                ),
            ),
        ],
{
    let f = schema_permission_items(
        p.role@,
        p.permissions.deep_view(),
        p.database@,
        p.make_default,
    );
    lemma_flat_map_pair(p.schemas.deep_view(), f);
    assert(p.spec_statements() =~= f(s1) + f(s2));
}

/// Law (table clause forms): the whole-schema selector renders as the
/// literal clause `ALL IN SCHEMA public`; an explicit pair `[t1, t2]`
/// renders as `TABLE t1, t2`.
pub proof fn lemma_table_clause_forms(t1: Seq<char>, t2: Seq<char>)
    ensures
        table_clause(TablesView::All) == "ALL IN SCHEMA public"@,
        table_clause(TablesView::List(seq![t1, t2])) == "TABLE "@ + (t1 + ", "@ + t2),
{
    lemma_join_pair(t1, t2);
}

/// Law (secret never rendered): for any user name free of quotes, the
/// display form of the password statement reads
/// `ALTER USER <name> WITH PASSWORD '...';` — the quoted secret is
/// elided whatever it is, so no rendered form of the statement ever
/// holds it.
pub proof fn lemma_password_statement_redacted(name: Seq<char>)
    requires
        quote_free(name),
    ensures
        redact(alter_password_sql(name, spec_placeholder_secret()), false) == "ALTER USER "@ + name
            + " WITH PASSWORD "@ + "'...'"@ + ";"@,
{
    lemma_literals_quote_free();
    let prefix = "ALTER USER "@ + name + " WITH PASSWORD "@;
    let secret = spec_placeholder_secret();
    lemma_quote_free_concat("ALTER USER "@, name);
    lemma_quote_free_concat("ALTER USER "@ + name, " WITH PASSWORD "@);
    lemma_redact_elides_secret(prefix, secret, ";"@);
    assert(alter_password_sql(name, secret) =~= prefix + seq!['\''] + secret + seq!['\''] + ";"@);
    assert(redact(";"@, false) =~= ";"@) by {
        reveal_strlit(";");
        assert(redact(Seq::<char>::empty(), false) == Seq::<char>::empty());
        assert(";"@.drop_first() =~= Seq::<char>::empty());
        assert(";"@[0] == ';');
        assert(redact(";"@, false) == seq![";"@[0]] + redact(";"@.drop_first(), false));
        assert(redact(";"@, false) =~= seq![';']);
        assert(";"@ =~= seq![';']);
    }
    assert(prefix + "'...'"@ + redact(";"@, false) =~= "ALTER USER "@ + name + " WITH PASSWORD "@
        + "'...'"@ + ";"@);
}

} // verus!

