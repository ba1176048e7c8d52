//! The persistent declaration graph, kept in SQLite.
//!
//! Nodes are upserted on `(path, type, name, start_line)`, so rescanning a
//! file refreshes its rows instead of duplicating them. Edges are stored by
//! node id once both endpoint names resolve.
use crate::oracle::edges::GraphEdge;
use crate::oracle::graph::GraphNode;
use crate::text::{chars_of, push_chars, push_str, string_of};
use vstd::prelude::*;

verus! {

#[verifier::external_type_specification]
#[verifier::external_body]
pub struct ExConnection(rusqlite::Connection);

#[verifier::external_type_specification]
#[verifier::external_body]
pub struct ExSqlError(rusqlite::Error);

#[verifier::external_type_specification]
#[verifier::external_body]
pub struct ExSqlValue(rusqlite::types::Value);

/// A declaration as a lookup returns it: row id, file, kind and name.
#[derive(Debug, Clone)]
pub struct NodeRef {
    pub id: i64,
    pub path: String,
    pub node_type: String,
    pub name: String,
}

/// A parameter of a statement.
#[derive(Debug, Clone)]
pub enum SqlArg {
    Int(i64),
    Text(String),
    Null,
}

/// A failure of the store.
#[derive(Debug, Clone)]
pub struct StoreError {
    pub kind: StoreErrorKind,
    pub message: String,
}

/// Where a store failure comes from.
#[derive(Debug, Clone, Copy, PartialEq, Eq, Structural)]
pub enum StoreErrorKind {
    /// The database refused or failed the operation.
    Database,
    /// A line number does not fit the store's integer columns.
    LineOutOfRange,
    /// The system clock could not give a timestamp.
    ClockOutOfRange,
}

/// Most rows that a name search returns.
pub const SEARCH_LIMIT: usize = 20;

pub const SCHEMA_V1: &'static str = "
    CREATE TABLE IF NOT EXISTS nodes (
        id INTEGER PRIMARY KEY AUTOINCREMENT,
        path TEXT NOT NULL,
        type TEXT NOT NULL,
        name TEXT NOT NULL,
        name_lower TEXT NOT NULL,
        start_line INTEGER NOT NULL,
        end_line INTEGER NOT NULL,
        signature_hash TEXT NOT NULL,
        docstring TEXT
    );
    CREATE INDEX IF NOT EXISTS idx_nodes_path ON nodes(path);
    CREATE INDEX IF NOT EXISTS idx_nodes_name ON nodes(name);
    CREATE UNIQUE INDEX IF NOT EXISTS idx_nodes_unique ON nodes(path, type, name, start_line);
    CREATE TABLE IF NOT EXISTS edges (
        id INTEGER PRIMARY KEY AUTOINCREMENT,
        source_id INTEGER NOT NULL,
        target_id INTEGER NOT NULL,
        type TEXT NOT NULL,
        FOREIGN KEY(source_id) REFERENCES nodes(id) ON DELETE CASCADE,
        FOREIGN KEY(target_id) REFERENCES nodes(id) ON DELETE CASCADE
    );
    CREATE INDEX IF NOT EXISTS idx_edges_source ON edges(source_id);
    CREATE INDEX IF NOT EXISTS idx_edges_target ON edges(target_id);
    CREATE TABLE IF NOT EXISTS healing_attempts (
        run_id TEXT PRIMARY KEY,
        timestamp TEXT NOT NULL,
        file_path TEXT NOT NULL,
        error_msg TEXT NOT NULL,
        prompt_hash TEXT NOT NULL,
        diff_hash TEXT NOT NULL,
        outcome TEXT NOT NULL
    );
";

pub const UPSERT_NODE_SQL: &'static str = "INSERT INTO nodes (path, type, name, start_line, end_line, signature_hash, docstring, name_lower)
     VALUES (?1, ?2, ?3, ?4, ?5, ?6, ?7, ?8)
     ON CONFLICT(path, type, name, start_line) DO UPDATE SET
     signature_hash=excluded.signature_hash, end_line=excluded.end_line";

pub const NODES_NAMED_SQL: &'static str = "SELECT id, path, type, name FROM nodes WHERE name = ?1 ORDER BY id";

pub const INSERT_EDGE_SQL: &'static str = "INSERT INTO edges (source_id, target_id, type) VALUES (?1, ?2, ?3)";

pub const SEARCH_SQL: &'static str = "SELECT id, path, type, name FROM nodes WHERE name_lower LIKE ?1 ESCAPE '\\' LIMIT ?2";

pub const SAMPLE_SQL: &'static str = "SELECT id, path, type, name FROM nodes LIMIT ?1";

/// Relies on `rusqlite::Connection::open`: opens or creates the database file.
#[verifier::external_body]
pub(crate) fn sql_open(path: &str) -> Result<rusqlite::Connection, rusqlite::Error> {
    rusqlite::Connection::open(path)
}

/// Relies on `rusqlite::Connection::execute_batch`: runs the statements in order.
#[verifier::external_body]
fn sql_execute_batch(conn: &rusqlite::Connection, sql: &str) -> Result<(), rusqlite::Error> {
    conn.execute_batch(sql)
}

/// Converts statement parameters into rusqlite values, one for one.
#[verifier::external_body]
fn sql_values(args: &Vec<SqlArg>) -> Vec<rusqlite::types::Value> {
    args.iter().map(|a| match a {
        SqlArg::Int(i) => rusqlite::types::Value::Integer(*i),
        SqlArg::Text(s) => rusqlite::types::Value::Text(s.clone()),
        SqlArg::Null => rusqlite::types::Value::Null,
    }).collect()
}

/// Relies on `rusqlite::Connection::execute`: runs one statement with the
/// given parameters.
#[verifier::external_body]
pub(crate) fn sql_execute(conn: &rusqlite::Connection, sql: &str, args: &Vec<SqlArg>) -> Result<usize, rusqlite::Error> {
    conn.execute(sql, rusqlite::params_from_iter(sql_values(args)))
}

/// Relies on `rusqlite::Connection::transaction`, `execute`,
/// `last_insert_rowid` and `commit`: runs one statement in its own
/// transaction.
#[verifier::external_body]
fn sql_execute_in_transaction(conn: &mut rusqlite::Connection, sql: &str, args: &Vec<SqlArg>) -> Result<i64, rusqlite::Error> {
    let tx = conn.transaction()?;
    tx.execute(sql, rusqlite::params_from_iter(sql_values(args)))?;
    let id = tx.last_insert_rowid();
    tx.commit()?;
    Ok(id)
}

/// Relies on `rusqlite::Statement::query_map`: the rows of a query whose
/// columns are id, path, type and name.
#[verifier::external_body]
fn sql_query_nodes(conn: &rusqlite::Connection, sql: &str, args: &Vec<SqlArg>) -> Result<Vec<NodeRef>, rusqlite::Error> {
    let mut stmt = conn.prepare(sql)?;
    let rows = stmt.query_map(rusqlite::params_from_iter(sql_values(args)), |row| {
        Ok(NodeRef { id: row.get(0)?, path: row.get(1)?, node_type: row.get(2)?, name: row.get(3)? })
    })?;
    rows.collect()
}

/// Relies on `rusqlite::Error`'s `Display`: the error's message.
#[verifier::external_body]
pub(crate) fn sql_error_text(e: &rusqlite::Error) -> String {
    e.to_string()
}

pub(crate) fn store_error(e: rusqlite::Error) -> (r: StoreError)
    ensures
        r.kind == StoreErrorKind::Database,
{
    StoreError { kind: StoreErrorKind::Database, message: sql_error_text(&e) }
}

/// Lower-cased text, as `str::to_lowercase` gives it.
pub uninterp spec fn lower_of(s: Seq<char>) -> Seq<char>;

/// Relies on `str::to_lowercase`: the result depends on the characters alone.
#[verifier::external_body]
fn lowercase(s: &str) -> (r: String)
    ensures
        r@ == lower_of(s@),
{
    s.to_lowercase()
}

/// What a statement parameter holds.
pub open spec fn arg_is_text(a: SqlArg, s: Seq<char>) -> bool {
    a matches SqlArg::Text(t) && t@ == s
}

/// The parameters of the node upsert: path, kind, name, first line, last
/// line, fingerprint, doc comment, and the lower-cased name that searches
/// match against.
pub fn node_args(node: &GraphNode) -> (r: Option<Vec<SqlArg>>)
    ensures
        (node.start_line <= i64::MAX && node.end_line <= i64::MAX) <==> r is Some,
        r matches Some(a) ==> a.len() == 8 && arg_is_text(a[7], lower_of(node.name@)) && arg_is_text(a[0], node.path@) && arg_is_text(
            a[1],
            node.node_type@,
        ) && arg_is_text(a[2], node.name@) && a[3] == SqlArg::Int(node.start_line as i64)
            && a[4] == SqlArg::Int(node.end_line as i64) && arg_is_text(a[5], node.signature_hash@)
            && match node.docstring {
            Some(d) => arg_is_text(a[6], d@),
            None => a[6] is Null,
        },
{
    if node.start_line as u64 > i64::MAX as u64 || node.end_line as u64 > i64::MAX as u64 {
        return None;
    }
    let mut a: Vec<SqlArg> = Vec::new();
    a.push(SqlArg::Text(node.path.clone()));
    a.push(SqlArg::Text(node.node_type.clone()));
    a.push(SqlArg::Text(node.name.clone()));
    a.push(SqlArg::Int(node.start_line as i64));
    a.push(SqlArg::Int(node.end_line as i64));
    a.push(SqlArg::Text(node.signature_hash.clone()));
    a.push(
        match &node.docstring {
            Some(d) => SqlArg::Text(d.clone()),
            None => SqlArg::Null,
        },
    );
    a.push(SqlArg::Text(lowercase(node.name.as_str())));
    Some(a)
}

/// How an edge endpoint name was resolved to a node.
#[derive(Debug, Clone, Copy, PartialEq, Eq, Structural)]
pub enum Resolution {
    /// A node of that name in the edge's own file.
    SameFile(i64),
    /// No such node in the file; the first node of that name elsewhere.
    Global(i64),
    /// No node has that name: the edge is dropped.
    Unresolved,
}

/// Position of the first candidate in file `path`.
pub open spec fn first_in_file(cs: Seq<NodeRef>, path: Seq<char>) -> Option<int>
    decreases cs.len(),
{
    if cs.len() == 0 {
        None
    } else if cs[0].path@ == path {
        Some(0)
    } else {
        match first_in_file(cs.drop_first(), path) {
            Some(i) => Some(i + 1),
            None => None,
        }
    }
}

/// The resolution policy: prefer a node of the edge's own file, else the
/// first node of that name, else none.
pub open spec fn resolve_spec(cs: Seq<NodeRef>, path: Option<Seq<char>>) -> Resolution {
    match path {
        Some(p) => match first_in_file(cs, p) {
            Some(i) => Resolution::SameFile(cs[i].id),
            None => if cs.len() > 0 {
                Resolution::Global(cs[0].id)
            } else {
                Resolution::Unresolved
            },
        },
        None => if cs.len() > 0 {
            Resolution::Global(cs[0].id)
        } else {
            Resolution::Unresolved
        },
    }
}

/// Resolves an endpoint among the nodes that carry its name, in id order.
pub fn resolve_endpoint(candidates: &Vec<NodeRef>, path: Option<&str>) -> (r: Resolution)
    ensures
        r == resolve_spec(
            candidates@,
            match path {
                Some(p) => Some(p@),
                None => None,
            },
        ),
{
    let ghost cs = candidates@;
    match path {
        Some(p) => {
            let pv = chars_of(p);
            let mut i: usize = 0;
            assert(cs.subrange(0, cs.len() as int) =~= cs);
            while i < candidates.len()
                invariant
                    i <= candidates.len(),
                    cs == candidates@,
                    path == Some(p),
                    pv@ == p@,
                    forall|j: int| 0 <= j < i ==> cs[j].path@ != p@,
                    first_in_file(cs, p@) == match first_in_file(cs.subrange(i as int, cs.len() as int), p@) {
                        Some(k) => Some(k + i),
                        None => None::<int>,
                    },
                decreases candidates.len() - i,
            {
                let ghost rest = cs.subrange(i as int, cs.len() as int);
                assert(rest.drop_first() =~= cs.subrange(i + 1, cs.len() as int));
                assert(rest[0] == cs[i as int]);
                let cp = chars_of(candidates[i].path.as_str());
                if crate::text::same_chars(&cp, &pv) {
                    assert(first_in_file(rest, p@) == Some(0int));
                    assert(first_in_file(cs, p@) == Some(i as int));
                    return Resolution::SameFile(candidates[i].id);
                }
                i = i + 1;
            }
            assert(cs.subrange(i as int, cs.len() as int) =~= Seq::<NodeRef>::empty());
        },
        None => {},
    }
    if candidates.len() > 0 {
        Resolution::Global(candidates[0].id)
    } else {
        Resolution::Unresolved
    }
}

/// The search pattern for a name fragment: `%<lower-cased, escaped fragment>%`.
pub open spec fn like_pattern(token: Seq<char>) -> Seq<char> {
    "%"@ + like_escape(lower_of(token)) + "%"@
}

/// What became of an edge: how each endpoint resolved, and the ids stored.
#[derive(Debug, Clone, Copy)]
pub struct EdgeInsertion {
    pub source: Resolution,
    pub target: Resolution,
    pub stored: Option<(i64, i64)>,
}

/// The node id that a resolution names, if any.
pub open spec fn resolved_id(r: Resolution) -> Option<i64> {
    match r {
        Resolution::SameFile(id) => Some(id),
        Resolution::Global(id) => Some(id),
        Resolution::Unresolved => None,
    }
}

/// An edge is stored exactly when both endpoints resolved, between the ids
/// they resolved to.
pub open spec fn insertion_consistent(x: EdgeInsertion) -> bool {
    match x.stored {
        Some((s, t)) => resolved_id(x.source) == Some(s) && resolved_id(x.target) == Some(t),
        None => x.source is Unresolved || x.target is Unresolved,
    }
}

fn resolved_id_exec(r: Resolution) -> (id: i64)
    ensures
        resolved_id(r) matches Some(x) ==> id == x,
{
    match r {
        Resolution::SameFile(id) => id,
        Resolution::Global(id) => id,
        Resolution::Unresolved => 0,
    }
}

/// The parameters of the edge insert: source id, target id, kind; none when
/// an endpoint did not resolve.
pub fn edge_insert_args(source: Resolution, target: Resolution, edge: &GraphEdge) -> (r: Option<Vec<SqlArg>>)
    ensures
        r is None <==> (source is Unresolved || target is Unresolved),
        r matches Some(a) ==> a.len() == 3 && Some(a[0]) == (match resolved_id(source) {
            Some(s) => Some(SqlArg::Int(s)),
            None => None,
        }) && Some(a[1]) == (match resolved_id(target) {
            Some(t) => Some(SqlArg::Int(t)),
            None => None,
        }) && arg_is_text(a[2], edge.edge_type@),
{
    match (source, target) {
        (Resolution::Unresolved, _) => None,
        (_, Resolution::Unresolved) => None,
        _ => {
            let mut a: Vec<SqlArg> = Vec::new();
            a.push(SqlArg::Int(resolved_id_exec(source)));
            a.push(SqlArg::Int(resolved_id_exec(target)));
            a.push(SqlArg::Text(edge.edge_type.clone()));
            Some(a)
        },
    }
}

/// LIKE's wildcard and escape characters.
pub open spec fn like_special(c: char) -> bool {
    c == '%' || c == '_' || c == '\\'
}

/// `s` with each LIKE wildcard or escape character preceded by `\`, so that
/// it matches only itself.
pub open spec fn like_escape(s: Seq<char>) -> Seq<char>
    decreases s.len(),
{
    if s.len() == 0 {
        seq![]
    } else if like_special(s.last()) {
        like_escape(s.drop_last()) + seq!['\\', s.last()]
    } else {
        like_escape(s.drop_last()).push(s.last())
    }
}

fn like_escape_exec(s: &Vec<char>) -> (r: Vec<char>)
    ensures
        r@ == like_escape(s@),
{
    let mut r: Vec<char> = Vec::new();
    let mut i: usize = 0;
    while i < s.len()
        invariant
            i <= s.len(),
            r@ == like_escape(s@.subrange(0, i as int)),
        decreases s.len() - i,
    {
        let c = s[i];
        proof {
            assert(s@.subrange(0, i + 1).drop_last() =~= s@.subrange(0, i as int));
            assert(s@.subrange(0, i + 1).last() == c);
        }
        if c == '%' || c == '_' || c == '\\' {
            r.push('\\');
            r.push(c);
            assert(r@ =~= like_escape(s@.subrange(0, i as int)) + seq!['\\', c]);
        } else {
            r.push(c);
        }
        i = i + 1;
    }
    assert(s@.subrange(0, i as int) =~= s@);
    r
}

/// The parameters of the name search: the pattern, then the row limit.
pub fn search_args(pattern: &str) -> (r: Vec<SqlArg>)
    ensures
        r.len() == 2,
        arg_is_text(r[0], like_pattern(pattern@)),
        r[1] == SqlArg::Int(SEARCH_LIMIT as i64),
{
    let lower = lowercase(pattern);
    let mut pat = chars_of("%");
    push_chars(&mut pat, &like_escape_exec(&chars_of(lower.as_str())));
    push_str(&mut pat, "%");
    let mut args: Vec<SqlArg> = Vec::new();
    args.push(SqlArg::Text(string_of(&pat)));
    args.push(SqlArg::Int(SEARCH_LIMIT as i64));
    args
}

/// The parameter of the lookup by exact name.
pub fn name_args(name: &str) -> (r: Vec<SqlArg>)
    ensures
        r.len() == 1,
        arg_is_text(r[0], name@),
{
    let mut args: Vec<SqlArg> = Vec::new();
    args.push(SqlArg::Text(name.to_owned()));
    args
}

/// The parameter of the sample query: the row limit, clamped to `i64`.
pub fn sample_args(limit: usize) -> (r: Vec<SqlArg>)
    ensures
        r.len() == 1,
        r[0] == SqlArg::Int(if limit as int > i64::MAX as int { i64::MAX } else { limit as i64 }),
{
    let lim: i64 = if limit as u64 > i64::MAX as u64 { i64::MAX } else { limit as i64 };
    let mut args: Vec<SqlArg> = Vec::new();
    args.push(SqlArg::Int(lim));
    args
}

pub struct OracleStore {
    conn: rusqlite::Connection,
}

/// Creates the store's tables and indexes where they are missing.
pub fn init_db(conn: &rusqlite::Connection) -> (r: Result<(), StoreError>) {
    match sql_execute_batch(conn, SCHEMA_V1) {
        Ok(()) => Ok(()),
        Err(e) => Err(store_error(e)),
    }
}

/// Whether a file must be (re)indexed. The store keeps no per-file
/// fingerprint, so every file is: upserts make that safe.
pub fn should_process(_store: &OracleStore, _path: &str, _content: &str) -> (r: bool)
    ensures
        r,
{
    true
}

impl OracleStore {
    /// Opens (creating if needed) the store at `path` and its schema.
    pub fn open(path: &str) -> (r: Result<OracleStore, StoreError>) {
        let conn = match sql_open(path) {
            Ok(c) => c,
            Err(e) => return Err(store_error(e)),
        };
        match init_db(&conn) {
            Ok(()) => Ok(OracleStore { conn }),
            Err(e) => Err(e),
        }
    }

    /// Inserts a node, or refreshes the fingerprint and last line of the node
    /// with the same path, kind, name and first line; in its own transaction.
    pub fn insert_node(&mut self, node: &GraphNode) -> (r: Result<i64, StoreError>)
        ensures
            (r matches Err(e) && e.kind == StoreErrorKind::LineOutOfRange) <==> (node.start_line
                > i64::MAX || node.end_line > i64::MAX),
    {
        let args = match node_args(node) {
            Some(a) => a,
            None => {
                return Err(
                    StoreError {
                        kind: StoreErrorKind::LineOutOfRange,
                        message: "line number out of range".to_owned(),
                    },
                )
            },
        };
        match sql_execute_in_transaction(&mut self.conn, UPSERT_NODE_SQL, &args) {
            Ok(id) => Ok(id),
            Err(e) => Err(store_error(e)),
        }
    }

    /// The nodes named `name`, in id order.
    pub fn nodes_named(&self, name: &str) -> (r: Result<Vec<NodeRef>, StoreError>) {
        let args = name_args(name);
        match sql_query_nodes(&self.conn, NODES_NAMED_SQL, &args) {
            Ok(v) => Ok(v),
            Err(e) => Err(store_error(e)),
        }
    }

    /// Stores an edge whose endpoints resolve by name alone; an edge with an
    /// unresolved endpoint is dropped.
    pub fn insert_edge(&mut self, edge: &GraphEdge) -> (r: Result<EdgeInsertion, StoreError>)
        ensures
            r matches Ok(x) ==> insertion_consistent(x),
    {
        self.insert_edge_in(edge, None)
    }

    /// Stores an edge found in file `path`, resolving each endpoint name to a
    /// node of that file if there is one, else to the first node of that
    /// name; an edge with an unresolved endpoint is dropped.
    pub fn insert_edge_from(&mut self, edge: &GraphEdge, path: &str) -> (r: Result<EdgeInsertion, StoreError>)
        ensures
            r matches Ok(x) ==> insertion_consistent(x),
    {
        self.insert_edge_in(edge, Some(path))
    }

    fn insert_edge_in(&mut self, edge: &GraphEdge, path: Option<&str>) -> (r: Result<EdgeInsertion, StoreError>)
        ensures
            r matches Ok(x) ==> insertion_consistent(x),
    {
        let sources = match self.nodes_named(edge.source_node_name.as_str()) {
            Ok(v) => v,
            Err(e) => return Err(e),
        };
        let targets = match self.nodes_named(edge.target_node_name.as_str()) {
            Ok(v) => v,
            Err(e) => return Err(e),
        };
        self.insert_resolved_edge(&sources, &targets, path, edge)
    }

    /// Stores `edge` between the nodes that its endpoint names resolve to
    /// among `sources` and `targets` (the nodes carrying each name, in id
    /// order); drops it, touching nothing, when either does not resolve.
    pub fn insert_resolved_edge(
        &mut self,
        sources: &Vec<NodeRef>,
        targets: &Vec<NodeRef>,
        path: Option<&str>,
        edge: &GraphEdge,
    ) -> (r: Result<EdgeInsertion, StoreError>)
        ensures
            ({
                let p = match path {
                    Some(q) => Some(q@),
                    None => None,
                };
                let rs = resolve_spec(sources@, p);
                let rt = resolve_spec(targets@, p);
                &&& (rs is Unresolved || rt is Unresolved) ==> r == Ok::<EdgeInsertion, StoreError>(
                    EdgeInsertion { source: rs, target: rt, stored: None },
                )
                &&& r matches Ok(x) ==> x.source == rs && x.target == rt && insertion_consistent(x)
            }),
    {
        let rs = resolve_endpoint(sources, path);
        let rt = resolve_endpoint(targets, path);
        match edge_insert_args(rs, rt, edge) {
            None => Ok(EdgeInsertion { source: rs, target: rt, stored: None }),
            Some(args) => {
                let sid = resolved_id_exec(rs);
                let tid = resolved_id_exec(rt);
                match sql_execute(&self.conn, INSERT_EDGE_SQL, &args) {
                    Ok(_) => Ok(EdgeInsertion { source: rs, target: rt, stored: Some((sid, tid)) }),
                    Err(e) => Err(store_error(e)),
                }
            },
        }
    }

    /// Nodes whose name contains `pattern`, ignoring case; at most twenty.
    pub fn search_nodes(&self, pattern: &str) -> (r: Result<Vec<NodeRef>, StoreError>)
        ensures
            r matches Ok(v) ==> v.len() <= SEARCH_LIMIT,
    {
        let args = search_args(pattern);
        match sql_query_nodes(&self.conn, SEARCH_SQL, &args) {
            Ok(mut v) => {
                v.truncate(SEARCH_LIMIT);
                Ok(v)
            },
            Err(e) => Err(store_error(e)),
        }
    }

    /// Up to `limit` nodes, in no particular order.
    pub fn get_all_nodes(&self, limit: usize) -> (r: Result<Vec<NodeRef>, StoreError>)
        ensures
            r matches Ok(v) ==> v.len() <= limit,
    {
        let args = sample_args(limit);
        match sql_query_nodes(&self.conn, SAMPLE_SQL, &args) {
            Ok(mut v) => {
                v.truncate(limit);
                Ok(v)
            },
            Err(e) => Err(store_error(e)),
        }
    }

    /// The underlying connection, for the audit log that shares the file.
    pub(crate) fn connection(&self) -> &rusqlite::Connection {
        &self.conn
    }
}

} // verus!
