//! SQL statements and cache keys for the database of device readings and
//! authentication state.

use vstd::prelude::*;
use vstd::string::*;

use crate::error::NodeError;
use crate::kasa::{KasaChildInfo, KasaChildInfoView, KasaDeviceChild, EMeter};
use crate::strings::{self, join_strings, push_decimal, push_signed_decimal};

verus! {

broadcast use vstd::string::group_string_axioms;

/// A column a query can sort by or ask distinct values of.
#[allow(non_camel_case_types)]
#[derive(Clone, Copy, PartialEq, Eq, Structural)]
pub enum Column {
    utc_ns,
    alias,
    id,
}

/// A sort direction.
#[allow(non_camel_case_types)]
#[derive(Clone, Copy, PartialEq, Eq, Structural)]
pub enum Order {
    asc,
    desc,
}

/// A query for stored readings of a device, as the API receives it.
pub struct DeviceQuery {
    pub start_time_ns: Option<i64>,
    pub end_time_ns: Option<i64>,
    pub alias: Option<String>,
    pub id: Option<String>,
    pub distinct: Option<String>,
    pub order_by: Option<Order>,
    pub column: Option<Column>,
    pub limit: Option<usize>,
}

/// The parameters bound to `?1` .. `?4` of a generated query: alias, id,
/// start time and end time (empty or zero when not used).
pub struct DeviceQueryArgs(pub String, pub String, pub i64, pub i64);

/// Mathematical model of a query.
pub struct DeviceQueryView {
    pub start_time_ns: Option<i64>,
    pub end_time_ns: Option<i64>,
    pub alias: Option<Seq<char>>,
    pub id: Option<Seq<char>>,
    pub distinct: bool,
    pub order_by: Option<Order>,
    pub column: Option<Column>,
    pub limit: Option<usize>,
}

impl View for DeviceQuery {
    type V = DeviceQueryView;

    open spec fn view(&self) -> DeviceQueryView {
        DeviceQueryView {
            start_time_ns: self.start_time_ns,
            end_time_ns: self.end_time_ns,
            alias: match self.alias {
                Some(a) => Some(a@),
                None => None,
            },
            id: match self.id {
                Some(i) => Some(i@),
                None => None,
            },
            distinct: self.distinct is Some,
            order_by: self.order_by,
            column: self.column,
            limit: self.limit,
        }
    }
}

/// The number of rows a query returns when it names no limit.
pub const DEFAULT_LIMIT: usize = 100;

/// The name of a column in SQL.
pub open spec fn column_name(c: Column) -> Seq<char> {
    match c {
        Column::utc_ns => "utc_ns"@,
        Column::alias => "alias"@,
        Column::id => "id"@,
    }
}

impl DeviceQueryView {
    /// The query asks for the distinct values of a column.
    pub open spec fn is_distinct(self) -> bool {
        self.distinct && self.column is Some
    }

    /// The SELECT of a distinct query.
    pub open spec fn distinct_text(self, table: Seq<char>) -> Seq<char> {
        match self.column {
            Some(Column::alias) => "SELECT DISTINCT(alias), id FROM "@ + table,
            Some(Column::id) => "SELECT DISTINCT(id), alias FROM "@ + table,
            _ => "SELECT * FROM "@ + table,
        }
    }

    /// The SELECT with its WHERE clause: each condition joined to the
    /// previous one by `and`.
    pub open spec fn filtered_text(self, table: Seq<char>) -> Seq<char> {
        let q0 = "SELECT * FROM "@ + table;
        let q1 = if self.start_time_ns is Some || self.end_time_ns is Some || self.alias is Some || self.id is Some {
            q0 + " WHERE "@
        } else {
            q0
        };
        let q2 = if self.alias is Some { q1 + " alias = ?1"@ } else { q1 };
        let a2 = if self.alias is Some { "and"@ } else { Seq::empty() };
        let q3 = if self.id is Some { q2 + " "@ + a2 + " id = ?2"@ } else { q2 };
        let a3 = if self.id is Some { "and"@ } else { a2 };
        let q4 = if self.start_time_ns is Some { q3 + " "@ + a3 + " utc_ns >= ?3"@ } else { q3 };
        let a4 = if self.start_time_ns is Some { "and"@ } else { a3 };
        if self.end_time_ns is Some { q4 + " "@ + a4 + " utc_ns <= ?4"@ } else { q4 }
    }

    /// The ORDER BY clause, present when a column and direction are named
    /// and the query is not a distinct one.
    pub open spec fn order_text(self) -> Seq<char> {
        match (self.order_by, self.column) {
            (Some(o), Some(c)) => if !self.distinct {
                " ORDER BY "@ + column_name(c) + match o {
                    Order::asc => " ASC"@,
                    Order::desc => " DESC"@,
                }
            } else {
                Seq::empty()
            },
            _ => Seq::empty(),
        }
    }

    /// The LIMIT clause: none for a limit of zero, the default limit when
    /// none is named.
    pub open spec fn limit_text(self) -> Seq<char> {
        match self.limit {
            Some(n) => if n == 0 {
                Seq::empty()
            } else {
                " LIMIT "@ + strings::decimal(n as nat)
            },
            None => " LIMIT "@ + strings::decimal(DEFAULT_LIMIT as nat),
        }
    }

    /// The SQL text of the query against `table`.
    pub open spec fn query_text(self, table: Seq<char>) -> Seq<char> {
        if self.is_distinct() {
            self.distinct_text(table)
        } else {
            self.filtered_text(table) + self.order_text() + self.limit_text()
        }
    }

    /// The parameters of the query.
    pub open spec fn query_args(self) -> (Seq<char>, Seq<char>, i64, i64) {
        if self.is_distinct() {
            (Seq::empty(), Seq::empty(), 0, 0)
        } else {
            (
                match self.alias {
                    Some(a) => a,
                    None => Seq::empty(),
                },
                match self.id {
                    Some(i) => i,
                    None => Seq::empty(),
                },
                match self.start_time_ns {
                    Some(t) => t,
                    None => 0,
                },
                match self.end_time_ns {
                    Some(t) => t,
                    None => 0,
                },
            )
        }
    }
}

/// Appends `" " + joiner + tail` to `q`.
fn push_condition(q: &mut String, joiner: &str, tail: &str)
    ensures
        final(q)@ == old(q)@ + " "@ + joiner@ + tail@,
{
    q.append(" ");
    q.append(joiner);
    q.append(tail);
}

impl DeviceQuery {
    /// The SELECT with its WHERE clause, and the parameters to bind.
    fn filtered(&self, table: &String) -> (r: (String, DeviceQueryArgs))
        ensures
            r.0@ == self@.filtered_text(table@),
            (r.1.0@, r.1.1@, r.1.2, r.1.3) == (
                match self@.alias {
                    Some(a) => a,
                    None => Seq::empty(),
                },
                match self@.id {
                    Some(i) => i,
                    None => Seq::empty(),
                },
                match self@.start_time_ns {
                    Some(t) => t,
                    None => 0,
                },
                match self@.end_time_ns {
                    Some(t) => t,
                    None => 0,
                },
            ),
    {
        let ghost v = self@;
        let mut q = String::from_str("SELECT * FROM ");
        q.append(table.as_str());
        let mut args = DeviceQueryArgs(String::new(), String::new(), 0, 0);
        if self.start_time_ns.is_some() || self.end_time_ns.is_some() || self.alias.is_some() || self.id.is_some() {
            q.append(" WHERE ");
        }
        let ghost q1 = q@;
        let mut joiner: &str = "";
        proof {
            reveal_strlit("");
        }
        assert(joiner@ =~= Seq::<char>::empty());
        if let Some(alias) = &self.alias {
            args.0 = alias.clone();
            q.append(" alias = ?1");
            joiner = "and";
        }
        let ghost q2 = q@;
        assert(q2 =~= if v.alias is Some { q1 + " alias = ?1"@ } else { q1 });
        if let Some(id) = &self.id {
            args.1 = id.clone();
            push_condition(&mut q, joiner, " id = ?2");
            joiner = "and";
        }
        let ghost q3 = q@;
        if let Some(start) = self.start_time_ns {
            args.2 = start;
            push_condition(&mut q, joiner, " utc_ns >= ?3");
            joiner = "and";
        }
        if let Some(end) = self.end_time_ns {
            args.3 = end;
            push_condition(&mut q, joiner, " utc_ns <= ?4");
        }
        (q, args)
    }

    /// Appends the ORDER BY clause.
    fn push_order(&self, q: &mut String)
        ensures
            final(q)@ == old(q)@ + self@.order_text(),
    {
        if let (Some(order_by), Some(column)) = (self.order_by, self.column) {
            if self.distinct.is_none() {
                q.append(" ORDER BY ");
                match column {
                    Column::utc_ns => q.append("utc_ns"),
                    Column::alias => q.append("alias"),
                    Column::id => q.append("id"),
                }
                match order_by {
                    Order::asc => q.append(" ASC"),
                    Order::desc => q.append(" DESC"),
                }
                assert(q@ =~= old(q)@ + self@.order_text());
                return;
            }
        }
        assert(q@ =~= old(q)@ + self@.order_text());
    }

    /// Appends the LIMIT clause.
    fn push_limit(&self, q: &mut String)
        ensures
            final(q)@ == old(q)@ + self@.limit_text(),
    {
        match self.limit {
            Some(0) => {
                assert(q@ =~= old(q)@ + self@.limit_text());
            },
            Some(limit) => {
                q.append(" LIMIT ");
                push_decimal(q, limit as u64);
                assert(q@ =~= old(q)@ + self@.limit_text());
            },
            None => {
                q.append(" LIMIT ");
                push_decimal(q, DEFAULT_LIMIT as u64);
                assert(q@ =~= old(q)@ + self@.limit_text());
            },
        }
    }

    /// The SQL text of the query against `table` and the parameters to bind.
    pub fn generate_query(&self, table: &String) -> (r: (String, DeviceQueryArgs))
        ensures
            r.0@ == self@.query_text(table@),
            (r.1.0@, r.1.1@, r.1.2, r.1.3) == self@.query_args(),
    {
        if self.distinct.is_some() && self.column.is_some() {
            let mut q = match self.column {
                Some(Column::alias) => String::from_str("SELECT DISTINCT(alias), id FROM "),
                Some(Column::id) => String::from_str("SELECT DISTINCT(id), alias FROM "),
                _ => String::from_str("SELECT * FROM "),
            };
            q.append(table.as_str());
            return (q, DeviceQueryArgs(String::new(), String::new(), 0, 0));
        }
        let (mut q, args) = self.filtered(table);
        let ghost qf = q@;
        self.push_order(&mut q);
        self.push_limit(&mut q);
        assert(q@ =~= qf + self@.order_text() + self@.limit_text());
        (q, args)
    }
}

/// A query that is not a distinct one and names a column and a direction is
/// sorted by that column in that direction: its SQL text is the filtered
/// SELECT, then ` ORDER BY `, the column, ` ASC` or ` DESC` as asked, then
/// the limit; with a limit of zero the text ends with the direction.
pub proof fn lemma_query_sorted_as_asked(q: DeviceQueryView, table: Seq<char>, c: Column, o: Order)
    requires
        !q.distinct,
        q.column == Some(c),
        q.order_by == Some(o),
    ensures
        q.query_text(table) == q.filtered_text(table) + " ORDER BY "@ + column_name(c) + (if o == Order::asc {
            " ASC"@
        } else {
            " DESC"@
        }) + q.limit_text(),
        q.limit == Some(0usize) && o == Order::asc ==> q.query_text(table).subrange(
            q.query_text(table).len() - 4,
            q.query_text(table).len() as int,
        ) == " ASC"@,
        q.limit == Some(0usize) && o == Order::desc ==> q.query_text(table).subrange(
            q.query_text(table).len() - 5,
            q.query_text(table).len() as int,
        ) == " DESC"@,
{
    reveal_strlit(" ASC");
    reveal_strlit(" DESC");
    let t = q.query_text(table);
    if q.limit == Some(0usize) {
        assert(q.limit_text() =~= Seq::<char>::empty());
        let pre = q.filtered_text(table) + " ORDER BY "@ + column_name(c);
        if o == Order::asc {
            assert(t =~= pre + " ASC"@);
            assert(t.subrange(t.len() - 4, t.len() as int) =~= " ASC"@);
        } else {
            assert(t =~= pre + " DESC"@);
            assert(t.subrange(t.len() - 5, t.len() as int) =~= " DESC"@);
        }
    }
}

/// The VALUES tuple that stores a reading.
pub open spec fn row_text(r: KasaChildInfoView) -> Seq<char> {
    "("@ + strings::signed_decimal(r.utc_ns as int) + ", \""@ + r.alias + "\", \""@ + r.id + "\", "@
        + strings::decimal(r.emeter.current_ma as nat) + ", "@ + strings::decimal(r.emeter.power_mw as nat) + ", "@
        + strings::decimal(r.emeter.voltage_mv as nat) + ", "@ + strings::decimal(r.emeter.total_wh as nat) + ")"@
}

/// Each polled batch of readings taken by its view.
pub open spec fn batches_view(d: Seq<Vec<KasaChildInfo>>) -> Seq<Seq<KasaChildInfoView>> {
    Seq::new(d.len(), |i: int| Seq::new(d[i]@.len(), |j: int| d[i]@[j]@))
}

/// The VALUES tuples of all readings, batch after batch.
pub open spec fn rows_of(d: Seq<Seq<KasaChildInfoView>>) -> Seq<Seq<char>>
    decreases d.len(),
{
    if d.len() == 0 {
        Seq::empty()
    } else {
        rows_of(d.drop_last()) + Seq::new(d.last().len(), |j: int| row_text(d.last()[j]))
    }
}

/// The statement storing `rows` in the table of `topic`.
pub open spec fn insert_text(topic: Seq<char>, rows: Seq<Seq<char>>) -> Seq<char> {
    "INSERT INTO kasa_device_"@ + topic + " (utc_ns, alias, id, current_ma, power_mw, voltage_mv, total_wh) VALUES "@
        + strings::joined(rows, ","@) + ";"@
}

/// The VALUES tuple that stores a reading.
pub fn row_value(r: &KasaChildInfo) -> (s: String)
    ensures
        s@ == row_text(r@),
{
    let mut s = String::from_str("(");
    push_signed_decimal(&mut s, r.utc_ns);
    s.append(", \"");
    s.append(r.info.alias.as_str());
    s.append("\", \"");
    s.append(r.info.id.as_str());
    s.append("\", ");
    push_decimal(&mut s, r.emeter.current_ma);
    s.append(", ");
    push_decimal(&mut s, r.emeter.power_mw);
    s.append(", ");
    push_decimal(&mut s, r.emeter.voltage_mv);
    s.append(", ");
    push_decimal(&mut s, r.emeter.total_wh);
    s.append(")");
    assert(s@ =~= row_text(r@));
    s
}

/// The statement that stores the polled readings `kasa_data` of `topic`.
/// Storing needs the write lock; without it the answer is an error, and
/// with no readings there is nothing to store.
pub fn push_kasa_data(write_lock_held: bool, topic: &String, kasa_data: &Vec<Vec<KasaChildInfo>>) -> (r: Result<Option<String>, Box<NodeError>>)
    ensures
        !write_lock_held ==> (r matches Err(e) && e._msg@ == "db write guard not secured."@),
        write_lock_held ==> (r matches Ok(st) && ({
            let rows = rows_of(batches_view(kasa_data@));
            if rows.len() == 0 {
                st is None
            } else {
                st matches Some(t) && t@ == insert_text(topic@, rows)
            }
        })),
{
    if !write_lock_held {
        return Err(NodeError::new("db write guard not secured."));
    }
    let ghost dv = batches_view(kasa_data@);
    let mut data: Vec<String> = Vec::new();
    let mut i: usize = 0;
    assert(dv.take(0) =~= Seq::<Seq<KasaChildInfoView>>::empty());
    assert(strings::strings_view(data@) =~= Seq::<Seq<char>>::empty());
    while i < kasa_data.len()
        invariant
            i <= kasa_data.len(),
            dv == batches_view(kasa_data@),
            strings::strings_view(data@) == rows_of(dv.take(i as int)),
        decreases kasa_data.len() - i,
    {
        assert(dv.take(i + 1).drop_last() =~= dv.take(i as int));
        assert(dv.take(i + 1).last() == dv[i as int]);
        let batch = &kasa_data[i];
        let ghost before = strings::strings_view(data@);
        let mut j: usize = 0;
        while j < batch.len()
            invariant
                j <= batch.len(),
                dv == batches_view(kasa_data@),
                batch == &kasa_data@[i as int],
                i < kasa_data.len(),
                strings::strings_view(data@) == before + Seq::new(j as nat, |k: int| row_text(dv[i as int][k])),
            decreases batch.len() - j,
        {
            assert(dv[i as int][j as int] == batch@[j as int]@);
            let row = row_value(&batch[j]);
            let ghost d0 = strings::strings_view(data@);
            let ghost rt = row@;
            data.push(row);
            assert(rt == row_text(dv[i as int][j as int]));
            assert(strings::strings_view(data@) =~= d0.push(rt));
            assert(strings::strings_view(data@) =~= before + Seq::new((j + 1) as nat, |k: int| row_text(dv[i as int][k])));
            j = j + 1;
        }
        assert(Seq::new(batch@.len(), |k: int| row_text(dv[i as int][k])) =~= Seq::new(
            dv[i as int].len(),
            |k: int| row_text(dv[i as int][k]),
        ));
        i = i + 1;
    }
    assert(dv.take(kasa_data.len() as int) =~= dv);
    if data.len() == 0 {
        return Ok(None);
    }
    let mut st = String::from_str("INSERT INTO kasa_device_");
    st.append(topic.as_str());
    st.append(" (utc_ns, alias, id, current_ma, power_mw, voltage_mv, total_wh) VALUES ");
    let values = join_strings(&data, ",");
    st.append(values.as_str());
    st.append(";");
    Ok(Some(st))
}

/// The statement creating the table of readings of `topic`.
pub fn create_kasa_table_statement(topic: &str) -> (s: String)
    ensures
        s@ == "CREATE TABLE IF NOT EXISTS kasa_device_"@ + topic@ + KASA_TABLE_COLUMNS@,
{
    let mut s = String::from_str("CREATE TABLE IF NOT EXISTS kasa_device_");
    s.append(topic);
    s.append(KASA_TABLE_COLUMNS);
    s
}

/// The column definitions of a table of readings.
pub const KASA_TABLE_COLUMNS: &'static str = " (
                            utc_ns INTEGER PRIMARY KEY NOT NULL UNIQUE,
                            alias TEXT NOT NULL,
                            id TEXT NOT NULL,
                            current_ma INTEGER NOT NULL,
                            power_mw INTEGER NOT NULL,
                            voltage_mv INTEGER NOT NULL,
                            total_wh INTEGER NOT NULL
                    )";

/// The statement creating the table the OAuth2 cache lives in.
pub const AUTH_TABLE_STATEMENT: &'static str = "
            CREATE TABLE IF NOT EXISTS oidc_cache (
                cache_key   TEXT    NOT NULL PRIMARY KEY,
                cache_value TEXT    NOT NULL,
                expires_at  INTEGER NOT NULL
            );
            ";

/// The statement indexing the OAuth2 cache by expiry.
pub const AUTH_INDEX_STATEMENT: &'static str = "CREATE INDEX IF NOT EXISTS idx_oidc_cache_expires ON oidc_cache (expires_at);";

/// When the OAuth2 cache is cleaned up: every five minutes, at second 30.
pub const AUTH_CLEANUP_SCHEDULE: &'static str = "30 */5 * * * *";

/// How many expired entries one cleanup removes at most.
pub const AUTH_CLEANUP_BATCH_SIZE: i64 = 1000;

/// The statement removing up to `?2` entries that expired before `?1`.
pub const AUTH_CLEANUP_STATEMENT: &'static str = "
                        DELETE FROM oidc_cache
                        WHERE cache_key IN (
                            SELECT cache_key FROM oidc_cache WHERE expires_at < ?1 LIMIT ?2
                        )
                        ";

/// The statement reading the value under key `?1` that has not expired at `?2`.
pub const CACHE_READ_STATEMENT: &'static str = "SELECT cache_value FROM oidc_cache WHERE cache_key = ?1 AND expires_at > ?2";

/// The statement storing value `?2` under key `?1` until `?3`, replacing
/// what was there.
pub const CACHE_WRITE_STATEMENT: &'static str = "INSERT OR REPLACE INTO oidc_cache (cache_key, cache_value, expires_at) VALUES (?1, ?2, ?3);";

/// The statement removing the entry under key `?1`.
pub const CACHE_DELETE_STATEMENT: &'static str = "DELETE FROM oidc_cache WHERE cache_key = ?1;";

/// The statement moving the expiry of the entry under key `?2` to `?1`.
pub const CACHE_EXTEND_STATEMENT: &'static str = "UPDATE oidc_cache SET expires_at = ?1 WHERE cache_key = ?2;";

/// A row returned by a query for readings.
pub enum QueryRow {
    /// A row of two columns: a distinct value and its companion column.
    Pair(String, String),
    /// A full reading.
    Reading(KasaChildInfo),
}

/// The answer to a query for readings.
pub enum QueryResult {
    KasaDeviceInfo(Vec<KasaChildInfo>),
    Distinct(Vec<(String, String)>),
}

/// The two-column rows among `rows`, in order.
pub open spec fn pair_rows(rows: Seq<QueryRow>) -> Seq<(Seq<char>, Seq<char>)>
    decreases rows.len(),
{
    if rows.len() == 0 {
        Seq::empty()
    } else {
        match rows.last() {
            QueryRow::Pair(a, b) => pair_rows(rows.drop_last()).push((a@, b@)),
            QueryRow::Reading(_) => pair_rows(rows.drop_last()),
        }
    }
}

/// The readings among `rows`, in order.
pub open spec fn reading_rows(rows: Seq<QueryRow>) -> Seq<KasaChildInfoView>
    decreases rows.len(),
{
    if rows.len() == 0 {
        Seq::empty()
    } else {
        match rows.last() {
            QueryRow::Pair(_, _) => reading_rows(rows.drop_last()),
            QueryRow::Reading(r) => reading_rows(rows.drop_last()).push(r@),
        }
    }
}

/// The answer built from the rows a query returned: the distinct pairs when
/// there are any, the readings otherwise.
pub fn collect_query_result(rows: Vec<QueryRow>) -> (r: QueryResult)
    ensures
        pair_rows(rows@).len() > 0 ==> (r matches QueryResult::Distinct(d)
            && Seq::new(d@.len(), |i: int| (d@[i].0@, d@[i].1@)) == pair_rows(rows@)),
        pair_rows(rows@).len() == 0 ==> (r matches QueryResult::KasaDeviceInfo(k)
            && Seq::new(k@.len(), |i: int| k@[i]@) == reading_rows(rows@)),
{
    let ghost rv = rows@;
    let n = rows.len();
    let mut data: Vec<KasaChildInfo> = Vec::new();
    let mut distinct: Vec<(String, String)> = Vec::new();
    let mut rest = rows;
    let mut taken: usize = 0;
    assert(rv.take(0) =~= Seq::<QueryRow>::empty());
    while rest.len() > 0
        invariant
            taken + rest@.len() == rv.len(),
            rv.len() == n,
            rest@ == rv.skip(taken as int),
            Seq::new(distinct@.len(), |i: int| (distinct@[i].0@, distinct@[i].1@)) == pair_rows(rv.take(taken as int)),
            Seq::new(data@.len(), |i: int| data@[i]@) == reading_rows(rv.take(taken as int)),
        decreases rest.len(),
    {
        assert(rv.take(taken + 1).drop_last() =~= rv.take(taken as int));
        assert(rv.take(taken + 1).last() == rest@[0]);
        let ghost d0 = Seq::new(distinct@.len(), |i: int| (distinct@[i].0@, distinct@[i].1@));
        let ghost k0 = Seq::new(data@.len(), |i: int| data@[i]@);
        let row = rest.remove(0);
        match row {
            QueryRow::Pair(a, b) => {
                let ghost p = (a@, b@);
                distinct.push((a, b));
                assert(Seq::new(distinct@.len(), |i: int| (distinct@[i].0@, distinct@[i].1@)) =~= d0.push(p));
            },
            QueryRow::Reading(k) => {
                let ghost kv = k@;
                data.push(k);
                assert(Seq::new(data@.len(), |i: int| data@[i]@) =~= k0.push(kv));
            },
        }
        taken = taken + 1;
        assert(rest@ =~= rv.skip(taken as int));
    }
    assert(rv.take(taken as int) =~= rv);
    if distinct.len() > 0 {
        QueryResult::Distinct(distinct)
    } else {
        QueryResult::KasaDeviceInfo(data)
    }
}

/// The cache key of the code verifier stored for `challenge_state`.
pub open spec fn cv_key_text(challenge_state: Seq<char>) -> Seq<char> {
    "cv:"@ + challenge_state
}

/// The cache key of the session `session_id`.
pub open spec fn session_key_text(session_id: Seq<char>) -> Seq<char> {
    "session:"@ + session_id
}

/// The cache key of the code verifier stored for `challenge_state`.
pub fn cv_key(challenge_state: &str) -> (k: String)
    ensures
        k@ == cv_key_text(challenge_state@),
{
    let mut k = String::from_str("cv:");
    k.append(challenge_state);
    k
}

/// The cache key of the session `session_id`.
pub fn session_key(session_id: &str) -> (k: String)
    ensures
        k@ == session_key_text(session_id@),
{
    let mut k = String::from_str("session:");
    k.append(session_id);
    k
}

/// Code verifier keys and session keys never collide, and each kind of key
/// determines what it was made from.
pub proof fn lemma_cache_keys_distinct(a: Seq<char>, b: Seq<char>)
    ensures
        cv_key_text(a) != session_key_text(b),
        cv_key_text(a) == cv_key_text(b) ==> a == b,
        session_key_text(a) == session_key_text(b) ==> a == b,
{
    reveal_strlit("cv:");
    reveal_strlit("session:");
    assert(cv_key_text(a)[0] == 'c');
    assert(session_key_text(b)[0] == 's');
    if cv_key_text(a) == cv_key_text(b) {
        assert(a =~= cv_key_text(a).skip(3));
        assert(b =~= cv_key_text(b).skip(3));
    }
    if session_key_text(a) == session_key_text(b) {
        assert(a =~= session_key_text(a).skip(8));
        assert(b =~= session_key_text(b).skip(8));
    }
}

/// The moment, in seconds, an entry stored at `now` for `ttl_sec` seconds expires.
pub fn expires_at(now: i64, ttl_sec: i64) -> (t: i64)
    requires
        i64::MIN <= now + ttl_sec <= i64::MAX,
    ensures
        t == now + ttl_sec,
{
    now + ttl_sec
}

/// How long a code verifier is kept, in seconds.
pub const CODE_VERIFIER_TTL_SECONDS: i64 = 60;

/// How long a session without its own expiry is kept, in seconds.
pub const SESSION_TTL_SECONDS: i64 = 3600;

/// When a session stored at `now` expires: its own expiry when it has one,
/// an hour later otherwise.
pub fn session_expires_at(expires: Option<i64>, now: i64) -> (t: i64)
    requires
        expires is None ==> now + SESSION_TTL_SECONDS <= i64::MAX,
    ensures
        t == match expires {
            Some(e) => e as int,
            None => now + SESSION_TTL_SECONDS,
        },
{
    match expires {
        Some(e) => e,
        None => now + SESSION_TTL_SECONDS,
    }
}

/// The seconds in `ttl_minutes` minutes, the minutes read as unsigned and
/// the seconds as signed, as the session store takes them.
pub fn extended_ttl_seconds(ttl_minutes: i64) -> (s: i64)
    requires
        (ttl_minutes as u64) as int * 60 <= u64::MAX,
    ensures
        s == (((ttl_minutes as u64) as int * 60) as u64) as i64,
{
    let m = ttl_minutes as u64;
    let secs: u64 = m * 60;
    secs as i64
}

} // verus!
