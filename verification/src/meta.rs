//! The insert statements of a run, one per table, built once from the
//! store's own description of its tables.

use vstd::prelude::*;
use std::collections::HashMap;
use crate::error::{from_store, PackError};
use crate::store::{prepare, query_tables, TableInfo};
use crate::text::{decimal, decimal_digits};

verus! {

broadcast use vstd::std_specs::hash::group_hash_axioms;

/// Lists every table that has columns: its identifier, its name and the
/// number of its columns, by ascending identifier.
pub const SELECT_TABLE_INFO: &'static str =
    "SELECT t.id, t.name, count(c.id) AS len FROM column_info AS c JOIN table_info AS t ON t.id = c.table_id GROUP BY t.id ORDER BY t.id;";

/// `n` placeholders, separated by a comma and a space.
pub open spec fn placeholders(n: nat) -> Seq<char>
    decreases n,
{
    if n == 0 {
        Seq::empty()
    } else if n == 1 {
        "?"@
    } else {
        placeholders((n - 1) as nat) + ", "@ + "?"@
    }
}

/// The statement that inserts one row into the table `name`, which has
/// `columns` columns.
pub open spec fn insert_statement_spec(name: Seq<char>, columns: nat) -> Seq<char> {
    "INSERT INTO "@ + name + " VALUES ("@ + placeholders(columns) + ");"@
}

/// The statements for the first `n` of `tables`, by table identifier; where
/// two lines name one table, the later one stands.
pub open spec fn statements_upto(tables: Seq<TableInfo>, n: nat) -> Map<u32, Seq<char>>
    decreases n,
{
    if n == 0 || n > tables.len() {
        Map::empty()
    } else {
        let last = tables[n - 1];
        statements_upto(tables, (n - 1) as nat).insert(
            last.id,
            insert_statement_spec(last.name@, last.columns as nat),
        )
    }
}

/// The statements for all of `tables`.
pub open spec fn statements_of(tables: Seq<TableInfo>) -> Map<u32, Seq<char>> {
    statements_upto(tables, tables.len())
}

/// What a lookup of an unknown table says.
pub open spec fn miss_message(table_id: u32) -> Seq<char> {
    "Expected a cached sql statement for "@ + decimal_digits(table_id as nat)
}

/// Writes the insert statement for a table.
pub fn insert_statement(name: &str, columns: u32) -> (sql: String)
    ensures
        sql@ == insert_statement_spec(name@, columns as nat),
{
    let mut sql = "INSERT INTO ".to_owned();
    sql.append(name);
    sql.append(" VALUES (");
    let ghost head = sql@;
    let mut i: u32 = 0;
    while i < columns
        invariant
            i <= columns,
            head == "INSERT INTO "@ + name@ + " VALUES ("@,
            sql@ == head + placeholders(i as nat),
        decreases columns - i,
    {
        if i > 0 {
            sql.append(", ");
        }
        sql.append("?");
        i += 1;
        assert(sql@ =~= head + placeholders(i as nat));
    }
    sql.append(");");
    sql
}

/// The insert statement of each table, by table identifier. Built once and
/// only read afterwards.
pub struct Cache(HashMap<u32, String>);

impl View for Cache {
    type V = Map<u32, Seq<char>>;

    closed spec fn view(&self) -> Map<u32, Seq<char>> {
        Map::new(|id: u32| self.0@.contains_key(id), |id: u32| self.0@[id]@)
    }
}

impl Cache {
    /// The cache that holds a statement for each of `tables`.
    pub fn from_tables(tables: Vec<TableInfo>) -> (cache: Cache)
        ensures
            cache@ == statements_of(tables@),
    {
        let mut cache = Cache(HashMap::new());
        assert(cache@ =~= statements_upto(tables@, 0));
        let mut i: usize = 0;
        while i < tables.len()
            invariant
                i <= tables.len(),
                cache@ == statements_upto(tables@, i as nat),
            decreases tables.len() - i,
        {
            let table = &tables[i];
            let sql = insert_statement(table.name.as_str(), table.columns);
            cache.0.insert(table.id, sql);
            i += 1;
            assert(cache@ =~= statements_upto(tables@, i as nat));
        }
        cache
    }

    /// Builds an insert statement for each table that the store describes.
    /// Fails as the store does; an absent metadata table is reported as
    /// such.
    pub fn prepare(conn: &rusqlite::Connection) -> (r: Result<Cache, PackError>)
        ensures
            r matches Ok(cache) ==> exists|tables: Seq<TableInfo>| cache@ == #[trigger] statements_of(
                tables,
            ),
            r matches Err(e) ==> from_store(e),
    {
        let mut stmt = match prepare(conn, SELECT_TABLE_INFO) {
            Ok(stmt) => stmt,
            Err(err) => {
                return Err(PackError::from(err));
            },
        };
        match query_tables(&mut stmt) {
            Ok(tables) => Ok(Cache::from_tables(tables)),
            Err(err) => Err(PackError::from(err)),
        }
    }

    /// The statement for `table_id`; a table without one is a cache error
    /// that names the identifier.
    pub fn get(&self, table_id: u32) -> (r: Result<&str, PackError>)
        ensures
            self@.contains_key(table_id) ==> (r matches Ok(sql) && sql@ == self@[table_id]),
            !self@.contains_key(table_id) ==> (r matches Err(PackError::CacheError(text)) && text@
                == miss_message(table_id)),
    {
        match self.0.get(&table_id) {
            Some(sql) => Ok(sql.as_str()),
            None => {
                let text = "Expected a cached sql statement for ".to_owned().concat(
                    decimal(table_id).as_str(),
                );
                Err(PackError::CacheError(text))
            },
        }
    }
}

} // verus!
