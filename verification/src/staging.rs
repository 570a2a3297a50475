//! Where transfer files are staged and what the store is told to do with
//! them: file names, and the text of the two statements that a load issues.

use crate::table::{joined, Table};
use vstd::prelude::*;
use vstd::string::*;

verus! {

/// The directory in which transfer files are staged.
pub const STAGING_DIR: &'static str = "/tmp/pg_tpch_data";

/// The names of `tables`, in order.
pub open spec fn names_of(tables: Seq<Table>) -> Seq<Seq<char>> {
    tables.map_values(|table: Table| table.spec_name())
}

/// Name of the transfer file of `table`: the table's name with the
/// extension `.csv`.
pub open spec fn spec_staging_file_name(table: Table) -> Seq<char> {
    table.spec_name() + ".csv"@
}

/// Path of the transfer file of `table` in the staging directory.
pub open spec fn spec_staging_path(table: Table) -> Seq<char> {
    STAGING_DIR@ + "/"@ + spec_staging_file_name(table)
}

/// The statement that empties all eight tables and restarts their
/// counters.
pub open spec fn spec_reset_statement() -> Seq<char> {
    "TRUNCATE TABLE region, nation, part, supplier, partsupp, customer, orders, lineitem RESTART IDENTITY;"@
}

/// The statement that has the store ingest the file at `path` into
/// `table`: comma-delimited, with a header line.
pub open spec fn spec_copy_statement(table: Table, path: Seq<char>) -> Seq<char> {
    "COPY "@ + table.spec_name() + " FROM '"@ + path
        + "' WITH (FORMAT csv, HEADER true, DELIMITER ',')"@
}

/// Name of the transfer file of `table`.
pub fn staging_file_name(table: Table) -> (name: String)
    ensures
        name@ == spec_staging_file_name(table),
{
    let mut name = String::from_str(table.name());
    name.append(".csv");
    name
}

/// Path of the transfer file of `table` in the staging directory.
pub fn staging_path(table: Table) -> (path: String)
    ensures
        path@ == spec_staging_path(table),
{
    let mut path = String::from_str(STAGING_DIR);
    path.append("/");
    path.append(table.name());
    path.append(".csv");
    assert(path@ =~= spec_staging_path(table));
    path
}

/// The statement that empties all eight tables and restarts their
/// counters. It is one statement, so that the store empties all of them or
/// none.
pub fn reset_statement() -> (statement: String)
    ensures
        statement@ == spec_reset_statement(),
{
    String::from_str(
        "TRUNCATE TABLE region, nation, part, supplier, partsupp, customer, orders, lineitem RESTART IDENTITY;",
    )
}

/// The statement that has the store ingest the file at `path` into
/// `table`. The path is put between the quotes as it is.
pub fn copy_statement(table: Table, path: &str) -> (statement: String)
    ensures
        statement@ == spec_copy_statement(table, path@),
{
    let mut statement = String::from_str("COPY ");
    statement.append(table.name());
    statement.append(" FROM '");
    statement.append(path);
    statement.append("' WITH (FORMAT csv, HEADER true, DELIMITER ',')");
    statement
}

/// The reset statement names every table, each once and in load order,
/// between its two keywords.
pub proof fn reset_names_every_table()
    ensures
        spec_reset_statement() == "TRUNCATE TABLE "@ + joined(
            names_of(Table::spec_load_order()),
            ", "@,
        ) + " RESTART IDENTITY;"@,
{
    reveal_with_fuel(joined, 9);
    reveal_strlit(
        "TRUNCATE TABLE region, nation, part, supplier, partsupp, customer, orders, lineitem RESTART IDENTITY;",
    );
    reveal_strlit("TRUNCATE TABLE ");
    reveal_strlit(", ");
    reveal_strlit(" RESTART IDENTITY;");
    reveal_strlit("region");
    reveal_strlit("nation");
    reveal_strlit("part");
    reveal_strlit("supplier");
    reveal_strlit("partsupp");
    reveal_strlit("customer");
    reveal_strlit("orders");
    reveal_strlit("lineitem");
    let names = names_of(Table::spec_load_order());
    assert(names =~= seq![
        "region"@,
        "nation"@,
        "part"@,
        "supplier"@,
        "partsupp"@,
        "customer"@,
        "orders"@,
        "lineitem"@,
    ]);
    assert(spec_reset_statement() =~= "TRUNCATE TABLE "@ + joined(names, ", "@)
        + " RESTART IDENTITY;"@);
}

/// No two tables have the same name.
pub proof fn table_names_differ(first: Table, second: Table)
    requires
        first != second,
    ensures
        first.spec_name() != second.spec_name(),
{
    reveal_strlit("region");
    reveal_strlit("nation");
    reveal_strlit("part");
    reveal_strlit("supplier");
    reveal_strlit("partsupp");
    reveal_strlit("customer");
    reveal_strlit("orders");
    reveal_strlit("lineitem");
    let a = first.spec_name();
    let b = second.spec_name();
    assert(a.len() != b.len() || a[0] != b[0]);
}

/// Each table has a transfer file of its own: the files of two tables
/// never share a path, so staging one table cannot overwrite another.
pub proof fn staging_paths_differ(first: Table, second: Table)
    requires
        first != second,
    ensures
        spec_staging_path(first) != spec_staging_path(second),
{
    table_names_differ(first, second);
    let head = STAGING_DIR@ + "/"@;
    let tail = ".csv"@;
    let a = first.spec_name();
    let b = second.spec_name();
    assert(spec_staging_path(first) =~= head + a + tail);
    assert(spec_staging_path(second) =~= head + b + tail);
    if head + a + tail == head + b + tail {
        assert((head + a + tail).len() == (head + b + tail).len());
        assert(a.len() == b.len());
        assert forall|i: int| 0 <= i < a.len() implies a[i] == b[i] by {
            assert((head + a + tail)[head.len() + i] == a[i]);
            assert((head + b + tail)[head.len() + i] == b[i]);
        }
        assert(a =~= b);
    }
}

} // verus!
