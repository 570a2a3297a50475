//! The eight benchmark tables: their names, their columns, the header line
//! of their transfer format, and the order in which they are loaded.

use vstd::prelude::*;

verus! {

/// One of the eight benchmark tables.
#[derive(Clone, Copy, Debug, PartialEq, Eq, Hash, Structural)]
pub enum Table {
    Region,
    Nation,
    Part,
    Supplier,
    Partsupp,
    Customer,
    Orders,
    Lineitem,
}

/// The pieces of `parts`, in order, with `sep` between neighbours.
pub open spec fn joined(parts: Seq<Seq<char>>, sep: Seq<char>) -> Seq<char>
    decreases parts.len(),
{
    if parts.len() == 0 {
        Seq::empty()
    } else if parts.len() == 1 {
        parts[0]
    } else {
        joined(parts.drop_last(), sep) + sep + parts.last()
    }
}

/// Calls `tpchgen::csv::RegionCsv::header`. Taken on trust: the line that it
/// returns is the column names of the region table, separated by commas, as
/// written out here.
#[verifier::external_body]
fn region_header() -> (line: &'static str)
    ensures
        line@ == "r_regionkey,r_name,r_comment"@,
{
    tpchgen::csv::RegionCsv::header()
}

/// Calls `tpchgen::csv::NationCsv::header`. Taken on trust: the line that it
/// returns is the column names of the nation table, separated by commas, as
/// written out here.
#[verifier::external_body]
fn nation_header() -> (line: &'static str)
    ensures
        line@ == "n_nationkey,n_name,n_regionkey,n_comment"@,
{
    tpchgen::csv::NationCsv::header()
}

/// Calls `tpchgen::csv::PartCsv::header`. Taken on trust: the line that it
/// returns is the column names of the part table, separated by commas, as
/// written out here.
#[verifier::external_body]
fn part_header() -> (line: &'static str)
    ensures
        line@ == "p_partkey,p_name,p_mfgr,p_brand,p_type,p_size,p_container,p_retailprice,p_comment"@,
{
    tpchgen::csv::PartCsv::header()
}

/// Calls `tpchgen::csv::SupplierCsv::header`. Taken on trust: the line that it
/// returns is the column names of the supplier table, separated by commas, as
/// written out here.
#[verifier::external_body]
fn supplier_header() -> (line: &'static str)
    ensures
        line@ == "s_suppkey,s_name,s_address,s_nationkey,s_phone,s_acctbal,s_comment"@,
{
    tpchgen::csv::SupplierCsv::header()
}

/// Calls `tpchgen::csv::PartSuppCsv::header`. Taken on trust: the line that it
/// returns is the column names of the partsupp table, separated by commas, as
/// written out here.
#[verifier::external_body]
fn partsupp_header() -> (line: &'static str)
    ensures
        line@ == "ps_partkey,ps_suppkey,ps_availqty,ps_supplycost,ps_comment"@,
{
    tpchgen::csv::PartSuppCsv::header()
}

/// Calls `tpchgen::csv::CustomerCsv::header`. Taken on trust: the line that it
/// returns is the column names of the customer table, separated by commas, as
/// written out here.
#[verifier::external_body]
fn customer_header() -> (line: &'static str)
    ensures
        line@ == "c_custkey,c_name,c_address,c_nationkey,c_phone,c_acctbal,c_mktsegment,c_comment"@,
{
    tpchgen::csv::CustomerCsv::header()
}

/// Calls `tpchgen::csv::OrderCsv::header`. Taken on trust: the line that it
/// returns is the column names of the orders table, separated by commas, as
/// written out here.
#[verifier::external_body]
fn orders_header() -> (line: &'static str)
    ensures
        line@ == "o_orderkey,o_custkey,o_orderstatus,o_totalprice,o_orderdate,o_orderpriority,o_clerk,o_shippriority,o_comment"@,
{
    tpchgen::csv::OrderCsv::header()
}

/// Calls `tpchgen::csv::LineItemCsv::header`. Taken on trust: the line that it
/// returns is the column names of the lineitem table, separated by commas, as
/// written out here.
#[verifier::external_body]
fn lineitem_header() -> (line: &'static str)
    ensures
        line@ == "l_orderkey,l_partkey,l_suppkey,l_linenumber,l_quantity,l_extendedprice,l_discount,l_tax,l_returnflag,l_linestatus,l_shipdate,l_commitdate,l_receiptdate,l_shipinstruct,l_shipmode,l_comment"@,
{
    tpchgen::csv::LineItemCsv::header()
}

impl Table {
    /// Place of the table in the load order, counted from zero.
    pub open spec fn position(self) -> int {
        match self {
            Table::Region => 0,
            Table::Nation => 1,
            Table::Part => 2,
            Table::Supplier => 3,
            Table::Partsupp => 4,
            Table::Customer => 5,
            Table::Orders => 6,
            Table::Lineitem => 7,
        }
    }

    /// The tables in the order in which a partition is loaded.
    pub open spec fn spec_load_order() -> Seq<Table> {
        seq![
            Table::Region,
            Table::Nation,
            Table::Part,
            Table::Supplier,
            Table::Partsupp,
            Table::Customer,
            Table::Orders,
            Table::Lineitem,
        ]
    }

    /// The table that is loaded after this one, if any.
    pub open spec fn spec_next(self) -> Option<Table> {
        if self.position() + 1 < Self::spec_load_order().len() {
            Some(Self::spec_load_order()[self.position() + 1])
        } else {
            None
        }
    }

    /// Whether rows of this table refer to rows of `other` by key.
    pub open spec fn spec_references(self, other: Table) -> bool {
        match self {
            Table::Region => false,
            Table::Nation => other == Table::Region,
            Table::Part => false,
            Table::Supplier => other == Table::Nation,
            Table::Partsupp => other == Table::Part || other == Table::Supplier,
            Table::Customer => other == Table::Nation,
            Table::Orders => other == Table::Customer,
            Table::Lineitem => other == Table::Orders || other == Table::Part || other
                == Table::Supplier,
        }
    }

    /// Name of the table in the store.
    pub open spec fn spec_name(self) -> Seq<char> {
        match self {
            Table::Region => "region"@,
            Table::Nation => "nation"@,
            Table::Part => "part"@,
            Table::Supplier => "supplier"@,
            Table::Partsupp => "partsupp"@,
            Table::Customer => "customer"@,
            Table::Orders => "orders"@,
            Table::Lineitem => "lineitem"@,
        }
    }

    /// Header line of the table's transfer format.
    pub open spec fn spec_header(self) -> Seq<char> {
        match self {
            Table::Region => "r_regionkey,r_name,r_comment"@,
            Table::Nation => "n_nationkey,n_name,n_regionkey,n_comment"@,
            Table::Part => "p_partkey,p_name,p_mfgr,p_brand,p_type,p_size,p_container,p_retailprice,p_comment"@,
            Table::Supplier => "s_suppkey,s_name,s_address,s_nationkey,s_phone,s_acctbal,s_comment"@,
            Table::Partsupp => "ps_partkey,ps_suppkey,ps_availqty,ps_supplycost,ps_comment"@,
            Table::Customer => "c_custkey,c_name,c_address,c_nationkey,c_phone,c_acctbal,c_mktsegment,c_comment"@,
            Table::Orders => "o_orderkey,o_custkey,o_orderstatus,o_totalprice,o_orderdate,o_orderpriority,o_clerk,o_shippriority,o_comment"@,
            Table::Lineitem => "l_orderkey,l_partkey,l_suppkey,l_linenumber,l_quantity,l_extendedprice,l_discount,l_tax,l_returnflag,l_linestatus,l_shipdate,l_commitdate,l_receiptdate,l_shipinstruct,l_shipmode,l_comment"@,
        }
    }

    /// The table's columns as the store declares them, in order.
    pub open spec fn spec_columns(self) -> Seq<Seq<char>> {
        match self {
            Table::Region => seq![
                "r_regionkey"@,
                "r_name"@,
                "r_comment"@,
            ],
            Table::Nation => seq![
                "n_nationkey"@,
                "n_name"@,
                "n_regionkey"@,
                "n_comment"@,
            ],
            Table::Part => seq![
                "p_partkey"@,
                "p_name"@,
                "p_mfgr"@,
                "p_brand"@,
                "p_type"@,
                "p_size"@,
                "p_container"@,
                "p_retailprice"@,
                "p_comment"@,
            ],
            Table::Supplier => seq![
                "s_suppkey"@,
                "s_name"@,
                "s_address"@,
                "s_nationkey"@,
                "s_phone"@,
                "s_acctbal"@,
                "s_comment"@,
            ],
            Table::Partsupp => seq![
                "ps_partkey"@,
                "ps_suppkey"@,
                "ps_availqty"@,
                "ps_supplycost"@,
                "ps_comment"@,
            ],
            Table::Customer => seq![
                "c_custkey"@,
                "c_name"@,
                "c_address"@,
                "c_nationkey"@,
                "c_phone"@,
                "c_acctbal"@,
                "c_mktsegment"@,
                "c_comment"@,
            ],
            Table::Orders => seq![
                "o_orderkey"@,
                "o_custkey"@,
                "o_orderstatus"@,
                "o_totalprice"@,
                "o_orderdate"@,
                "o_orderpriority"@,
                "o_clerk"@,
                "o_shippriority"@,
                "o_comment"@,
            ],
            Table::Lineitem => seq![
                "l_orderkey"@,
                "l_partkey"@,
                "l_suppkey"@,
                "l_linenumber"@,
                "l_quantity"@,
                "l_extendedprice"@,
                "l_discount"@,
                "l_tax"@,
                "l_returnflag"@,
                "l_linestatus"@,
                "l_shipdate"@,
                "l_commitdate"@,
                "l_receiptdate"@,
                "l_shipinstruct"@,
                "l_shipmode"@,
                "l_comment"@,
            ],
        }
    }

    /// The tables in load order: referenced tables come before the tables
    /// that refer to them.
    pub fn load_order() -> (order: Vec<Table>)
        ensures
            order@ == Self::spec_load_order(),
    {
        let order = vec![
            Table::Region,
            Table::Nation,
            Table::Part,
            Table::Supplier,
            Table::Partsupp,
            Table::Customer,
            Table::Orders,
            Table::Lineitem,
        ];
        assert(order@ =~= Self::spec_load_order());
        order
    }

    /// The table that is loaded first.
    pub fn first() -> (table: Table)
        ensures
            table == Self::spec_load_order()[0],
    {
        Table::Region
    }

    /// The table that is loaded after this one; `None` after the last.
    pub fn next(self) -> (following: Option<Table>)
        ensures
            following == self.spec_next(),
    {
        match self {
            Table::Region => Some(Table::Nation),
            Table::Nation => Some(Table::Part),
            Table::Part => Some(Table::Supplier),
            Table::Supplier => Some(Table::Partsupp),
            Table::Partsupp => Some(Table::Customer),
            Table::Customer => Some(Table::Orders),
            Table::Orders => Some(Table::Lineitem),
            Table::Lineitem => None,
        }
    }

    /// Whether rows of this table refer to rows of `other` by key.
    pub fn references(self, other: Table) -> (yes: bool)
        ensures
            yes == self.spec_references(other),
    {
        match self {
            Table::Region => false,
            Table::Nation => other == Table::Region,
            Table::Part => false,
            Table::Supplier => other == Table::Nation,
            Table::Partsupp => other == Table::Part || other == Table::Supplier,
            Table::Customer => other == Table::Nation,
            Table::Orders => other == Table::Customer,
            Table::Lineitem => other == Table::Orders || other == Table::Part || other
                == Table::Supplier,
        }
    }

    /// Name of the table in the store.
    pub fn name(self) -> (name: &'static str)
        ensures
            name@ == self.spec_name(),
    {
        match self {
            Table::Region => "region",
            Table::Nation => "nation",
            Table::Part => "part",
            Table::Supplier => "supplier",
            Table::Partsupp => "partsupp",
            Table::Customer => "customer",
            Table::Orders => "orders",
            Table::Lineitem => "lineitem",
        }
    }

    /// Header line of the table's transfer format, as the row formatter of
    /// the generator library gives it.
    pub fn header(self) -> (line: &'static str)
        ensures
            line@ == self.spec_header(),
    {
        match self {
            Table::Region => region_header(),
            Table::Nation => nation_header(),
            Table::Part => part_header(),
            Table::Supplier => supplier_header(),
            Table::Partsupp => partsupp_header(),
            Table::Customer => customer_header(),
            Table::Orders => orders_header(),
            Table::Lineitem => lineitem_header(),
        }
    }

    /// The table's columns as the store declares them, in order.
    pub fn columns(self) -> (columns: Vec<&'static str>)
        ensures
            columns@.len() == self.spec_columns().len(),
            forall|i: int| 0 <= i < columns@.len() ==> columns@[i]@ == self.spec_columns()[i],
    {
        match self {
            Table::Region => vec![
                "r_regionkey",
                "r_name",
                "r_comment",
            ],
            Table::Nation => vec![
                "n_nationkey",
                "n_name",
                "n_regionkey",
                "n_comment",
            ],
            Table::Part => vec![
                "p_partkey",
                "p_name",
                "p_mfgr",
                "p_brand",
                "p_type",
                "p_size",
                "p_container",
                "p_retailprice",
                "p_comment",
            ],
            Table::Supplier => vec![
                "s_suppkey",
                "s_name",
                "s_address",
                "s_nationkey",
                "s_phone",
                "s_acctbal",
                "s_comment",
            ],
            Table::Partsupp => vec![
                "ps_partkey",
                "ps_suppkey",
                "ps_availqty",
                "ps_supplycost",
                "ps_comment",
            ],
            Table::Customer => vec![
                "c_custkey",
                "c_name",
                "c_address",
                "c_nationkey",
                "c_phone",
                "c_acctbal",
                "c_mktsegment",
                "c_comment",
            ],
            Table::Orders => vec![
                "o_orderkey",
                "o_custkey",
                "o_orderstatus",
                "o_totalprice",
                "o_orderdate",
                "o_orderpriority",
                "o_clerk",
                "o_shippriority",
                "o_comment",
            ],
            Table::Lineitem => vec![
                "l_orderkey",
                "l_partkey",
                "l_suppkey",
                "l_linenumber",
                "l_quantity",
                "l_extendedprice",
                "l_discount",
                "l_tax",
                "l_returnflag",
                "l_linestatus",
                "l_shipdate",
                "l_commitdate",
                "l_receiptdate",
                "l_shipinstruct",
                "l_shipmode",
                "l_comment",
            ],
        }
    }
}

proof fn region_header_lists_columns()
    ensures
        Table::Region.spec_header() == joined(Table::Region.spec_columns(), seq![',']),
{
    reveal_with_fuel(joined, 4);
    reveal_strlit("r_regionkey,r_name,r_comment");
    reveal_strlit("r_regionkey");
    reveal_strlit("r_name");
    reveal_strlit("r_comment");
    assert(Table::Region.spec_header() =~= joined(Table::Region.spec_columns(), seq![',']));
}

proof fn nation_header_lists_columns()
    ensures
        Table::Nation.spec_header() == joined(Table::Nation.spec_columns(), seq![',']),
{
    reveal_with_fuel(joined, 5);
    reveal_strlit("n_nationkey,n_name,n_regionkey,n_comment");
    reveal_strlit("n_nationkey");
    reveal_strlit("n_name");
    reveal_strlit("n_regionkey");
    reveal_strlit("n_comment");
    assert(Table::Nation.spec_header() =~= joined(Table::Nation.spec_columns(), seq![',']));
}

proof fn part_header_lists_columns()
    ensures
        Table::Part.spec_header() == joined(Table::Part.spec_columns(), seq![',']),
{
    reveal_with_fuel(joined, 10);
    reveal_strlit("p_partkey,p_name,p_mfgr,p_brand,p_type,p_size,p_container,p_retailprice,p_comment");
    reveal_strlit("p_partkey");
    reveal_strlit("p_name");
    reveal_strlit("p_mfgr");
    reveal_strlit("p_brand");
    reveal_strlit("p_type");
    reveal_strlit("p_size");
    reveal_strlit("p_container");
    reveal_strlit("p_retailprice");
    reveal_strlit("p_comment");
    assert(Table::Part.spec_header() =~= joined(Table::Part.spec_columns(), seq![',']));
}

proof fn supplier_header_lists_columns()
    ensures
        Table::Supplier.spec_header() == joined(Table::Supplier.spec_columns(), seq![',']),
{
    reveal_with_fuel(joined, 8);
    reveal_strlit("s_suppkey,s_name,s_address,s_nationkey,s_phone,s_acctbal,s_comment");
    reveal_strlit("s_suppkey");
    reveal_strlit("s_name");
    reveal_strlit("s_address");
    reveal_strlit("s_nationkey");
    reveal_strlit("s_phone");
    reveal_strlit("s_acctbal");
    reveal_strlit("s_comment");
    assert(Table::Supplier.spec_header() =~= joined(Table::Supplier.spec_columns(), seq![',']));
}

proof fn partsupp_header_lists_columns()
    ensures
        Table::Partsupp.spec_header() == joined(Table::Partsupp.spec_columns(), seq![',']),
{
    reveal_with_fuel(joined, 6);
    reveal_strlit("ps_partkey,ps_suppkey,ps_availqty,ps_supplycost,ps_comment");
    reveal_strlit("ps_partkey");
    reveal_strlit("ps_suppkey");
    reveal_strlit("ps_availqty");
    reveal_strlit("ps_supplycost");
    reveal_strlit("ps_comment");
    assert(Table::Partsupp.spec_header() =~= joined(Table::Partsupp.spec_columns(), seq![',']));
}

proof fn customer_header_lists_columns()
    ensures
        Table::Customer.spec_header() == joined(Table::Customer.spec_columns(), seq![',']),
{
    reveal_with_fuel(joined, 9);
    reveal_strlit("c_custkey,c_name,c_address,c_nationkey,c_phone,c_acctbal,c_mktsegment,c_comment");
    reveal_strlit("c_custkey");
    reveal_strlit("c_name");
    reveal_strlit("c_address");
    reveal_strlit("c_nationkey");
    reveal_strlit("c_phone");
    reveal_strlit("c_acctbal");
    reveal_strlit("c_mktsegment");
    reveal_strlit("c_comment");
    assert(Table::Customer.spec_header() =~= joined(Table::Customer.spec_columns(), seq![',']));
}

proof fn orders_header_lists_columns()
    ensures
        Table::Orders.spec_header() == joined(Table::Orders.spec_columns(), seq![',']),
{
    reveal_with_fuel(joined, 10);
    reveal_strlit("o_orderkey,o_custkey,o_orderstatus,o_totalprice,o_orderdate,o_orderpriority,o_clerk,o_shippriority,o_comment");
    reveal_strlit("o_orderkey");
    reveal_strlit("o_custkey");
    reveal_strlit("o_orderstatus");
    reveal_strlit("o_totalprice");
    reveal_strlit("o_orderdate");
    reveal_strlit("o_orderpriority");
    reveal_strlit("o_clerk");
    reveal_strlit("o_shippriority");
    reveal_strlit("o_comment");
    assert(Table::Orders.spec_header() =~= joined(Table::Orders.spec_columns(), seq![',']));
}

proof fn lineitem_header_lists_columns()
    ensures
        Table::Lineitem.spec_header() == joined(Table::Lineitem.spec_columns(), seq![',']),
{
    reveal_with_fuel(joined, 17);
    reveal_strlit("l_orderkey,l_partkey,l_suppkey,l_linenumber,l_quantity,l_extendedprice,l_discount,l_tax,l_returnflag,l_linestatus,l_shipdate,l_commitdate,l_receiptdate,l_shipinstruct,l_shipmode,l_comment");
    reveal_strlit("l_orderkey");
    reveal_strlit("l_partkey");
    reveal_strlit("l_suppkey");
    reveal_strlit("l_linenumber");
    reveal_strlit("l_quantity");
    reveal_strlit("l_extendedprice");
    reveal_strlit("l_discount");
    reveal_strlit("l_tax");
    reveal_strlit("l_returnflag");
    reveal_strlit("l_linestatus");
    reveal_strlit("l_shipdate");
    reveal_strlit("l_commitdate");
    reveal_strlit("l_receiptdate");
    reveal_strlit("l_shipinstruct");
    reveal_strlit("l_shipmode");
    reveal_strlit("l_comment");
    assert(Table::Lineitem.spec_header() =~= joined(Table::Lineitem.spec_columns(), seq![',']));
}

/// The header line of a table's transfer format names the columns that the
/// store declares for the table, in the declared order, separated by commas.
/// Rows in that format can therefore be ingested by position.
pub proof fn header_lists_columns(table: Table)
    ensures
        table.spec_header() == joined(table.spec_columns(), seq![',']),
{
    match table {
        Table::Region => region_header_lists_columns(),
        Table::Nation => nation_header_lists_columns(),
        Table::Part => part_header_lists_columns(),
        Table::Supplier => supplier_header_lists_columns(),
        Table::Partsupp => partsupp_header_lists_columns(),
        Table::Customer => customer_header_lists_columns(),
        Table::Orders => orders_header_lists_columns(),
        Table::Lineitem => lineitem_header_lists_columns(),
    }
}

/// A table is loaded only after every table that it refers to.
pub proof fn referenced_tables_come_first(table: Table, other: Table)
    requires
        table.spec_references(other),
    ensures
        other.position() < table.position(),
{
}

/// The load order has eight places, and each table stands in it at its
/// position.
pub proof fn load_order_is_complete(table: Table)
    ensures
        Table::spec_load_order().len() == 8,
        0 <= table.position() < 8,
        Table::spec_load_order()[table.position()] == table,
{
}

} // verus!
