//! The tables, their order, and the text built from their names.

use pg_tpch::staging::{
    copy_statement, reset_statement, staging_file_name, staging_path, STAGING_DIR,
};
use pg_tpch::table::Table;

const ALL: [Table; 8] = [
    Table::Region,
    Table::Nation,
    Table::Part,
    Table::Supplier,
    Table::Partsupp,
    Table::Customer,
    Table::Orders,
    Table::Lineitem,
];

#[test]
fn load_order_is_the_dependency_order() {
    assert_eq!(Table::load_order(), ALL.to_vec());
    assert_eq!(Table::first(), Table::Region);
    for i in 0..8 {
        assert_eq!(ALL[i].next(), ALL.get(i + 1).copied());
    }
}

#[test]
fn referenced_tables_are_loaded_first() {
    let mut references = 0;
    for (i, table) in ALL.iter().enumerate() {
        for (j, other) in ALL.iter().enumerate() {
            if table.references(*other) {
                references += 1;
                assert!(j < i);
            }
        }
    }
    assert_eq!(references, 9);
    assert!(Table::Nation.references(Table::Region));
    assert!(Table::Supplier.references(Table::Nation));
    assert!(Table::Customer.references(Table::Nation));
    assert!(Table::Partsupp.references(Table::Part));
    assert!(Table::Partsupp.references(Table::Supplier));
    assert!(Table::Orders.references(Table::Customer));
    assert!(Table::Lineitem.references(Table::Orders));
    assert!(Table::Lineitem.references(Table::Part));
    assert!(Table::Lineitem.references(Table::Supplier));
    assert!(!Table::Region.references(Table::Nation));
}

#[test]
fn table_names() {
    let names: Vec<&str> = ALL.iter().map(|table| table.name()).collect();
    assert_eq!(
        names,
        vec![
            "region", "nation", "part", "supplier", "partsupp", "customer", "orders", "lineitem"
        ]
    );
}

#[test]
fn headers_list_the_columns() {
    assert_eq!(Table::Region.header(), "r_regionkey,r_name,r_comment");
    assert_eq!(Table::Nation.header(), "n_nationkey,n_name,n_regionkey,n_comment");
    assert_eq!(
        Table::Partsupp.header(),
        "ps_partkey,ps_suppkey,ps_availqty,ps_supplycost,ps_comment"
    );
    let counts: Vec<usize> = ALL.iter().map(|table| table.columns().len()).collect();
    assert_eq!(counts, vec![3, 4, 9, 7, 5, 8, 9, 16]);
    for table in ALL {
        assert_eq!(table.columns().join(","), table.header());
    }
}

#[test]
fn staging_paths() {
    assert_eq!(STAGING_DIR, "/tmp/pg_tpch_data");
    assert_eq!(staging_file_name(Table::Region), "region.csv");
    assert_eq!(staging_path(Table::Lineitem), "/tmp/pg_tpch_data/lineitem.csv");
    for table in ALL {
        assert_eq!(staging_file_name(table), format!("{}.csv", table.name()));
        assert_eq!(staging_path(table), format!("{}/{}.csv", STAGING_DIR, table.name()));
    }
}

#[test]
fn reset_statement_names_all_tables() {
    let statement = reset_statement();
    assert_eq!(
        statement,
        "TRUNCATE TABLE region, nation, part, supplier, partsupp, customer, orders, lineitem RESTART IDENTITY;"
    );
    let names: Vec<&str> = ALL.iter().map(|table| table.name()).collect();
    assert_eq!(statement, format!("TRUNCATE TABLE {} RESTART IDENTITY;", names.join(", ")));
    assert_eq!(statement.matches(';').count(), 1);
}

#[test]
fn copy_statement_names_table_and_file() {
    assert_eq!(
        copy_statement(Table::Orders, "/tmp/pg_tpch_data/orders.csv"),
        "COPY orders FROM '/tmp/pg_tpch_data/orders.csv' WITH (FORMAT csv, HEADER true, DELIMITER ',')"
    );
    for table in ALL {
        let path = staging_path(table);
        assert_eq!(
            copy_statement(table, &path),
            format!(
                "COPY {} FROM '{}' WITH (FORMAT csv, HEADER true, DELIMITER ',')",
                table.name(),
                path
            )
        );
    }
}
