//! Loads played against the row generators and a store kept in memory.

use pg_tpch::orchestrator::{Action, LoadRun, Outcome};
use pg_tpch::request::{LoadRequest, ScaleFactor};
use pg_tpch::table::Table;
use std::collections::HashMap;
use tpchgen::csv::{
    CustomerCsv, LineItemCsv, NationCsv, OrderCsv, PartCsv, PartSuppCsv, RegionCsv, SupplierCsv,
};
use tpchgen::generators::{
    CustomerGenerator, LineItemGenerator, NationGenerator, OrderGenerator, PartGenerator,
    PartSuppGenerator, RegionGenerator, SupplierGenerator,
};

fn rows(table: Table, scale: f64, part: i32, parts: i32) -> Vec<String> {
    match table {
        Table::Region => RegionGenerator::new(scale, part, parts)
            .iter()
            .map(|row| RegionCsv::new(row).to_string())
            .collect(),
        Table::Nation => NationGenerator::new(scale, part, parts)
            .iter()
            .map(|row| NationCsv::new(row).to_string())
            .collect(),
        Table::Part => PartGenerator::new(scale, part, parts)
            .iter()
            .map(|row| PartCsv::new(row).to_string())
            .collect(),
        Table::Supplier => SupplierGenerator::new(scale, part, parts)
            .iter()
            .map(|row| SupplierCsv::new(row).to_string())
            .collect(),
        Table::Partsupp => PartSuppGenerator::new(scale, part, parts)
            .iter()
            .map(|row| PartSuppCsv::new(row).to_string())
            .collect(),
        Table::Customer => CustomerGenerator::new(scale, part, parts)
            .iter()
            .map(|row| CustomerCsv::new(row).to_string())
            .collect(),
        Table::Orders => OrderGenerator::new(scale, part, parts)
            .iter()
            .map(|row| OrderCsv::new(row).to_string())
            .collect(),
        Table::Lineitem => LineItemGenerator::new(scale, part, parts)
            .iter()
            .map(|row| LineItemCsv::new(row).to_string())
            .collect(),
    }
}

struct Store {
    tables: HashMap<Table, Vec<String>>,
    staged: HashMap<Table, Vec<String>>,
    resets: usize,
}

fn empty_store() -> Store {
    Store { tables: HashMap::new(), staged: HashMap::new(), resets: 0 }
}

fn load(store: &mut Store, scale: f64, children: i64, step: i64) -> Action {
    let request =
        LoadRequest { scale: ScaleFactor::from_bits(scale.to_bits()), children, step };
    let mut run = LoadRun::begin(request);
    loop {
        let action = run.action();
        match action {
            Action::Reset => {
                store.tables.clear();
                store.resets += 1;
            }
            Action::Stage { table, scale, partition } => {
                let (part, parts) = partition.generator_arguments().unwrap();
                let lines = rows(table, f64::from_bits(scale.to_bits()), part, parts);
                store.staged.insert(table, lines);
            }
            Action::Ingest { table } => {
                let lines = store.staged.get(&table).unwrap().clone();
                store.tables.entry(table).or_default().extend(lines);
            }
            Action::Discard { table } => {
                assert!(store.staged.remove(&table).is_some());
            }
            Action::Finish(_) | Action::Fail(_) => return action,
        }
        run = run.advance(Outcome::Done);
    }
}

fn sorted(store: &Store, table: Table) -> Vec<String> {
    let mut lines = store.tables.get(&table).cloned().unwrap_or_default();
    lines.sort();
    lines
}

#[test]
fn single_partition_populates_all_tables() {
    let mut store = empty_store();
    let result = load(&mut store, 0.01, 1, 0);
    match result {
        Action::Finish(summary) => {
            assert_eq!(summary.message("0.01"), "TPC-H SF=0.01 loaded (part 1/1)")
        }
        _ => panic!("the load did not go through"),
    }
    assert_eq!(store.resets, 1);
    assert!(store.staged.is_empty());
    assert_eq!(store.tables[&Table::Region].len(), 5);
    assert_eq!(store.tables[&Table::Nation].len(), 25);
    assert_eq!(store.tables[&Table::Part].len(), 2000);
    assert_eq!(store.tables[&Table::Supplier].len(), 100);
    assert_eq!(store.tables[&Table::Partsupp].len(), 8000);
    assert_eq!(store.tables[&Table::Customer].len(), 1500);
    assert_eq!(store.tables[&Table::Orders].len(), 15000);
    assert!(store.tables[&Table::Lineitem].len() > 15000);
}

#[test]
fn reset_request_empties_the_tables() {
    let mut store = empty_store();
    load(&mut store, 0.01, 1, 0);
    let result = load(&mut store, 0.0, 1, 0);
    match result {
        Action::Finish(summary) => assert_eq!(summary.message("0"), "TPC-H tables truncated"),
        _ => panic!("the reset did not go through"),
    }
    assert_eq!(store.resets, 2);
    for table in Table::load_order() {
        assert!(sorted(&store, table).is_empty());
    }
}

#[test]
fn reset_twice_leaves_the_tables_empty_both_times() {
    let mut store = empty_store();
    load(&mut store, 0.01, 1, 0);
    for resets in 2..4 {
        load(&mut store, 0.0, 1, 0);
        assert_eq!(store.resets, resets);
        assert!(store.tables.is_empty());
        assert!(store.staged.is_empty());
    }
}

#[test]
fn rejected_request_touches_no_table() {
    let mut store = empty_store();
    load(&mut store, 0.01, 1, 0);
    let before: Vec<Vec<String>> =
        Table::load_order().into_iter().map(|table| sorted(&store, table)).collect();
    for (children, step) in [(0, 0), (4, 4), (4, -1), (-2, 0)] {
        let result = load(&mut store, 0.01, children, step);
        assert!(matches!(result, Action::Fail(_)));
    }
    let after: Vec<Vec<String>> =
        Table::load_order().into_iter().map(|table| sorted(&store, table)).collect();
    assert_eq!(store.resets, 1);
    assert_eq!(before, after);
}

/// A store loaded in one partition and a store loaded in four, step by
/// step.
fn whole_and_split() -> (Store, Store) {
    let mut whole = empty_store();
    load(&mut whole, 0.01, 1, 0);

    let mut split = empty_store();
    for step in 0..4 {
        let result = load(&mut split, 0.01, 4, step);
        match result {
            Action::Finish(summary) => assert_eq!(
                summary.message("0.01"),
                format!("TPC-H SF=0.01 loaded (part {}/4)", step + 1)
            ),
            _ => panic!("the load did not go through"),
        }
        assert_eq!(split.resets, 1);
    }
    (whole, split)
}

#[test]
fn four_partitions_add_up_for_the_scaled_tables() {
    let (whole, split) = whole_and_split();
    for table in [
        Table::Part,
        Table::Supplier,
        Table::Partsupp,
        Table::Customer,
        Table::Orders,
        Table::Lineitem,
    ] {
        assert_eq!(sorted(&split, table), sorted(&whole, table));
    }
}

#[test]
fn every_partition_brings_the_fixed_tables_whole() {
    // The generators of region and nation take no notice of the partition,
    // so a load in four partitions leaves four copies of each of their
    // rows.
    let (whole, split) = whole_and_split();
    for table in [Table::Region, Table::Nation] {
        let mut repeated = Vec::new();
        for line in sorted(&whole, table) {
            for _ in 0..4 {
                repeated.push(line.clone());
            }
        }
        assert_eq!(sorted(&split, table), repeated);
        assert_ne!(sorted(&split, table), sorted(&whole, table));
    }
}

#[test]
fn partitions_of_a_table_do_not_overlap() {
    for table in [Table::Part, Table::Supplier, Table::Customer, Table::Orders] {
        let mut whole = rows(table, 0.01, 1, 1);
        whole.sort();
        let mut distinct = whole.clone();
        distinct.dedup();
        assert_eq!(distinct.len(), whole.len());
        let mut union = Vec::new();
        for part in 1..=3 {
            union.extend(rows(table, 0.01, part, 3));
        }
        union.sort();
        assert_eq!(union, whole);
    }
}

#[test]
fn generator_headers_are_the_table_headers() {
    assert_eq!(Table::Region.header(), RegionCsv::header());
    assert_eq!(Table::Nation.header(), NationCsv::header());
    assert_eq!(Table::Part.header(), PartCsv::header());
    assert_eq!(Table::Supplier.header(), SupplierCsv::header());
    assert_eq!(Table::Partsupp.header(), PartSuppCsv::header());
    assert_eq!(Table::Customer.header(), CustomerCsv::header());
    assert_eq!(Table::Orders.header(), OrderCsv::header());
    assert_eq!(Table::Lineitem.header(), LineItemCsv::header());
}

#[test]
fn scale_one_has_the_reference_sizes() {
    let request = LoadRequest { scale: ScaleFactor::from_bits(1.0f64.to_bits()), children: 1, step: 0 };
    let mut run = LoadRun::begin(request);
    let mut counts: Vec<(Table, usize)> = Vec::new();
    let result = loop {
        match run.action() {
            Action::Stage { table, scale, partition } => {
                let (part, parts) = partition.generator_arguments().unwrap();
                let scale = f64::from_bits(scale.to_bits());
                let count = match table {
                    Table::Region => RegionGenerator::new(scale, part, parts).iter().count(),
                    Table::Nation => NationGenerator::new(scale, part, parts).iter().count(),
                    Table::Part => PartGenerator::new(scale, part, parts).iter().count(),
                    Table::Supplier => SupplierGenerator::new(scale, part, parts).iter().count(),
                    Table::Partsupp => PartSuppGenerator::new(scale, part, parts).iter().count(),
                    Table::Customer => CustomerGenerator::new(scale, part, parts).iter().count(),
                    Table::Orders => OrderGenerator::new(scale, part, parts).iter().count(),
                    Table::Lineitem => LineItemGenerator::new(scale, part, parts).iter().count(),
                };
                counts.push((table, count));
            }
            Action::Finish(summary) => break summary.message(&format!("{}", 1.0)),
            Action::Fail(error) => panic!("{}", error.message()),
            _ => {}
        }
        run = run.advance(Outcome::Done);
    };
    assert_eq!(result, "TPC-H SF=1 loaded (part 1/1)");
    assert_eq!(
        counts,
        vec![
            (Table::Region, 5),
            (Table::Nation, 25),
            (Table::Part, 200000),
            (Table::Supplier, 10000),
            (Table::Partsupp, 800000),
            (Table::Customer, 150000),
            (Table::Orders, 1500000),
            (Table::Lineitem, 6001215),
        ]
    );
}
