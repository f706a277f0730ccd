use cpp_catalog::checker::{CppCheckerEnv, Target};
use cpp_catalog::database::{CppOriginLocation, Database, DatabaseItemSource};
use cpp_catalog::facts::{
    CppBaseSpecifier, CppEnumValue, CppItemData, CppMethod, CppTypeData, CppTypeDataKind,
    CppVisibility,
};

fn class_fact(name: &str, base: &str) -> CppItemData {
    CppItemData::Type(CppTypeData {
        name: name.to_owned(),
        kind: CppTypeDataKind::Class {
            type_base: base.to_owned(),
        },
    })
}

fn enum_fact(name: &str) -> CppItemData {
    CppItemData::Type(CppTypeData {
        name: name.to_owned(),
        kind: CppTypeDataKind::Enum,
    })
}

fn parser_source(line: u32, column: u32) -> DatabaseItemSource {
    DatabaseItemSource::CppParser {
        include_file: Some("widget.h".to_owned()),
        origin_location: Some(CppOriginLocation { line, column }),
    }
}

fn sample_env() -> CppCheckerEnv {
    CppCheckerEnv {
        target: Target {
            arch: "x86_64".to_owned(),
            os: "linux".to_owned(),
            family: "unix".to_owned(),
            env: "gnu".to_owned(),
        },
        cpp_library_version: Some("5.9.1".to_owned()),
    }
}

#[test]
fn empty_catalog() {
    let db = Database::empty("qt_core");
    assert_eq!(db.crate_name(), "qt_core");
    assert_eq!(db.items().len(), 0);
    assert_eq!(db.environments.len(), 0);
}

#[test]
fn ingest_is_idempotent() {
    let mut db = Database::empty("qt_core");
    let created = db.add_cpp_data(DatabaseItemSource::Destructor, class_fact("QObject", "QObject"));
    assert!(created);
    let created_again =
        db.add_cpp_data(DatabaseItemSource::Destructor, class_fact("QObject", "QObject"));
    assert!(!created_again);
    assert_eq!(db.items().len(), 1);
}

#[test]
fn distinct_facts_append_in_order() {
    let mut db = Database::empty("qt_core");
    assert!(db.add_cpp_data(DatabaseItemSource::Destructor, enum_fact("Qt::Key")));
    assert!(db.add_cpp_data(DatabaseItemSource::SignalArguments, class_fact("QWidget", "QWidget")));
    assert_eq!(db.items().len(), 2);
    assert!(db.items()[0].cpp_data.is_same(&enum_fact("Qt::Key")));
    assert!(db.items()[1].cpp_data.is_same(&class_fact("QWidget", "QWidget")));
}

#[test]
fn provenance_upgrades_to_parser() {
    let mut db = Database::empty("qt_core");
    db.add_cpp_data(DatabaseItemSource::Destructor, class_fact("QObject", "QObject"));
    assert!(!db.items()[0].source.is_parser());
    let created = db.add_cpp_data(parser_source(10, 3), class_fact("QObject", "QObject"));
    assert!(!created);
    assert_eq!(db.items().len(), 1);
    assert!(db.items()[0].source.is_parser());
}

#[test]
fn provenance_stays_parser() {
    let mut db = Database::empty("qt_core");
    db.add_cpp_data(parser_source(10, 3), class_fact("QObject", "QObject"));
    let created = db.add_cpp_data(DatabaseItemSource::Destructor, class_fact("QObject", "QObject"));
    assert!(!created);
    assert_eq!(db.items().len(), 1);
    assert!(db.items()[0].source.is_parser());
}

#[test]
fn parser_location_is_kept() {
    // Scenario: a class fact arrives from the parser at a location, then a
    // structurally equal fact from the destructor synthesizer: one entry,
    // parser provenance, first-seen location.
    let mut db = Database::empty("qt_core");
    db.add_cpp_data(parser_source(42, 7), class_fact("QTimer", "QTimer"));
    db.add_cpp_data(DatabaseItemSource::Destructor, class_fact("QTimer", "QTimer"));
    assert_eq!(db.items().len(), 1);
    match &db.items()[0].source {
        DatabaseItemSource::CppParser {
            include_file,
            origin_location,
        } => {
            assert_eq!(include_file.as_deref(), Some("widget.h"));
            let loc = origin_location.expect("location kept");
            assert_eq!(loc.line, 42);
            assert_eq!(loc.column, 7);
        }
        _ => panic!("provenance is not parser-discovered"),
    }
}

#[test]
fn ingestion_order_does_not_change_pairs() {
    // The same set of (origin, fact) pairs in two orders: same
    // (fact, final provenance) pairs, order of first discovery kept.
    let runs: [[usize; 3]; 2] = [[0, 1, 2], [2, 1, 0]];
    let mut summaries: Vec<Vec<(String, bool)>> = Vec::new();
    for order in runs.iter() {
        let mut db = Database::empty("qt_core");
        for &which in order.iter() {
            match which {
                0 => db.add_cpp_data(DatabaseItemSource::Destructor, class_fact("QObject", "QObject")),
                1 => db.add_cpp_data(parser_source(10, 3), class_fact("QObject", "QObject")),
                _ => db.add_cpp_data(DatabaseItemSource::SignalArguments, enum_fact("Qt::Key")),
            };
        }
        let mut pairs: Vec<(String, bool)> = db
            .items()
            .iter()
            .map(|it| (it.cpp_data.to_text(), it.source.is_parser()))
            .collect();
        pairs.sort();
        summaries.push(pairs);
    }
    assert_eq!(summaries[0], summaries[1]);
}

#[test]
fn no_operation_deletes_entries() {
    let mut db = Database::empty("qt_core");
    db.add_cpp_data(parser_source(1, 1), enum_fact("Qt::Key"));
    db.add_cpp_data(DatabaseItemSource::Destructor, class_fact("QObject", "QObject"));
    let texts_before: Vec<String> =
        db.items().iter().map(|it| it.cpp_data.to_text()).collect();
    db.add_cpp_data(parser_source(9, 9), class_fact("QObject", "QObject"));
    db.add_cpp_data(DatabaseItemSource::TemplateInstantiation, enum_fact("Qt::Key"));
    db.add_environment(&sample_env());
    let texts_after: Vec<String> = db.items().iter().map(|it| it.cpp_data.to_text()).collect();
    assert_eq!(texts_before, texts_after[..texts_before.len()].to_vec());
    assert!(db.items().len() >= texts_before.len());
}

#[test]
fn environment_registry_deduplicates() {
    let mut db = Database::empty("qt_core");
    assert!(db.add_environment(&sample_env()));
    assert!(!db.add_environment(&sample_env()));
    assert_eq!(db.environments.len(), 1);
    let mut other = sample_env();
    other.cpp_library_version = None;
    assert!(db.add_environment(&other));
    assert_eq!(db.environments.len(), 2);
}

#[test]
fn is_same_distinguishes_variants_and_fields() {
    let method = CppItemData::Method(CppMethod {
        signature: "int QObject::startTimer(int interval)".to_owned(),
    });
    let same_method = CppItemData::Method(CppMethod {
        signature: "int QObject::startTimer(int interval)".to_owned(),
    });
    let other_method = CppItemData::Method(CppMethod {
        signature: "void QObject::killTimer(int id)".to_owned(),
    });
    assert!(method.is_same(&same_method));
    assert!(!method.is_same(&other_method));
    assert!(!method.is_same(&enum_fact("Qt::Key")));
    let base = CppItemData::ClassBase(CppBaseSpecifier {
        derived_class_type: "QWidget".to_owned(),
        base_class_type: "QObject".to_owned(),
        visibility: CppVisibility::Public,
        is_virtual: false,
        base_index: 0,
    });
    let base_other_index = CppItemData::ClassBase(CppBaseSpecifier {
        derived_class_type: "QWidget".to_owned(),
        base_class_type: "QObject".to_owned(),
        visibility: CppVisibility::Public,
        is_virtual: false,
        base_index: 1,
    });
    assert!(!base.is_same(&base_other_index));
    let value = CppItemData::EnumValue(CppEnumValue {
        enum_name: "Qt::Key".to_owned(),
        name: "Key_A".to_owned(),
        value: 65,
    });
    let value_other = CppItemData::EnumValue(CppEnumValue {
        enum_name: "Qt::Key".to_owned(),
        name: "Key_A".to_owned(),
        value: 66,
    });
    assert!(!value.is_same(&value_other));
}
