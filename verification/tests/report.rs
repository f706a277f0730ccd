use cpp_catalog::checker::{
    CppCheckerEnv, CppCheckerInfo, CppCheckerInfoList, Target,
};
use cpp_catalog::database::{CppFfiMethod, Database, DatabaseItemSource};
use cpp_catalog::facts::{
    CppBaseSpecifier, CppClassField, CppEnumValue, CppItemData, CppMethod, CppTypeData,
    CppTypeDataKind, CppVisibility,
};
use cpp_catalog::text::{i64_to_string, u64_to_string};

fn env(version: Option<&str>) -> CppCheckerEnv {
    CppCheckerEnv {
        target: Target {
            arch: "x86_64".to_owned(),
            os: "linux".to_owned(),
            family: "unix".to_owned(),
            env: "gnu".to_owned(),
        },
        cpp_library_version: version.map(|v| v.to_owned()),
    }
}

fn enum_value(name: &str, value: i64) -> CppItemData {
    CppItemData::EnumValue(CppEnumValue {
        enum_name: "A".to_owned(),
        name: name.to_owned(),
        value,
    })
}

#[test]
fn enum_value_rows_in_order() {
    // Two enum-value facts render two rows, in ingestion order, with the
    // fixed wording.
    let mut db = Database::empty("qt_core");
    db.add_cpp_data(DatabaseItemSource::Destructor, enum_value("X", 1));
    db.add_cpp_data(DatabaseItemSource::Destructor, enum_value("Y", 2));
    let rows = db.report_rows();
    assert_eq!(rows.len(), 2);
    assert_eq!(rows[0].item_text, "enum A { X = 1, ... }");
    assert_eq!(rows[1].item_text, "enum A { Y = 2, ... }");
}

#[test]
fn type_and_field_texts() {
    let enum_type = CppItemData::Type(CppTypeData {
        name: "Qt::Key".to_owned(),
        kind: CppTypeDataKind::Enum,
    });
    assert_eq!(enum_type.to_text(), "enum Qt::Key");
    let class_type = CppItemData::Type(CppTypeData {
        name: "QWidget".to_owned(),
        kind: CppTypeDataKind::Class {
            type_base: "QWidget".to_owned(),
        },
    });
    assert_eq!(class_type.to_text(), "class QWidget");
    let field = CppItemData::ClassField(CppClassField {
        class_name: "QRect".to_owned(),
        descriptor: "int QRect::x1".to_owned(),
    });
    assert_eq!(field.to_text(), "int QRect::x1");
    let method = CppItemData::Method(CppMethod {
        signature: "int QObject::startTimer(int interval)".to_owned(),
    });
    assert_eq!(method.to_text(), "int QObject::startTimer(int interval)");
}

#[test]
fn empty_catalog_renders_no_rows() {
    let db = Database::empty("qt_core");
    assert_eq!(db.report_rows().len(), 0);
}

#[test]
fn class_base_texts() {
    let plain = CppItemData::ClassBase(CppBaseSpecifier {
        derived_class_type: "QWidget".to_owned(),
        base_class_type: "QObject".to_owned(),
        visibility: CppVisibility::Public,
        is_virtual: false,
        base_index: 0,
    });
    assert_eq!(plain.to_text(), "class QWidget : public QObject");
    let indexed = CppItemData::ClassBase(CppBaseSpecifier {
        derived_class_type: "QWidget".to_owned(),
        base_class_type: "QPaintDevice".to_owned(),
        visibility: CppVisibility::Protected,
        is_virtual: true,
        base_index: 1,
    });
    assert_eq!(
        indexed.to_text(),
        "class QWidget : virtual protected QPaintDevice (index: 1)"
    );
    let private_base = CppItemData::ClassBase(CppBaseSpecifier {
        derived_class_type: "QTimer".to_owned(),
        base_class_type: "QObject".to_owned(),
        visibility: CppVisibility::Private,
        is_virtual: false,
        base_index: 0,
    });
    assert_eq!(private_base.to_text(), "class QTimer : private QObject");
}

#[test]
fn negative_enum_value_text() {
    assert_eq!(enum_value("Invalid", -1).to_text(), "enum A { Invalid = -1, ... }");
}

#[test]
fn environment_short_text() {
    assert_eq!(env(Some("5.9.1")).short_text(), "5.9.1/x86_64-linux-unix-gnu");
    assert_eq!(env(None).short_text(), "None/x86_64-linux-unix-gnu");
}

#[test]
fn error_log_texts() {
    assert_eq!(CppCheckerInfo::error_to_log(&None), "<span class='ok'>OK</span>");
    assert_eq!(
        CppCheckerInfo::error_to_log(&Some("link error".to_owned())),
        "<span class='ok'>Error</span> (link error)"
    );
}

#[test]
fn source_tags() {
    assert_eq!(
        DatabaseItemSource::CppParser {
            include_file: None,
            origin_location: None,
        }
        .tag_text(),
        "CppParser"
    );
    assert_eq!(DatabaseItemSource::Destructor.tag_text(), "Destructor");
    assert_eq!(
        DatabaseItemSource::TemplateInstantiation.tag_text(),
        "TemplateInstantiation"
    );
    assert_eq!(DatabaseItemSource::SignalArguments.tag_text(), "SignalArguments");
}

#[test]
fn wrapper_rows_with_check_lines() {
    let mut db = Database::empty("qt_core");
    db.add_cpp_data(DatabaseItemSource::Destructor, enum_value("X", 1));
    let mut checks = CppCheckerInfoList { items: Vec::new() };
    checks.add(&env(Some("5.9.1")), None);
    checks.add(&env(None), Some("link error".to_owned()));
    db.items[0].cpp_ffi_methods.push(CppFfiMethod {
        short_text: "qt_core_ffi_A_X()".to_owned(),
        checks,
    });
    let rows = db.report_rows();
    assert_eq!(rows.len(), 1);
    assert_eq!(rows[0].source_text, "Destructor");
    assert_eq!(rows[0].methods.len(), 1);
    assert_eq!(rows[0].methods[0].method_text, "qt_core_ffi_A_X()");
    assert_eq!(
        rows[0].methods[0].check_lines,
        vec![
            "5.9.1/x86_64-linux-unix-gnu: <span class='ok'>OK</span>".to_owned(),
            "None/x86_64-linux-unix-gnu: <span class='ok'>Error</span> (link error)".to_owned(),
        ]
    );
    // Rendering is a pure read: the catalog is unchanged and renders the
    // same rows again.
    let rows_again = db.report_rows();
    assert_eq!(rows_again.len(), 1);
    assert_eq!(rows_again[0].methods[0].check_lines, rows[0].methods[0].check_lines);
}

#[test]
fn decimal_renderings() {
    assert_eq!(u64_to_string(0), "0");
    assert_eq!(u64_to_string(10), "10");
    assert_eq!(u64_to_string(90210), "90210");
    assert_eq!(u64_to_string(u64::MAX), "18446744073709551615");
    assert_eq!(i64_to_string(0), "0");
    assert_eq!(i64_to_string(-7), "-7");
    assert_eq!(i64_to_string(i64::MIN), "-9223372036854775808");
    assert_eq!(i64_to_string(i64::MAX), "9223372036854775807");
}
