//! The declaration-fact model: one immutable, semantically comparable
//! description of a single C++ declaration, with its structural-equality
//! relation (the deduplication key) and its human-readable rendering.

use crate::text::{i64_to_string, spec_dec_int, spec_dec_nat, u64_to_string};
use vstd::prelude::*;

verus! {

/// Placeholder for class-field data not yet modeled by the store.
pub struct CppField;

/// Visibility of a C++ class member or base.
#[derive(Clone, Copy, PartialEq, Eq, Structural, Debug)]
pub enum CppVisibility {
    Public,
    Protected,
    Private,
}

/// Kind of a named C++ type: an enum, or a class with its base-type
/// descriptor rendered as C++ pseudo-code.
#[derive(Debug)]
pub enum CppTypeDataKind {
    Enum,
    Class { type_base: String },
}

/// A named C++ type declaration.
#[derive(Debug)]
pub struct CppTypeData {
    pub name: String,
    pub kind: CppTypeDataKind,
}

/// One value of a C++ enum.
#[derive(Debug)]
pub struct CppEnumValue {
    pub enum_name: String,
    pub name: String,
    pub value: i64,
}

/// A C++ method, carried as its full signature descriptor.
#[derive(Debug)]
pub struct CppMethod {
    pub signature: String,
}

/// A field of a C++ class: the owning class and the field's own short
/// descriptor text.
#[derive(Debug)]
pub struct CppClassField {
    pub class_name: String,
    pub descriptor: String,
}

/// A base-class relationship, with the derived and base types rendered as
/// C++ pseudo-code, and the base index for multiple-inheritance ordering.
#[derive(Debug)]
pub struct CppBaseSpecifier {
    pub derived_class_type: String,
    pub base_class_type: String,
    pub visibility: CppVisibility,
    pub is_virtual: bool,
    pub base_index: u64,
}

#[verifier::ext_equal]
pub enum CppTypeDataKindView {
    Enum,
    Class { type_base: Seq<char> },
}

#[verifier::ext_equal]
pub struct CppTypeDataView {
    pub name: Seq<char>,
    pub kind: CppTypeDataKindView,
}

#[verifier::ext_equal]
pub struct CppEnumValueView {
    pub enum_name: Seq<char>,
    pub name: Seq<char>,
    pub value: int,
}

#[verifier::ext_equal]
pub struct CppMethodView {
    pub signature: Seq<char>,
}

#[verifier::ext_equal]
pub struct CppClassFieldView {
    pub class_name: Seq<char>,
    pub descriptor: Seq<char>,
}

#[verifier::ext_equal]
pub struct CppBaseSpecifierView {
    pub derived_class_type: Seq<char>,
    pub base_class_type: Seq<char>,
    pub visibility: CppVisibility,
    pub is_virtual: bool,
    pub base_index: int,
}

impl View for CppTypeDataKind {
    type V = CppTypeDataKindView;

    open spec fn view(&self) -> CppTypeDataKindView {
        match self {
            CppTypeDataKind::Enum => CppTypeDataKindView::Enum,
            CppTypeDataKind::Class { type_base } => CppTypeDataKindView::Class {
                type_base: type_base@,
            },
        }
    }
}

impl View for CppTypeData {
    type V = CppTypeDataView;

    open spec fn view(&self) -> CppTypeDataView {
        CppTypeDataView { name: self.name@, kind: self.kind@ }
    }
}

impl View for CppEnumValue {
    type V = CppEnumValueView;

    open spec fn view(&self) -> CppEnumValueView {
        CppEnumValueView { enum_name: self.enum_name@, name: self.name@, value: self.value as int }
    }
}

impl View for CppMethod {
    type V = CppMethodView;

    open spec fn view(&self) -> CppMethodView {
        CppMethodView { signature: self.signature@ }
    }
}

impl View for CppClassField {
    type V = CppClassFieldView;

    open spec fn view(&self) -> CppClassFieldView {
        CppClassFieldView { class_name: self.class_name@, descriptor: self.descriptor@ }
    }
}

impl View for CppBaseSpecifier {
    type V = CppBaseSpecifierView;

    open spec fn view(&self) -> CppBaseSpecifierView {
        CppBaseSpecifierView {
            derived_class_type: self.derived_class_type@,
            base_class_type: self.base_class_type@,
            visibility: self.visibility,
            is_virtual: self.is_virtual,
            base_index: self.base_index as int,
        }
    }
}

/// One declaration fact: a closed variant over the declaration kinds the
/// store records.
#[derive(Debug)]
pub enum CppItemData {
    Type(CppTypeData),
    EnumValue(CppEnumValue),
    Method(CppMethod),
    ClassField(CppClassField),
    ClassBase(CppBaseSpecifier),
}

#[verifier::ext_equal]
pub enum CppItemDataView {
    Type(CppTypeDataView),
    EnumValue(CppEnumValueView),
    Method(CppMethodView),
    ClassField(CppClassFieldView),
    ClassBase(CppBaseSpecifierView),
}

impl View for CppItemData {
    type V = CppItemDataView;

    open spec fn view(&self) -> CppItemDataView {
        match self {
            CppItemData::Type(v) => CppItemDataView::Type(v@),
            CppItemData::EnumValue(v) => CppItemDataView::EnumValue(v@),
            CppItemData::Method(v) => CppItemDataView::Method(v@),
            CppItemData::ClassField(v) => CppItemDataView::ClassField(v@),
            CppItemData::ClassBase(v) => CppItemDataView::ClassBase(v@),
        }
    }
}

impl CppTypeData {
    /// Structural equality of two type declarations.
    pub fn is_same(&self, other: &CppTypeData) -> (r: bool)
        ensures
            r == (self@ == other@),
    {
        let kinds_same = match (&self.kind, &other.kind) {
            (CppTypeDataKind::Enum, CppTypeDataKind::Enum) => true,
            (
                CppTypeDataKind::Class { type_base: a },
                CppTypeDataKind::Class { type_base: b },
            ) => *a == *b,
            _ => false,
        };
        self.name == other.name && kinds_same
    }
}

impl CppEnumValue {
    /// Structural equality of two enum values.
    pub fn is_same(&self, other: &CppEnumValue) -> (r: bool)
        ensures
            r == (self@ == other@),
    {
        self.enum_name == other.enum_name && self.name == other.name && self.value == other.value
    }
}

impl CppMethod {
    /// Structural equality of two method declarations.
    pub fn is_same(&self, other: &CppMethod) -> (r: bool)
        ensures
            r == (self@ == other@),
    {
        self.signature == other.signature
    }
}

impl CppClassField {
    /// Structural equality of two class fields.
    pub fn is_same(&self, other: &CppClassField) -> (r: bool)
        ensures
            r == (self@ == other@),
    {
        self.class_name == other.class_name && self.descriptor == other.descriptor
    }
}

impl CppBaseSpecifier {
    /// Structural equality of two base-class relationships.
    pub fn is_same(&self, other: &CppBaseSpecifier) -> (r: bool)
        ensures
            r == (self@ == other@),
    {
        self.derived_class_type == other.derived_class_type
            && self.base_class_type == other.base_class_type
            && self.visibility == other.visibility && self.is_virtual == other.is_virtual
            && self.base_index == other.base_index
    }
}

/// The verbatim textual form of a visibility, as the report renders it.
pub open spec fn spec_visibility_text(v: CppVisibility) -> Seq<char> {
    match v {
        CppVisibility::Public => "public"@,
        CppVisibility::Protected => "protected"@,
        CppVisibility::Private => "private"@,
    }
}

/// The verbatim textual form of a declaration fact, as the report renders
/// it: one fixed wording per variant.
pub open spec fn spec_item_text(d: CppItemDataView) -> Seq<char> {
    match d {
        CppItemDataView::Type(t) => match t.kind {
            CppTypeDataKindView::Enum => "enum "@ + t.name,
            CppTypeDataKindView::Class { type_base } => "class "@ + type_base,
        },
        CppItemDataView::Method(m) => m.signature,
        CppItemDataView::EnumValue(v) => "enum "@ + v.enum_name + " { "@ + v.name + " = "@
            + spec_dec_int(v.value) + ", ... }"@,
        CppItemDataView::ClassField(f) => f.descriptor,
        CppItemDataView::ClassBase(b) => "class "@ + b.derived_class_type + " : "@ + (if b.is_virtual {
            "virtual "@
        } else {
            Seq::<char>::empty()
        }) + spec_visibility_text(b.visibility) + " "@ + b.base_class_type + (if b.base_index > 0 {
            " (index: "@ + spec_dec_nat(b.base_index as nat) + ")"@
        } else {
            Seq::<char>::empty()
        }),
    }
}

impl CppItemData {
    /// Structural equality on the semantically identifying attributes of a
    /// declaration; this relation, not identity, keys deduplication.
    pub fn is_same(&self, other: &CppItemData) -> (r: bool)
        ensures
            r == (self@ == other@),
    {
        match (self, other) {
            (CppItemData::Type(v), CppItemData::Type(v2)) => v.is_same(v2),
            (CppItemData::EnumValue(v), CppItemData::EnumValue(v2)) => v.is_same(v2),
            (CppItemData::Method(v), CppItemData::Method(v2)) => v.is_same(v2),
            (CppItemData::ClassField(v), CppItemData::ClassField(v2)) => v.is_same(v2),
            (CppItemData::ClassBase(v), CppItemData::ClassBase(v2)) => v.is_same(v2),
            _ => false,
        }
    }

    /// The variant-specific human-readable rendering of the fact.
    pub fn to_text(&self) -> (r: String)
        ensures
            r@ == spec_item_text(self@),
    {
        match self {
            CppItemData::Type(t) => match &t.kind {
                CppTypeDataKind::Enum => {
                    let mut s = ("enum ").to_owned();
                    s.append(t.name.as_str());
                    s
                },
                CppTypeDataKind::Class { type_base } => {
                    let mut s = ("class ").to_owned();
                    s.append(type_base.as_str());
                    s
                },
            },
            CppItemData::Method(m) => m.signature.clone(),
            CppItemData::EnumValue(v) => {
                let mut s = ("enum ").to_owned();
                s.append(v.enum_name.as_str());
                s.append(" { ");
                s.append(v.name.as_str());
                s.append(" = ");
                let num = i64_to_string(v.value);
                s.append(num.as_str());
                s.append(", ... }");
                proof {
                    assert(s@ =~= spec_item_text(self@));
                }
                s
            },
            CppItemData::ClassField(f) => f.descriptor.clone(),
            CppItemData::ClassBase(b) => {
                let mut s = ("class ").to_owned();
                s.append(b.derived_class_type.as_str());
                s.append(" : ");
                if b.is_virtual {
                    s.append("virtual ");
                }
                match b.visibility {
                    CppVisibility::Public => s.append("public"),
                    CppVisibility::Protected => s.append("protected"),
                    CppVisibility::Private => s.append("private"),
                }
                s.append(" ");
                s.append(b.base_class_type.as_str());
                if b.base_index > 0 {
                    s.append(" (index: ");
                    let num = u64_to_string(b.base_index);
                    s.append(num.as_str());
                    s.append(")");
                }
                proof {
                    assert(s@ =~= spec_item_text(self@));
                }
                s
            },
        }
    }
}

} // verus!
