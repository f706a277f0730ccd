//! The catalog: the aggregate metadata store for one generated crate. It
//! owns the ordered, append-only list of catalog entries, deduplicated by
//! structural equality of their declaration facts, plus the set of build
//! environments it has ever been validated against.

use crate::checker::{CppCheckerEnv, CppCheckerEnvView, CppCheckerInfoList, CppCheckerInfoView};
use crate::facts::{CppItemData, CppItemDataView};
use vstd::prelude::*;

verus! {

/// Exact location of a declaration inside a header file.
#[derive(Clone, Copy, PartialEq, Eq, Structural, Debug)]
pub struct CppOriginLocation {
    pub line: u32,
    pub column: u32,
}

/// Which producer contributed a declaration fact. Parser-discovered
/// provenance is authoritative and wins over any synthesized provenance.
#[derive(Debug)]
pub enum DatabaseItemSource {
    CppParser {
        /// File name of the include file (without full path).
        include_file: Option<String>,
        /// Exact location of the declaration.
        origin_location: Option<CppOriginLocation>,
    },
    Destructor,
    TemplateInstantiation,
    SignalArguments,
}

#[verifier::ext_equal]
pub enum DatabaseItemSourceView {
    CppParser { include_file: Option<Seq<char>>, origin_location: Option<CppOriginLocation> },
    Destructor,
    TemplateInstantiation,
    SignalArguments,
}

impl View for DatabaseItemSource {
    type V = DatabaseItemSourceView;

    open spec fn view(&self) -> DatabaseItemSourceView {
        match self {
            DatabaseItemSource::CppParser { include_file, origin_location } => {
                DatabaseItemSourceView::CppParser {
                    include_file: crate::checker::opt_text(*include_file),
                    origin_location: *origin_location,
                }
            },
            DatabaseItemSource::Destructor => DatabaseItemSourceView::Destructor,
            DatabaseItemSource::TemplateInstantiation => {
                DatabaseItemSourceView::TemplateInstantiation
            },
            DatabaseItemSource::SignalArguments => DatabaseItemSourceView::SignalArguments,
        }
    }
}

impl DatabaseItemSource {
    /// Whether this provenance is parser-discovered.
    pub fn is_parser(&self) -> (r: bool)
        ensures
            r == (self@ is CppParser),
    {
        match self {
            DatabaseItemSource::CppParser { .. } => true,
            _ => false,
        }
    }
}

/// A generated low-level wrapper function: its short signature text and
/// its own checker ledger.
#[derive(Debug)]
pub struct CppFfiMethod {
    pub short_text: String,
    pub checks: CppCheckerInfoList,
}

#[verifier::ext_equal]
pub struct CppFfiMethodView {
    pub short_text: Seq<char>,
    pub checks: Seq<CppCheckerInfoView>,
}

impl View for CppFfiMethod {
    type V = CppFfiMethodView;

    open spec fn view(&self) -> CppFfiMethodView {
        CppFfiMethodView { short_text: self.short_text@, checks: self.checks@ }
    }
}

/// One catalog entry: a declaration fact, its current provenance, and the
/// generated wrapper functions attached to it.
#[derive(Debug)]
pub struct DatabaseItem {
    pub cpp_data: CppItemData,
    pub source: DatabaseItemSource,
    pub cpp_ffi_methods: Vec<CppFfiMethod>,
}

#[verifier::ext_equal]
pub struct DatabaseItemView {
    pub cpp_data: CppItemDataView,
    pub source: DatabaseItemSourceView,
    pub cpp_ffi_methods: Seq<CppFfiMethodView>,
}

impl View for DatabaseItem {
    type V = DatabaseItemView;

    open spec fn view(&self) -> DatabaseItemView {
        DatabaseItemView {
            cpp_data: self.cpp_data@,
            source: self.source@,
            cpp_ffi_methods: self.cpp_ffi_methods@.map_values(|m: CppFfiMethod| m@),
        }
    }
}

/// All collected data related to one generated crate.
#[derive(Debug)]
pub struct Database {
    pub crate_name: String,
    pub items: Vec<DatabaseItem>,
    pub environments: Vec<CppCheckerEnv>,
}

#[verifier::ext_equal]
pub struct DatabaseView {
    pub crate_name: Seq<char>,
    pub items: Seq<DatabaseItemView>,
    pub environments: Seq<CppCheckerEnvView>,
}

impl View for Database {
    type V = DatabaseView;

    open spec fn view(&self) -> DatabaseView {
        DatabaseView {
            crate_name: self.crate_name@,
            items: self.items@.map_values(|i: DatabaseItem| i@),
            environments: self.environments@.map_values(|e: CppCheckerEnv| e@),
        }
    }
}

/// The first catalog position whose fact structurally equals `fact`.
pub open spec fn find_fact(items: Seq<DatabaseItemView>, fact: CppItemDataView) -> Option<int>
    decreases items.len(),
{
    if items.len() == 0 {
        None
    } else if items[0].cpp_data == fact {
        Some(0int)
    } else {
        match find_fact(items.drop_first(), fact) {
            Some(i) => Some(i + 1),
            None => None,
        }
    }
}

/// `find_fact` returns the first matching position: a match in bounds with
/// no earlier match, or `None` exactly when no position matches.
pub proof fn lemma_find_fact(items: Seq<DatabaseItemView>, fact: CppItemDataView)
    ensures
        match find_fact(items, fact) {
            Some(i) => 0 <= i < items.len() && items[i].cpp_data == fact && (forall|j: int|
                0 <= j < i ==> items[j].cpp_data != fact),
            None => forall|j: int| 0 <= j < items.len() ==> items[j].cpp_data != fact,
        },
    decreases items.len(),
{
    if items.len() == 0 {
    } else if items[0].cpp_data == fact {
    } else {
        let rest = items.drop_first();
        lemma_find_fact(rest, fact);
        match find_fact(rest, fact) {
            Some(i) => {
                assert(items[i + 1] == rest[i]);
                assert forall|j: int| 0 <= j < i + 1 implies items[j].cpp_data != fact by {
                    if j >= 1 {
                        assert(items[j] == rest[j - 1]);
                    }
                }
            },
            None => {
                assert forall|j: int| 0 <= j < items.len() implies items[j].cpp_data != fact by {
                    if j >= 1 {
                        assert(items[j] == rest[j - 1]);
                    }
                }
            },
        }
    }
}

/// A position that matches `fact`, with no earlier match, is the one
/// `find_fact` returns.
pub proof fn lemma_find_fact_unique(
    items: Seq<DatabaseItemView>,
    fact: CppItemDataView,
    i: int,
)
    requires
        0 <= i < items.len(),
        items[i].cpp_data == fact,
        forall|j: int| 0 <= j < i ==> items[j].cpp_data != fact,
    ensures
        find_fact(items, fact) == Some(i),
{
    lemma_find_fact(items, fact);
    match find_fact(items, fact) {
        Some(k) => {
            if k < i {
                assert(items[k].cpp_data != fact);
            } else if k > i {
                assert(items[i].cpp_data != fact);
            }
        },
        None => {
            assert(items[i].cpp_data != fact);
        },
    }
}

/// Whether ingesting `fact` creates a new catalog entry.
pub open spec fn ingest_creates(db: DatabaseView, fact: CppItemDataView) -> bool {
    find_fact(db.items, fact) is None
}

/// The provenance an existing entry keeps when the same fact arrives
/// again: parser-discovered provenance wins over synthesized provenance,
/// and nothing else changes.
pub open spec fn merged_source(
    existing: DatabaseItemSourceView,
    incoming: DatabaseItemSourceView,
) -> DatabaseItemSourceView {
    if incoming is CppParser && !(existing is CppParser) {
        incoming
    } else {
        existing
    }
}

/// The catalog after ingesting `(source, fact)`: a fresh fact is appended
/// as a new entry with no wrappers; a known fact leaves its entry in
/// place, at most upgrading its provenance.
pub open spec fn ingest_step(
    db: DatabaseView,
    source: DatabaseItemSourceView,
    fact: CppItemDataView,
) -> DatabaseView {
    match find_fact(db.items, fact) {
        None => DatabaseView {
            items: db.items.push(
                DatabaseItemView { cpp_data: fact, source, cpp_ffi_methods: Seq::empty() },
            ),
            ..db
        },
        Some(i) => DatabaseView {
            items: db.items.update(
                i,
                DatabaseItemView {
                    source: merged_source(db.items[i].source, source),
                    ..db.items[i]
                },
            ),
            ..db
        },
    }
}

/// The environment registry after registering `env`: grows by `env` only
/// if no structurally equal environment is present.
pub open spec fn register_step(
    envs: Seq<CppCheckerEnvView>,
    env: CppCheckerEnvView,
) -> Seq<CppCheckerEnvView> {
    if envs.contains(env) {
        envs
    } else {
        envs.push(env)
    }
}

impl Database {
    /// An empty catalog for a crate name.
    pub fn empty(crate_name: &str) -> (db: Database)
        ensures
            db@.crate_name == crate_name@,
            db@.items == Seq::<DatabaseItemView>::empty(),
            db@.environments == Seq::<CppCheckerEnvView>::empty(),
    {
        let db = Database {
            crate_name: crate_name.to_owned(),
            items: Vec::new(),
            environments: Vec::new(),
        };
        proof {
            assert(db@.items =~= Seq::<DatabaseItemView>::empty());
            assert(db@.environments =~= Seq::<CppCheckerEnvView>::empty());
        }
        db
    }

    /// Read-only access to the catalog entries, in stable insertion order.
    pub fn items(&self) -> (r: &[DatabaseItem])
        ensures
            r@ == self.items@,
    {
        self.items.as_slice()
    }

    /// The stable identifier of the whole store.
    pub fn crate_name(&self) -> (r: &str)
        ensures
            r@ == self@.crate_name,
    {
        self.crate_name.as_str()
    }

    /// Ingests one declaration fact: scans for a structurally equal fact,
    /// upgrading provenance to parser-discovered on a match, and appends a
    /// new entry otherwise. Returns whether a new entry was created.
    pub fn add_cpp_data(&mut self, source: DatabaseItemSource, data: CppItemData) -> (added:
        bool)
        ensures
            added == ingest_creates(old(self)@, data@),
            final(self)@ == ingest_step(old(self)@, source@, data@),
    {
        let n = self.items.len();
        let mut i: usize = 0;
        while i < n
            invariant
                n == self.items@.len(),
                i <= n,
                *self == *old(self),
                forall|j: int| 0 <= j < i ==> self@.items[j].cpp_data != data@,
            decreases n - i,
        {
            if self.items[i].cpp_data.is_same(&data) {
                proof {
                    assert(old(self)@.items[i as int].cpp_data == data@);
                    assert forall|j: int| 0 <= j < i implies old(self)@.items[j].cpp_data
                        != data@ by {
                        assert(self@.items[j].cpp_data != data@);
                    }
                    lemma_find_fact_unique(old(self)@.items, data@, i as int);
                }
                if source.is_parser() && !self.items[i].source.is_parser() {
                    let entry = &mut self.items[i];
                    entry.source = source;
                }
                proof {
                    let items0 = old(self)@.items;
                    let merged = merged_source(items0[i as int].source, source@);
                    assert(self.items@[i as int]@ == DatabaseItemView {
                        source: merged,
                        ..items0[i as int]
                    });
                    assert(self@.items =~= items0.update(
                        i as int,
                        DatabaseItemView { source: merged, ..items0[i as int] },
                    ));
                    assert(self@ == ingest_step(old(self)@, source@, data@));
                }
                return false;
            }
            i += 1;
        }
        proof {
            lemma_find_fact(old(self)@.items, data@);
            assert forall|j: int| 0 <= j < n implies old(self)@.items[j].cpp_data != data@ by {
                assert(self@.items[j].cpp_data != data@);
            }
            if find_fact(old(self)@.items, data@) is Some {
                let k = find_fact(old(self)@.items, data@)->Some_0;
                assert(old(self)@.items[k].cpp_data != data@);
            }
        }
        self.items.push(
            DatabaseItem { cpp_data: data, source, cpp_ffi_methods: Vec::new() },
        );
        proof {
            let appended = DatabaseItemView {
                cpp_data: data@,
                source: source@,
                cpp_ffi_methods: Seq::empty(),
            };
            assert(self@.items[n as int] =~= appended);
            assert(self@.items =~= old(self)@.items.push(appended));
            assert(self@ == ingest_step(old(self)@, source@, data@));
        }
        true
    }

    /// Registers a build environment in the catalog-level registry, which
    /// grows monotonically and never drops an environment. Returns whether
    /// the environment was new.
    pub fn add_environment(&mut self, env: &CppCheckerEnv) -> (added: bool)
        ensures
            added == !old(self)@.environments.contains(env@),
            final(self)@.crate_name == old(self)@.crate_name,
            final(self)@.items == old(self)@.items,
            final(self)@.environments == register_step(old(self)@.environments, env@),
    {
        let n = self.environments.len();
        let mut i: usize = 0;
        while i < n
            invariant
                n == self.environments@.len(),
                i <= n,
                *self == *old(self),
                forall|j: int| 0 <= j < i ==> self@.environments[j] != env@,
            decreases n - i,
        {
            if self.environments[i].is_same(env) {
                proof {
                    assert(old(self)@.environments[i as int] == env@);
                    assert(old(self)@.environments.contains(env@));
                }
                return false;
            }
            i += 1;
        }
        proof {
            assert forall|j: int|
                0 <= j < old(self)@.environments.len() implies old(self)@.environments[j]
                != env@ by {
                assert(self@.environments[j] != env@);
            }
            assert(!old(self)@.environments.contains(env@));
        }
        self.environments.push(env.clone());
        proof {
            assert(self@.environments =~= register_step(old(self)@.environments, env@));
            assert(self@.items =~= old(self)@.items);
        }
        true
    }
}

} // verus!

