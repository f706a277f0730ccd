//! The general laws of the store, proved over the functional
//! specifications that the executable operations are verified against:
//! idempotent ingestion, provenance priority, ledger deduplication,
//! non-deletion, and order independence of ingestion.

use crate::checker::{
    find_env, lemma_find_env, record_step, CppCheckerEnvView, CppCheckerInfoView,
};
use crate::database::{
    find_fact, ingest_creates, ingest_step, lemma_find_fact, lemma_find_fact_unique,
    merged_source, register_step, DatabaseItemSourceView, DatabaseItemView, DatabaseView,
};
use crate::facts::CppItemDataView;
use vstd::prelude::*;

verus! {

/// The catalog invariant: no two catalog entries hold structurally equal
/// declaration facts.
pub open spec fn catalog_wf(items: Seq<DatabaseItemView>) -> bool {
    forall|a: int, b: int|
        0 <= a < b < items.len() ==> #[trigger] items[a].cpp_data != #[trigger] items[b].cpp_data
}

/// The ledger invariant: no two checker outcomes share a build
/// environment.
pub open spec fn ledger_wf(items: Seq<CppCheckerInfoView>) -> bool {
    forall|a: int, b: int|
        0 <= a < b < items.len() ==> #[trigger] items[a].env != #[trigger] items[b].env
}

/// Ingesting a fact twice in a row is the same as ingesting it once, and
/// the second call never creates an entry.
pub proof fn lemma_ingest_idempotent(
    db: DatabaseView,
    source: DatabaseItemSourceView,
    fact: CppItemDataView,
)
    ensures
        !ingest_creates(ingest_step(db, source, fact), fact),
        ingest_step(ingest_step(db, source, fact), source, fact) == ingest_step(
            db,
            source,
            fact,
        ),
{
    lemma_find_fact(db.items, fact);
    let db1 = ingest_step(db, source, fact);
    match find_fact(db.items, fact) {
        None => {
            let m = db.items.len() as int;
            assert(db1.items[m].cpp_data == fact);
            assert forall|j: int| 0 <= j < m implies db1.items[j].cpp_data != fact by {
                assert(db1.items[j] == db.items[j]);
            }
            lemma_find_fact_unique(db1.items, fact, m);
            assert(merged_source(db1.items[m].source, source) == db1.items[m].source);
            assert(db1.items.update(
                m,
                DatabaseItemView { source: db1.items[m].source, ..db1.items[m] },
            ) =~= db1.items);
            assert(ingest_step(db1, source, fact) == db1);
        },
        Some(i) => {
            assert(db1.items[i].cpp_data == db.items[i].cpp_data);
            assert forall|j: int| 0 <= j < i implies db1.items[j].cpp_data != fact by {
                assert(db1.items[j] == db.items[j]);
            }
            lemma_find_fact_unique(db1.items, fact, i);
            assert(merged_source(db1.items[i].source, source) == db1.items[i].source);
            assert(db1.items.update(
                i,
                DatabaseItemView { source: db1.items[i].source, ..db1.items[i] },
            ) =~= db1.items);
            assert(ingest_step(db1, source, fact) == db1);
        },
    }
}

/// Ingestion preserves the catalog invariant.
pub proof fn lemma_ingest_preserves_wf(
    db: DatabaseView,
    source: DatabaseItemSourceView,
    fact: CppItemDataView,
)
    requires
        catalog_wf(db.items),
    ensures
        catalog_wf(ingest_step(db, source, fact).items),
{
    lemma_find_fact(db.items, fact);
    let items1 = ingest_step(db, source, fact).items;
    match find_fact(db.items, fact) {
        None => {
            let m = db.items.len() as int;
            assert forall|a: int, b: int| 0 <= a < b < items1.len() implies items1[a].cpp_data
                != items1[b].cpp_data by {
                if b < m {
                    assert(items1[a] == db.items[a]);
                    assert(items1[b] == db.items[b]);
                } else {
                    assert(items1[a] == db.items[a]);
                    assert(db.items[a].cpp_data != fact);
                }
            }
        },
        Some(i) => {
            assert forall|a: int, b: int| 0 <= a < b < items1.len() implies items1[a].cpp_data
                != items1[b].cpp_data by {
                assert(items1[a].cpp_data == db.items[a].cpp_data);
                assert(items1[b].cpp_data == db.items[b].cpp_data);
            }
        },
    }
}

/// After ingesting a fact, the catalog holds an entry for it.
pub proof fn lemma_ingest_has_entry(
    db: DatabaseView,
    source: DatabaseItemSourceView,
    fact: CppItemDataView,
)
    ensures
        exists|i: int|
            0 <= i < ingest_step(db, source, fact).items.len() && #[trigger] ingest_step(
                db,
                source,
                fact,
            ).items[i].cpp_data == fact,
{
    lemma_find_fact(db.items, fact);
    let items1 = ingest_step(db, source, fact).items;
    match find_fact(db.items, fact) {
        None => {
            let m = db.items.len() as int;
            assert(items1[m].cpp_data == fact);
        },
        Some(i) => {
            assert(items1[i].cpp_data == fact);
        },
    }
}

/// Non-deletion: ingestion never removes a catalog entry, never alters a
/// stored fact or a wrapper list, and only ever upgrades provenance to
/// parser-discovered.
pub proof fn lemma_ingest_non_deletion(
    db: DatabaseView,
    source: DatabaseItemSourceView,
    fact: CppItemDataView,
)
    ensures
        ingest_step(db, source, fact).items.len() >= db.items.len(),
        forall|i: int|
            0 <= i < db.items.len() ==> #[trigger] ingest_step(db, source, fact).items[i].cpp_data
                == db.items[i].cpp_data,
        forall|i: int|
            0 <= i < db.items.len() ==> #[trigger] ingest_step(
                db,
                source,
                fact,
            ).items[i].cpp_ffi_methods == db.items[i].cpp_ffi_methods,
        forall|i: int|
            0 <= i < db.items.len() ==> #[trigger] ingest_step(db, source, fact).items[i].source
                == db.items[i].source || ingest_step(db, source, fact).items[i].source == source,
{
    lemma_find_fact(db.items, fact);
}

/// Non-deletion: recording an outcome never removes a ledger entry and
/// never changes which environments are present.
pub proof fn lemma_record_non_deletion(
    items: Seq<CppCheckerInfoView>,
    env: CppCheckerEnvView,
    error: Option<Seq<char>>,
)
    ensures
        record_step(items, env, error).len() >= items.len(),
        forall|i: int|
            0 <= i < items.len() ==> #[trigger] record_step(items, env, error)[i].env
                == items[i].env,
{
    lemma_find_env(items, env);
}

/// Recording an outcome preserves the ledger invariant, and afterwards
/// the ledger holds an outcome for the recorded environment.
pub proof fn lemma_record_preserves_wf(
    items: Seq<CppCheckerInfoView>,
    env: CppCheckerEnvView,
    error: Option<Seq<char>>,
)
    requires
        ledger_wf(items),
    ensures
        ledger_wf(record_step(items, env, error)),
        exists|i: int|
            0 <= i < record_step(items, env, error).len() && #[trigger] record_step(
                items,
                env,
                error,
            )[i].env == env,
{
    lemma_find_env(items, env);
    let items1 = record_step(items, env, error);
    match find_env(items, env) {
        None => {
            let m = items.len() as int;
            assert(items1[m].env == env);
            assert forall|a: int, b: int| 0 <= a < b < items1.len() implies items1[a].env
                != items1[b].env by {
                if b < m {
                    assert(items1[a] == items[a]);
                    assert(items1[b] == items[b]);
                } else {
                    assert(items1[a] == items[a]);
                    assert(items[a].env != env);
                }
            }
        },
        Some(i) => {
            assert(items1[i].env == env);
            assert forall|a: int, b: int| 0 <= a < b < items1.len() implies items1[a].env
                != items1[b].env by {
                assert(items1[a].env == items[a].env);
                assert(items1[b].env == items[b].env);
            }
        },
    }
}

/// Provenance priority: for a fresh fact, ingesting it synthesized then
/// parser-discovered, or parser-discovered then synthesized, both leave
/// the entry with the parser-discovered provenance.
pub proof fn lemma_provenance_priority(
    db: DatabaseView,
    synth: DatabaseItemSourceView,
    parser: DatabaseItemSourceView,
    fact: CppItemDataView,
)
    requires
        !(synth is CppParser),
        parser is CppParser,
        ingest_creates(db, fact),
    ensures
        ({
            let m = db.items.len() as int;
            let sp = ingest_step(ingest_step(db, synth, fact), parser, fact);
            let ps = ingest_step(ingest_step(db, parser, fact), synth, fact);
            sp.items[m].cpp_data == fact && sp.items[m].source == parser && ps.items[m].cpp_data
                == fact && ps.items[m].source == parser
        }),
{
    lemma_find_fact(db.items, fact);
    let m = db.items.len() as int;
    let db_s = ingest_step(db, synth, fact);
    let db_p = ingest_step(db, parser, fact);
    assert(db_s.items[m].cpp_data == fact);
    assert forall|j: int| 0 <= j < m implies db_s.items[j].cpp_data != fact by {
        assert(db_s.items[j] == db.items[j]);
    }
    lemma_find_fact_unique(db_s.items, fact, m);
    assert(merged_source(synth, parser) == parser);
    assert(db_p.items[m].cpp_data == fact);
    assert forall|j: int| 0 <= j < m implies db_p.items[j].cpp_data != fact by {
        assert(db_p.items[j] == db.items[j]);
    }
    lemma_find_fact_unique(db_p.items, fact, m);
    assert(merged_source(parser, synth) == parser);
}

/// Non-deletion: registering a build environment never removes one.
pub proof fn lemma_register_non_deletion(envs: Seq<CppCheckerEnvView>, env: CppCheckerEnvView)
    ensures
        register_step(envs, env).len() >= envs.len(),
        forall|i: int|
            0 <= i < envs.len() ==> #[trigger] register_step(envs, env)[i] == envs[i],
{
}

/// The catalog after ingesting a whole run of (provenance, fact) pairs,
/// first pair first.
pub open spec fn ingest_all(
    db: DatabaseView,
    pairs: Seq<(DatabaseItemSourceView, CppItemDataView)>,
) -> DatabaseView
    decreases pairs.len(),
{
    if pairs.len() == 0 {
        db
    } else {
        ingest_all(ingest_step(db, pairs[0].0, pairs[0].1), pairs.drop_first())
    }
}

/// Whether some pair of the run carries `fact` with parser-discovered
/// provenance.
pub open spec fn has_parser_pair(
    pairs: Seq<(DatabaseItemSourceView, CppItemDataView)>,
    fact: CppItemDataView,
) -> bool {
    exists|o: DatabaseItemSourceView| #[trigger] pairs.contains((o, fact)) && o is CppParser
}

/// The provenance a fact of the run settles on: a parser-discovered
/// provenance from the run if any pair carries one, otherwise a
/// synthesized provenance from the run.
pub open spec fn resolves(
    pairs: Seq<(DatabaseItemSourceView, CppItemDataView)>,
    fact: CppItemDataView,
    o: DatabaseItemSourceView,
) -> bool {
    pairs.contains((o, fact)) && (o is CppParser || !has_parser_pair(pairs, fact))
}

/// The run is unambiguous: any two pairs that carry the same fact with
/// the same class of provenance (parser or synthesized) carry the same
/// provenance. Without this, which of two distinct parser locations, or
/// of two distinct synthesizers, a fact settles on depends on order.
pub open spec fn pairs_coherent(pairs: Seq<(DatabaseItemSourceView, CppItemDataView)>) -> bool {
    forall|p: (DatabaseItemSourceView, CppItemDataView), q: (
        DatabaseItemSourceView,
        CppItemDataView,
    )|
        #[trigger] pairs.contains(p) && #[trigger] pairs.contains(q) && p.1 == q.1 && ((
        p.0 is CppParser) <==> (q.0 is CppParser)) ==> p.0 == q.0
}

/// The catalog's entries are exactly the resolutions of the run so far.
pub open spec fn catalog_resolved(
    db: DatabaseView,
    pairs: Seq<(DatabaseItemSourceView, CppItemDataView)>,
) -> bool {
    &&& forall|i: int|
        0 <= i < db.items.len() ==> resolves(
            pairs,
            #[trigger] db.items[i].cpp_data,
            db.items[i].source,
        )
    &&& forall|p: (DatabaseItemSourceView, CppItemDataView)| #[trigger]
        pairs.contains(p) ==> exists|i: int|
            0 <= i < db.items.len() && #[trigger] db.items[i].cpp_data == p.1
}

/// Membership in a sequence extended by one element.
proof fn lemma_contains_push<T>(s: Seq<T>, x: T, y: T)
    ensures
        s.push(x).contains(y) <==> (s.contains(y) || y == x),
{
    if s.contains(y) {
        let i = choose|i: int| 0 <= i < s.len() && s[i] == y;
        assert(s.push(x)[i] == y);
    }
    assert(s.push(x)[s.len() as int] == x);
    if s.push(x).contains(y) {
        let i = choose|i: int| 0 <= i < s.push(x).len() && s.push(x)[i] == y;
        if i < s.len() {
            assert(s[i] == y);
        }
    }
}

/// A coherent run resolves each fact to at most one provenance.
pub proof fn lemma_resolution_unique(
    pairs: Seq<(DatabaseItemSourceView, CppItemDataView)>,
    fact: CppItemDataView,
    o1: DatabaseItemSourceView,
    o2: DatabaseItemSourceView,
)
    requires
        pairs_coherent(pairs),
        resolves(pairs, fact, o1),
        resolves(pairs, fact, o2),
    ensures
        o1 == o2,
{
    if o1 is CppParser && !(o2 is CppParser) {
        assert(pairs.contains((o1, fact)) && o1 is CppParser);
        assert(has_parser_pair(pairs, fact));
    } else if o2 is CppParser && !(o1 is CppParser) {
        assert(pairs.contains((o2, fact)) && o2 is CppParser);
        assert(has_parser_pair(pairs, fact));
    }
}

/// A parser pair for `g` in a run extended by `p` is an old parser pair,
/// unless `p` itself carries `g` with parser provenance.
proof fn lemma_parser_pair_push(
    processed: Seq<(DatabaseItemSourceView, CppItemDataView)>,
    p: (DatabaseItemSourceView, CppItemDataView),
    g: CppItemDataView,
)
    ensures
        has_parser_pair(processed.push(p), g) <==> (has_parser_pair(processed, g) || (p.1 == g
            && p.0 is CppParser)),
{
    let ps1 = processed.push(p);
    if has_parser_pair(processed, g) {
        let w = choose|w: DatabaseItemSourceView| #[trigger] processed.contains((w, g))
            && w is CppParser;
        lemma_contains_push(processed, p, (w, g));
        assert(ps1.contains((w, g)) && w is CppParser);
    }
    if p.1 == g && p.0 is CppParser {
        assert(ps1[processed.len() as int] == p);
        assert(ps1.contains((p.0, g)));
        assert(has_parser_pair(ps1, g));
    }
    if has_parser_pair(ps1, g) {
        let w = choose|w: DatabaseItemSourceView| #[trigger] ps1.contains((w, g))
            && w is CppParser;
        lemma_contains_push(processed, p, (w, g));
        if processed.contains((w, g)) {
            assert(has_parser_pair(processed, g));
        } else {
            assert((w, g) == p);
        }
    }
}

/// A resolution survives extending the run, unless the new pair upgrades
/// that fact from synthesized to parser-discovered provenance.
proof fn lemma_resolves_push(
    processed: Seq<(DatabaseItemSourceView, CppItemDataView)>,
    p: (DatabaseItemSourceView, CppItemDataView),
    g: CppItemDataView,
    o2: DatabaseItemSourceView,
)
    requires
        resolves(processed, g, o2),
        !(p.1 == g && p.0 is CppParser && !(o2 is CppParser)),
    ensures
        resolves(processed.push(p), g, o2),
{
    lemma_contains_push(processed, p, (o2, g));
    lemma_parser_pair_push(processed, p, g);
}

/// One ingest step keeps the catalog resolved against the run extended by
/// the ingested pair.
proof fn lemma_ingest_step_resolved(
    db: DatabaseView,
    processed: Seq<(DatabaseItemSourceView, CppItemDataView)>,
    p: (DatabaseItemSourceView, CppItemDataView),
)
    requires
        catalog_wf(db.items),
        catalog_resolved(db, processed),
    ensures
        catalog_wf(ingest_step(db, p.0, p.1).items),
        catalog_resolved(ingest_step(db, p.0, p.1), processed.push(p)),
{
    let o = p.0;
    let f = p.1;
    let ps1 = processed.push(p);
    lemma_ingest_preserves_wf(db, o, f);
    lemma_find_fact(db.items, f);
    let items1 = ingest_step(db, o, f).items;
    assert(ps1[processed.len() as int] == p);
    assert(ps1.contains((o, f)));
    match find_fact(db.items, f) {
        None => {
            let m = db.items.len() as int;
            // No old entry carries f, so no pair for f was processed.
            assert forall|i: int| 0 <= i < items1.len() implies resolves(
                ps1,
                #[trigger] items1[i].cpp_data,
                items1[i].source,
            ) by {
                if i < m {
                    assert(items1[i] == db.items[i]);
                    assert(resolves(processed, db.items[i].cpp_data, db.items[i].source));
                    assert(db.items[i].cpp_data != f);
                    lemma_resolves_push(processed, p, db.items[i].cpp_data, db.items[i].source);
                } else {
                    assert(items1[m].cpp_data == f && items1[m].source == o);
                    if !(o is CppParser) {
                        lemma_parser_pair_push(processed, p, f);
                        if has_parser_pair(processed, f) {
                            let w = choose|w: DatabaseItemSourceView| #[trigger]
                                processed.contains((w, f)) && w is CppParser;
                            let k = choose|k: int|
                                0 <= k < db.items.len() && #[trigger] db.items[k].cpp_data
                                    == (w, f).1;
                            assert(db.items[k].cpp_data != f);
                        }
                    }
                }
            }
            assert forall|q: (DatabaseItemSourceView, CppItemDataView)| #[trigger]
                ps1.contains(q) implies exists|i: int|
                0 <= i < items1.len() && #[trigger] items1[i].cpp_data == q.1 by {
                lemma_contains_push(processed, p, q);
                if processed.contains(q) {
                    let k = choose|k: int|
                        0 <= k < db.items.len() && #[trigger] db.items[k].cpp_data == q.1;
                    assert(items1[k].cpp_data == q.1);
                } else {
                    assert(items1[m].cpp_data == f);
                }
            }
        },
        Some(idx) => {
            assert(db.items[idx].cpp_data == f);
            let e = db.items[idx].source;
            assert(resolves(processed, f, e));
            assert forall|i: int| 0 <= i < items1.len() implies resolves(
                ps1,
                #[trigger] items1[i].cpp_data,
                items1[i].source,
            ) by {
                if i != idx {
                    assert(items1[i] == db.items[i]);
                    assert(resolves(processed, db.items[i].cpp_data, db.items[i].source));
                    if i < idx {
                        assert(db.items[i].cpp_data != db.items[idx].cpp_data);
                    } else {
                        assert(db.items[idx].cpp_data != db.items[i].cpp_data);
                    }
                    lemma_resolves_push(processed, p, db.items[i].cpp_data, db.items[i].source);
                } else {
                    if o is CppParser && !(e is CppParser) {
                        assert(items1[idx].source == o);
                        assert(items1[idx].cpp_data == f);
                        assert(resolves(ps1, f, o));
                    } else {
                        assert(items1[idx].source == e);
                        assert(items1[idx].cpp_data == f);
                        lemma_resolves_push(processed, p, f, e);
                    }
                }
            }
            assert forall|q: (DatabaseItemSourceView, CppItemDataView)| #[trigger]
                ps1.contains(q) implies exists|i: int|
                0 <= i < items1.len() && #[trigger] items1[i].cpp_data == q.1 by {
                lemma_contains_push(processed, p, q);
                if processed.contains(q) {
                    let k = choose|k: int|
                        0 <= k < db.items.len() && #[trigger] db.items[k].cpp_data == q.1;
                    assert(items1[k].cpp_data == q.1);
                } else {
                    assert(items1[idx].cpp_data == f);
                }
            }
        },
    }
}

/// Ingesting a whole run keeps the catalog well formed and resolved
/// against everything ingested so far.
proof fn lemma_ingest_all_resolved(
    db: DatabaseView,
    processed: Seq<(DatabaseItemSourceView, CppItemDataView)>,
    pairs: Seq<(DatabaseItemSourceView, CppItemDataView)>,
)
    requires
        catalog_wf(db.items),
        catalog_resolved(db, processed),
    ensures
        catalog_wf(ingest_all(db, pairs).items),
        catalog_resolved(ingest_all(db, pairs), processed + pairs),
    decreases pairs.len(),
{
    if pairs.len() == 0 {
        assert(processed + pairs =~= processed);
    } else {
        let p = pairs[0];
        let db1 = ingest_step(db, p.0, p.1);
        lemma_ingest_step_resolved(db, processed, p);
        lemma_ingest_all_resolved(db1, processed.push(p), pairs.drop_first());
        assert(processed.push(p) + pairs.drop_first() =~= processed + pairs);
    }
}

/// The set of (fact, provenance) pairs the catalog's entries carry.
pub open spec fn entry_pairs(db: DatabaseView) -> Set<(CppItemDataView, DatabaseItemSourceView)> {
    Set::new(
        |q: (CppItemDataView, DatabaseItemSourceView)|
            exists|i: int|
                0 <= i < db.items.len() && #[trigger] db.items[i].cpp_data == q.0
                    && db.items[i].source == q.1,
    )
}

/// A resolved catalog covering a coherent run carries exactly the run's
/// resolutions as its (fact, provenance) pairs.
proof fn lemma_resolved_entry_pairs(
    db: DatabaseView,
    pairs: Seq<(DatabaseItemSourceView, CppItemDataView)>,
)
    requires
        pairs_coherent(pairs),
        catalog_resolved(db, pairs),
    ensures
        forall|q: (CppItemDataView, DatabaseItemSourceView)| #[trigger]
            entry_pairs(db).contains(q) <==> resolves(pairs, q.0, q.1),
{
    assert forall|q: (CppItemDataView, DatabaseItemSourceView)|
        entry_pairs(db).contains(q) implies resolves(pairs, q.0, q.1) by {
        let i = choose|i: int|
            0 <= i < db.items.len() && #[trigger] db.items[i].cpp_data == q.0
                && db.items[i].source == q.1;
        assert(resolves(pairs, db.items[i].cpp_data, db.items[i].source));
    }
    assert forall|q: (CppItemDataView, DatabaseItemSourceView)|
        resolves(pairs, q.0, q.1) implies entry_pairs(db).contains(q) by {
        assert(pairs.contains((q.1, q.0)));
        let i = choose|i: int|
            0 <= i < db.items.len() && #[trigger] db.items[i].cpp_data == (q.1, q.0).1;
        assert(resolves(pairs, db.items[i].cpp_data, db.items[i].source));
        lemma_resolution_unique(pairs, q.0, db.items[i].source, q.1);
    }
}

/// Order independence: ingesting the same set of (provenance, fact) pairs
/// into an empty catalog, in any two orders and multiplicities of a
/// coherent run, yields catalogs whose entries carry identical
/// (fact, final provenance) pairs.
pub proof fn lemma_order_independence(
    db0: DatabaseView,
    pairs1: Seq<(DatabaseItemSourceView, CppItemDataView)>,
    pairs2: Seq<(DatabaseItemSourceView, CppItemDataView)>,
)
    requires
        db0.items.len() == 0,
        pairs_coherent(pairs1),
        forall|q: (DatabaseItemSourceView, CppItemDataView)| #[trigger]
            pairs1.contains(q) <==> #[trigger] pairs2.contains(q),
    ensures
        entry_pairs(ingest_all(db0, pairs1)) == entry_pairs(ingest_all(db0, pairs2)),
{
    assert(catalog_resolved(db0, Seq::empty()));
    lemma_ingest_all_resolved(db0, Seq::empty(), pairs1);
    lemma_ingest_all_resolved(db0, Seq::empty(), pairs2);
    assert(Seq::empty() + pairs1 =~= pairs1);
    assert(Seq::empty() + pairs2 =~= pairs2);
    let db_a = ingest_all(db0, pairs1);
    let db_b = ingest_all(db0, pairs2);
    assert forall|p: (DatabaseItemSourceView, CppItemDataView), q: (
        DatabaseItemSourceView,
        CppItemDataView,
    )|
        #[trigger] pairs2.contains(p) && #[trigger] pairs2.contains(q) && p.1 == q.1 && ((
        p.0 is CppParser) <==> (q.0 is CppParser)) implies p.0 == q.0 by {
        assert(pairs1.contains(p));
        assert(pairs1.contains(q));
    }
    assert(pairs_coherent(pairs2));
    // Both runs have the same parser pairs, so they resolve alike.
    assert forall|g: CppItemDataView| has_parser_pair(pairs1, g) == has_parser_pair(
        pairs2,
        g,
    ) by {
        if has_parser_pair(pairs1, g) {
            let w = choose|w: DatabaseItemSourceView| #[trigger] pairs1.contains((w, g))
                && w is CppParser;
            assert(pairs2.contains((w, g)));
        }
        if has_parser_pair(pairs2, g) {
            let w = choose|w: DatabaseItemSourceView| #[trigger] pairs2.contains((w, g))
                && w is CppParser;
            assert(pairs1.contains((w, g)));
        }
    }
    lemma_resolved_entry_pairs(db_a, pairs1);
    lemma_resolved_entry_pairs(db_b, pairs2);
    assert forall|q: (CppItemDataView, DatabaseItemSourceView)|
        entry_pairs(db_a).contains(q) == entry_pairs(db_b).contains(q) by {
        assert(entry_pairs(db_a).contains(q) <==> resolves(pairs1, q.0, q.1));
        assert(entry_pairs(db_b).contains(q) <==> resolves(pairs2, q.0, q.1));
        assert(pairs1.contains((q.1, q.0)) <==> pairs2.contains((q.1, q.0)));
    }
    assert(entry_pairs(db_a) =~= entry_pairs(db_b));
}

} // verus!
