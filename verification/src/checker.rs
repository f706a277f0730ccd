//! Build environments, checker outcomes, and the per-wrapper checker
//! ledger: an ordered list of outcomes, unique by build environment.

use vstd::prelude::*;

verus! {

/// A target platform: architecture, operating system, target family and
/// ABI environment.
#[derive(Debug)]
pub struct Target {
    pub arch: String,
    pub os: String,
    pub family: String,
    pub env: String,
}

#[verifier::ext_equal]
pub struct TargetView {
    pub arch: Seq<char>,
    pub os: Seq<char>,
    pub family: Seq<char>,
    pub env: Seq<char>,
}

impl View for Target {
    type V = TargetView;

    open spec fn view(&self) -> TargetView {
        TargetView { arch: self.arch@, os: self.os@, family: self.family@, env: self.env@ }
    }
}

impl Clone for Target {
    fn clone(&self) -> (res: Self)
        ensures
            res@ == self@,
    {
        Target {
            arch: self.arch.clone(),
            os: self.os.clone(),
            family: self.family.clone(),
            env: self.env.clone(),
        }
    }
}

/// The view of an optional string, for contracts over optional texts.
pub open spec fn opt_text(o: Option<String>) -> Option<Seq<char>> {
    match o {
        Some(s) => Some(s@),
        None => None,
    }
}

/// Content comparison of two optional strings.
pub fn opt_string_eq(a: &Option<String>, b: &Option<String>) -> (r: bool)
    ensures
        r == (opt_text(*a) == opt_text(*b)),
{
    match (a, b) {
        (None, None) => true,
        (Some(x), Some(y)) => *x == *y,
        _ => false,
    }
}

/// Content copy of an optional string.
pub fn opt_string_clone(o: &Option<String>) -> (r: Option<String>)
    ensures
        opt_text(r) == opt_text(*o),
{
    match o {
        None => None,
        Some(s) => Some(s.clone()),
    }
}

/// A build environment a generated wrapper can be validated in: a target
/// platform plus an optional native-library version string.
#[derive(Debug)]
pub struct CppCheckerEnv {
    pub target: Target,
    pub cpp_library_version: Option<String>,
}

#[verifier::ext_equal]
pub struct CppCheckerEnvView {
    pub target: TargetView,
    pub cpp_library_version: Option<Seq<char>>,
}

impl View for CppCheckerEnv {
    type V = CppCheckerEnvView;

    open spec fn view(&self) -> CppCheckerEnvView {
        CppCheckerEnvView {
            target: self.target@,
            cpp_library_version: opt_text(self.cpp_library_version),
        }
    }
}

impl Clone for CppCheckerEnv {
    fn clone(&self) -> (res: Self)
        ensures
            res@ == self@,
    {
        CppCheckerEnv {
            target: self.target.clone(),
            cpp_library_version: opt_string_clone(&self.cpp_library_version),
        }
    }
}

/// The short identifying text of a build environment:
/// `<library-version-or-"None">/<arch>-<os>-<family>-<env>`.
pub open spec fn spec_env_short_text(e: CppCheckerEnvView) -> Seq<char> {
    (match e.cpp_library_version {
        Some(v) => v,
        None => "None"@,
    }) + "/"@ + e.target.arch + "-"@ + e.target.os + "-"@ + e.target.family + "-"@
        + e.target.env
}

impl CppCheckerEnv {
    /// Structural equality of two build environments.
    pub fn is_same(&self, other: &CppCheckerEnv) -> (r: bool)
        ensures
            r == (self@ == other@),
    {
        self.target.arch == other.target.arch && self.target.os == other.target.os
            && self.target.family == other.target.family && self.target.env == other.target.env
            && opt_string_eq(&self.cpp_library_version, &other.cpp_library_version)
    }

    /// The short identifying text of the environment.
    pub fn short_text(&self) -> (r: String)
        ensures
            r@ == spec_env_short_text(self@),
    {
        let mut s = match &self.cpp_library_version {
            Some(v) => v.clone(),
            None => ("None").to_owned(),
        };
        s.append("/");
        s.append(self.target.arch.as_str());
        s.append("-");
        s.append(self.target.os.as_str());
        s.append("-");
        s.append(self.target.family.as_str());
        s.append("-");
        s.append(self.target.env.as_str());
        proof {
            assert(s@ =~= spec_env_short_text(self@));
        }
        s
    }
}

/// One checker outcome: the environment a wrapper was validated in, and
/// the error message if validation failed (`None` means success).
#[derive(Debug)]
pub struct CppCheckerInfo {
    pub env: CppCheckerEnv,
    pub error: Option<String>,
}

#[verifier::ext_equal]
pub struct CppCheckerInfoView {
    pub env: CppCheckerEnvView,
    pub error: Option<Seq<char>>,
}

impl View for CppCheckerInfo {
    type V = CppCheckerInfoView;

    open spec fn view(&self) -> CppCheckerInfoView {
        CppCheckerInfoView { env: self.env@, error: opt_text(self.error) }
    }
}

/// The verbatim log rendering of a checker outcome's error field.
pub open spec fn spec_error_log(error: Option<Seq<char>>) -> Seq<char> {
    match error {
        None => "<span class='ok'>OK</span>"@,
        Some(e) => "<span class='ok'>Error</span> ("@ + e + ")"@,
    }
}

impl CppCheckerInfo {
    /// The log rendering of an outcome's error field: a fixed success
    /// marker, or an error marker carrying the message.
    pub fn error_to_log(error: &Option<String>) -> (r: String)
        ensures
            r@ == spec_error_log(opt_text(*error)),
    {
        match error {
            None => ("<span class='ok'>OK</span>").to_owned(),
            Some(e) => {
                let mut s = ("<span class='ok'>Error</span> (").to_owned();
                s.append(e.as_str());
                s.append(")");
                proof {
                    assert(s@ =~= spec_error_log(opt_text(*error)));
                }
                s
            },
        }
    }
}

/// What recording an outcome did: created a new entry, overwrote a
/// differing one (carrying the previous error), or matched exactly.
pub enum CppCheckerAddResult {
    Added,
    Changed { old: Option<String> },
    Unchanged,
}

#[verifier::ext_equal]
pub enum CppCheckerAddResultView {
    Added,
    Changed { old: Option<Seq<char>> },
    Unchanged,
}

impl View for CppCheckerAddResult {
    type V = CppCheckerAddResultView;

    open spec fn view(&self) -> CppCheckerAddResultView {
        match self {
            CppCheckerAddResult::Added => CppCheckerAddResultView::Added,
            CppCheckerAddResult::Changed { old } => CppCheckerAddResultView::Changed {
                old: opt_text(*old),
            },
            CppCheckerAddResult::Unchanged => CppCheckerAddResultView::Unchanged,
        }
    }
}

/// The checker ledger of one generated wrapper function.
#[derive(Debug)]
pub struct CppCheckerInfoList {
    pub items: Vec<CppCheckerInfo>,
}

impl View for CppCheckerInfoList {
    type V = Seq<CppCheckerInfoView>;

    open spec fn view(&self) -> Seq<CppCheckerInfoView> {
        self.items@.map_values(|i: CppCheckerInfo| i@)
    }
}

impl Default for CppCheckerInfoList {
    /// An empty ledger.
    fn default() -> (r: Self)
        ensures
            r@ == Seq::<CppCheckerInfoView>::empty(),
    {
        let r = CppCheckerInfoList { items: Vec::new() };
        proof {
            assert(r@ =~= Seq::<CppCheckerInfoView>::empty());
        }
        r
    }
}

/// The first ledger position holding an outcome for `env`, if any.
pub open spec fn find_env(items: Seq<CppCheckerInfoView>, env: CppCheckerEnvView) -> Option<int>
    decreases items.len(),
{
    if items.len() == 0 {
        None
    } else if items[0].env == env {
        Some(0int)
    } else {
        match find_env(items.drop_first(), env) {
            Some(i) => Some(i + 1),
            None => None,
        }
    }
}

/// `find_env` returns the first matching position: a match in bounds with
/// no earlier match, or `None` exactly when no position matches.
pub proof fn lemma_find_env(items: Seq<CppCheckerInfoView>, env: CppCheckerEnvView)
    ensures
        match find_env(items, env) {
            Some(i) => 0 <= i < items.len() && items[i].env == env && (forall|j: int|
                0 <= j < i ==> items[j].env != env),
            None => forall|j: int| 0 <= j < items.len() ==> items[j].env != env,
        },
    decreases items.len(),
{
    if items.len() == 0 {
    } else if items[0].env == env {
    } else {
        let rest = items.drop_first();
        lemma_find_env(rest, env);
        match find_env(rest, env) {
            Some(i) => {
                assert(items[i + 1] == rest[i]);
                assert forall|j: int| 0 <= j < i + 1 implies items[j].env != env by {
                    if j >= 1 {
                        assert(items[j] == rest[j - 1]);
                    }
                }
            },
            None => {
                assert forall|j: int| 0 <= j < items.len() implies items[j].env != env by {
                    if j >= 1 {
                        assert(items[j] == rest[j - 1]);
                    }
                }
            },
        }
    }
}

/// A position that matches `env`, with no earlier match, is the one
/// `find_env` returns.
pub proof fn lemma_find_env_unique(
    items: Seq<CppCheckerInfoView>,
    env: CppCheckerEnvView,
    i: int,
)
    requires
        0 <= i < items.len(),
        items[i].env == env,
        forall|j: int| 0 <= j < i ==> items[j].env != env,
    ensures
        find_env(items, env) == Some(i),
{
    lemma_find_env(items, env);
    match find_env(items, env) {
        Some(k) => {
            if k < i {
                assert(items[k].env != env);
            } else if k > i {
                assert(items[i].env != env);
            }
        },
        None => {
            assert(items[i].env != env);
        },
    }
}

/// The ledger contents after recording `(env, error)`.
pub open spec fn record_step(
    items: Seq<CppCheckerInfoView>,
    env: CppCheckerEnvView,
    error: Option<Seq<char>>,
) -> Seq<CppCheckerInfoView> {
    match find_env(items, env) {
        None => items.push(CppCheckerInfoView { env, error }),
        Some(i) => items.update(i, CppCheckerInfoView { env: items[i].env, error }),
    }
}

/// What recording `(env, error)` reports.
pub open spec fn record_result(
    items: Seq<CppCheckerInfoView>,
    env: CppCheckerEnvView,
    error: Option<Seq<char>>,
) -> CppCheckerAddResultView {
    match find_env(items, env) {
        None => CppCheckerAddResultView::Added,
        Some(i) => if items[i].error == error {
            CppCheckerAddResultView::Unchanged
        } else {
            CppCheckerAddResultView::Changed { old: items[i].error }
        },
    }
}

impl CppCheckerInfoList {
    /// Records the last-known outcome for `env`: appends a new entry for a
    /// fresh environment, otherwise overwrites the existing entry in
    /// place, reporting whether anything changed and what was there.
    pub fn add(&mut self, env: &CppCheckerEnv, error: Option<String>) -> (r: CppCheckerAddResult)
        ensures
            final(self)@ == record_step(old(self)@, env@, opt_text(error)),
            r@ == record_result(old(self)@, env@, opt_text(error)),
    {
        proof {
            lemma_find_env(old(self)@, env@);
        }
        let n = self.items.len();
        let mut i: usize = 0;
        while i < n
            invariant
                n == self.items@.len(),
                i <= n,
                *self == *old(self),
                forall|j: int| 0 <= j < i ==> self@[j].env != env@,
            decreases n - i,
        {
            if self.items[i].env.is_same(env) {
                let same = opt_string_eq(&self.items[i].error, &error);
                let old_error = opt_string_clone(&self.items[i].error);
                proof {
                    assert(old(self)@[i as int].env == env@);
                    assert forall|j: int| 0 <= j < i implies old(self)@[j].env != env@ by {
                        assert(self@[j].env != env@);
                    }
                    lemma_find_env_unique(old(self)@, env@, i as int);
                }
                let entry = &mut self.items[i];
                entry.error = error;
                proof {
                    assert(self@ =~= record_step(old(self)@, env@, opt_text(error)));
                }
                if same {
                    return CppCheckerAddResult::Unchanged;
                } else {
                    return CppCheckerAddResult::Changed { old: old_error };
                }
            }
            i += 1;
        }
        self.items.push(CppCheckerInfo { env: env.clone(), error });
        proof {
            assert(self@ =~= record_step(old(self)@, env@, opt_text(error)));
        }
        CppCheckerAddResult::Added
    }
}

} // verus!
