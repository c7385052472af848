//! The rewrite driver: walks a plan tree bottom-up, substitutes a
//! cache-aware source for every eligible columnar scan, and wraps each
//! substitution in an output adapter that restores the original schema.

use vstd::prelude::*;
use crate::CacheMode;
use crate::schema::{
    CoerceError, Field, Schema, coerce_schema, coerce_schema_spec,
};
use crate::plan::{
    ColumnSource, ColumnSourceView, PlanNode, PlanView, ScanConfig, ScanConfigView, clone_predicate,
    clone_projection, clone_strings, node_schema, scan_schema,
};

verus! {

// --------------------------------------------------------------------------
// Scan node matcher
// --------------------------------------------------------------------------

/// Whether a scan configuration is eligible for cache substitution: only a
/// scan whose column source is the raw columnar file format qualifies; a
/// cache-backed source, or any other format, never does.
pub open spec fn eligible_spec(c: ScanConfigView) -> bool {
    c.source is Columnar
}

/// Whether a scan configuration is internally consistent: every projected
/// position names a field of the file schema.
pub open spec fn wf_scan(c: ScanConfigView) -> bool {
    c.projection matches Some(p) ==> forall|i: int|
        0 <= i < p.len() ==> (#[trigger] p[i]) < c.file_schema.len()
}

/// Whether every scan configuration in the tree is internally consistent.
pub open spec fn wf_scans(n: PlanView) -> bool
    decreases n,
{
    match n {
        PlanView::Scan { config } => wf_scan(config),
        PlanView::Filter { predicate, input } => wf_scans(*input),
        PlanView::Project { columns, input } => wf_scans(*input),
        PlanView::Join { left, right } => wf_scans(*left) && wf_scans(*right),
        PlanView::Aggregate { group_columns, input } => wf_scans(*input),
        PlanView::CacheAdapter { target_schema, input } => wf_scans(*input),
        PlanView::Foreign { code, schema, left, right } => {
            &&& (left matches Some(l) ==> wf_scans(*l))
            &&& (right matches Some(r) ==> wf_scans(*r))
        },
    }
}

/// Executable test of [`wf_scan`].
pub fn is_wf_scan(c: &ScanConfig) -> (r: bool)
    ensures
        r == wf_scan(c.view()),
{
    match &c.projection {
        Some(p) => {
            proof {
                assert(c.view().projection == Some(p@));
            }
            let n = c.file_schema.len();
            let mut i: usize = 0;
            while i < p.len()
                invariant
                    i <= p@.len(),
                    n == c.file_schema@.len(),
                    c.view().projection == Some(p@),
                    forall|j: int| 0 <= j < i ==> (#[trigger] p@[j]) < n,
                decreases p@.len() - i,
            {
                if p[i] >= n {
                    proof {
                        assert(c.view().projection matches Some(pv) && !(pv[i as int]
                            < c.view().file_schema.len()));
                        assert(!wf_scan(c.view()));
                    }
                    return false;
                }
                i = i + 1;
            }
            proof {
                assert(wf_scan(c.view()));
            }
            true
        },
        None => {
            proof {
                assert(c.view().projection is None);
                assert(wf_scan(c.view()));
            }
            true
        },
    }
}

/// What the matcher hands the builder on a positive match: the matched scan
/// configuration and the output schema the scan currently produces.
pub struct ScanContext {
    pub config: ScanConfig,
    pub schema: Schema,
}

/// The output schema of a scan, computed from its configuration.
pub fn scan_output_schema(c: &ScanConfig) -> (r: Schema)
    requires
        wf_scan(c.view()),
    ensures
        r@ == scan_schema(c.view()),
{
    match &c.projection {
        Some(p) => {
            proof {
                assert(c.view().projection == Some(p@));
            }
            let mut fields: Vec<Field> = Vec::new();
            let mut i: usize = 0;
            while i < p.len()
                invariant
                    i <= p@.len(),
                    fields@.len() == i as int,
                    c.view().projection == Some(p@),
                    wf_scan(c.view()),
                    forall|j: int|
                        0 <= j < i ==> #[trigger] fields@[j]@ == c.view().file_schema[p@[j] as int],
                decreases p@.len() - i,
            {
                proof {
                    assert(c.view().projection matches Some(pv) && pv[i as int] == p@[i as int]);
                    assert(p@[i as int] < c.view().file_schema.len());
                }
                fields.push(c.file_schema.fields[p[i]].duplicate());
                i = i + 1;
            }
            let r = Schema { fields };
            assert(r@ =~= scan_schema(c.view()));
            r
        },
        None => {
            let r = c.file_schema.duplicate();
            assert(r@ =~= scan_schema(c.view()));
            r
        },
    }
}

/// Scan Node Matcher: recognizes a leaf scan over the eligible columnar
/// format and hands back its configuration and current output schema; every
/// other node shape — non-scan nodes, scans over other formats, scans
/// already routed through the cache — yields no match.
pub fn match_scan(node: &PlanNode) -> (r: Option<ScanContext>)
    requires
        wf_scans(node.view()),
    ensures
        r is Some <==> (node.view() matches PlanView::Scan { config } && eligible_spec(config)),
        r matches Some(ctx) ==> {
            &&& node.view() matches PlanView::Scan { config } && ctx.config.view() == config
            &&& ctx.schema@ == scan_schema(ctx.config.view())
        },
{
    match node {
        PlanNode::Scan { config } => {
            if matches!(config.source, ColumnSource::Columnar) {
                let schema = scan_output_schema(config);
                Some(ScanContext { config: config.duplicate(), schema })
            } else {
                assert(!(config.view().source is Columnar));
                None
            }
        },
        _ => None,
    }
}

// --------------------------------------------------------------------------
// Cache-aware source builder
// --------------------------------------------------------------------------

/// Why a cache-aware source could not be built for an eligible scan.
#[derive(Clone, Copy, Debug, PartialEq, Eq, Structural)]
pub enum BuildError {
    /// The cache is disengaged; no cache-backed source may be built.
    CacheDisengaged,
    /// A field of the scan's schema has no cache-compatible representation.
    Coercion(CoerceError),
}

/// The cache-aware image of a scan configuration: identical in files,
/// partition values, projection and predicate, but reading through a
/// cache-backed source built over the original source and the pre-coercion
/// logical schema, with the file schema coerced to the cache's
/// representation. `None` when the cache is disengaged or a field cannot be
/// represented.
pub open spec fn build_spec(c: ScanConfigView, mode: CacheMode) -> Option<ScanConfigView> {
    if !mode.is_engaged() {
        None
    } else {
        match coerce_schema_spec(c.file_schema, mode) {
            Some(coerced) => Some(
                ScanConfigView {
                    file_schema: coerced,
                    source: ColumnSourceView::CacheBacked {
                        original: Box::new(c.source),
                        logical_schema: c.file_schema,
                        mode,
                    },
                    ..c
                },
            ),
            None => None,
        }
    }
}

/// Cache-Aware Source Builder: builds the replacement scan configuration
/// that routes reads through the cache, or says exactly why it cannot.
pub fn build_cache_source(c: &ScanConfig, mode: CacheMode) -> (r: Result<ScanConfig, BuildError>)
    ensures
        r is Ok <==> build_spec(c.view(), mode) is Some,
        r matches Ok(built) ==> build_spec(c.view(), mode) == Some(built.view()),
        r matches Err(e) ==> (e is CacheDisengaged <==> !mode.is_engaged()),
        r matches Err(e) && e is Coercion ==> coerce_schema_spec(c.view().file_schema, mode)
            is None,
{
    if matches!(mode, CacheMode::Disabled) {
        return Err(BuildError::CacheDisengaged);
    }
    match coerce_schema(&c.file_schema, mode) {
        Ok(coerced) => {
            let built = ScanConfig {
                files: clone_strings(&c.files),
                partition_values: clone_strings(&c.partition_values),
                projection: clone_projection(&c.projection),
                predicate: clone_predicate(&c.predicate),
                file_schema: coerced,
                source: ColumnSource::CacheBacked {
                    original: Box::new(c.source.duplicate()),
                    logical_schema: c.file_schema.duplicate(),
                    mode,
                },
            };
            proof {
                assert(built.view() =~~= build_spec(c.view(), mode)->Some_0);
            }
            Ok(built)
        },
        Err(e) => Err(BuildError::Coercion(e)),
    }
}

/// Boundary gate for a caller that performs the substitution on the real
/// plan representation itself: whether the cache-aware source builder
/// accepts this scan under `mode` — the cache engaged and every field of
/// the scan's schema coercible. A caller that keeps the raw scan on
/// `false` fails open.
pub fn accepts_scan(model: &ScanConfig, mode: CacheMode) -> (r: bool)
    ensures
        r <==> (build_spec(model.view(), mode) is Some),
{
    if matches!(mode, CacheMode::Disabled) {
        return false;
    }
    match coerce_schema(&model.file_schema, mode) {
        Ok(_) => true,
        Err(_) => false,
    }
}

// --------------------------------------------------------------------------
// Plan tree walker
// --------------------------------------------------------------------------

/// Why a rewrite was abandoned: the input tree violated a structural
/// invariant the upstream compiler is supposed to guarantee.
#[derive(Clone, Copy, Debug, PartialEq, Eq, Structural)]
pub enum RewriteError {
    /// A scan projects a position outside its file schema.
    MalformedScan,
}

/// The rewritten image of a plan tree: every eligible columnar scan whose
/// cache-aware source can be built is replaced by that source underneath an
/// output adapter that restores the scan's original output schema; every
/// other node keeps its identity, with only its children rewritten. An
/// eligible scan whose source cannot be built is kept unchanged (fail open).
pub open spec fn rewrite_spec(n: PlanView, mode: CacheMode) -> PlanView
    decreases n,
{
    match n {
        PlanView::Scan { config } => {
            if eligible_spec(config) {
                match build_spec(config, mode) {
                    Some(built) => PlanView::CacheAdapter {
                        target_schema: scan_schema(config),
                        input: Box::new(PlanView::Scan { config: built }),
                    },
                    None => n,
                }
            } else {
                n
            }
        },
        PlanView::Filter { predicate, input } => PlanView::Filter {
            predicate,
            input: Box::new(rewrite_spec(*input, mode)),
        },
        PlanView::Project { columns, input } => PlanView::Project {
            columns,
            input: Box::new(rewrite_spec(*input, mode)),
        },
        PlanView::Join { left, right } => PlanView::Join {
            left: Box::new(rewrite_spec(*left, mode)),
            right: Box::new(rewrite_spec(*right, mode)),
        },
        PlanView::Aggregate { group_columns, input } => PlanView::Aggregate {
            group_columns,
            input: Box::new(rewrite_spec(*input, mode)),
        },
        PlanView::CacheAdapter { target_schema, input } => PlanView::CacheAdapter {
            target_schema,
            input: Box::new(rewrite_spec(*input, mode)),
        },
        PlanView::Foreign { code, schema, left, right } => PlanView::Foreign {
            code,
            schema,
            left: match left {
                Some(l) => Some(Box::new(rewrite_spec(*l, mode))),
                None => None,
            },
            right: match right {
                Some(r) => Some(Box::new(rewrite_spec(*r, mode))),
                None => None,
            },
        },
    }
}

/// Plan Tree Walker: produces the rewritten image of `n` under `mode`,
/// bottom-up, leaving the input untouched; fails exactly on a structurally
/// malformed tree, and fails open on unbuildable sources.
pub fn rewrite_node(n: &PlanNode, mode: CacheMode) -> (r: Result<PlanNode, RewriteError>)
    ensures
        r is Ok <==> wf_scans(n.view()),
        r matches Ok(p) ==> p.view() == rewrite_spec(n.view(), mode),
    decreases n,
{
    match n {
        PlanNode::Scan { config } => {
            if !is_wf_scan(config) {
                return Err(RewriteError::MalformedScan);
            }
            if matches!(config.source, ColumnSource::Columnar) {
                match build_cache_source(config, mode) {
                    Ok(built) => {
                        let target_schema = scan_output_schema(config);
                        let r = PlanNode::CacheAdapter {
                            target_schema,
                            input: Box::new(PlanNode::Scan { config: built }),
                        };
                        proof {
                            reveal_with_fuel(PlanNode::view, 2);
                            assert(r.view() =~~= rewrite_spec(n.view(), mode));
                        }
                        Ok(r)
                    },
                    Err(_) => {
                        let kept = PlanNode::Scan { config: config.duplicate() };
                        assert(kept.view() =~~= rewrite_spec(n.view(), mode));
                        Ok(kept)
                    },
                }
            } else {
                assert(!eligible_spec(config.view()));
                let kept = PlanNode::Scan { config: config.duplicate() };
                assert(kept.view() =~~= rewrite_spec(n.view(), mode));
                Ok(kept)
            }
        },
        PlanNode::Filter { predicate, input } => {
            match rewrite_node(input, mode) {
                Ok(ri) => {
                    let r = PlanNode::Filter { predicate: predicate.clone(), input: Box::new(ri) };
                    assert(r.view() =~~= rewrite_spec(n.view(), mode));
                    Ok(r)
                },
                Err(e) => Err(e),
            }
        },
        PlanNode::Project { columns, input } => {
            match rewrite_node(input, mode) {
                Ok(ri) => {
                    let mut cols: Vec<usize> = Vec::new();
                    let mut i: usize = 0;
                    while i < columns.len()
                        invariant
                            i <= columns@.len(),
                            cols@.len() == i as int,
                            forall|j: int| 0 <= j < i ==> cols@[j] == columns@[j],
                        decreases columns@.len() - i,
                    {
                        cols.push(columns[i]);
                        i = i + 1;
                    }
                    assert(cols@ =~= columns@);
                    let r = PlanNode::Project { columns: cols, input: Box::new(ri) };
                    assert(r.view() =~~= rewrite_spec(n.view(), mode));
                    Ok(r)
                },
                Err(e) => Err(e),
            }
        },
        PlanNode::Join { left, right } => {
            match rewrite_node(left, mode) {
                Ok(rl) => match rewrite_node(right, mode) {
                    Ok(rr) => {
                        let r = PlanNode::Join { left: Box::new(rl), right: Box::new(rr) };
                        assert(r.view() =~~= rewrite_spec(n.view(), mode));
                        Ok(r)
                    },
                    Err(e) => Err(e),
                },
                Err(e) => Err(e),
            }
        },
        PlanNode::Aggregate { group_columns, input } => {
            match rewrite_node(input, mode) {
                Ok(ri) => {
                    let mut cols: Vec<usize> = Vec::new();
                    let mut i: usize = 0;
                    while i < group_columns.len()
                        invariant
                            i <= group_columns@.len(),
                            cols@.len() == i as int,
                            forall|j: int| 0 <= j < i ==> cols@[j] == group_columns@[j],
                        decreases group_columns@.len() - i,
                    {
                        cols.push(group_columns[i]);
                        i = i + 1;
                    }
                    assert(cols@ =~= group_columns@);
                    let r = PlanNode::Aggregate { group_columns: cols, input: Box::new(ri) };
                    assert(r.view() =~~= rewrite_spec(n.view(), mode));
                    Ok(r)
                },
                Err(e) => Err(e),
            }
        },
        PlanNode::CacheAdapter { target_schema, input } => {
            match rewrite_node(input, mode) {
                Ok(ri) => {
                    let r = PlanNode::CacheAdapter {
                        target_schema: target_schema.duplicate(),
                        input: Box::new(ri),
                    };
                    assert(r.view() =~~= rewrite_spec(n.view(), mode));
                    Ok(r)
                },
                Err(e) => Err(e),
            }
        },
        PlanNode::Foreign { code, schema, left, right } => {
            let new_left = match left {
                Some(l) => match rewrite_node(l, mode) {
                    Ok(rl) => Some(Box::new(rl)),
                    Err(e) => {
                        return Err(e);
                    },
                },
                None => None,
            };
            let new_right = match right {
                Some(rn) => match rewrite_node(rn, mode) {
                    Ok(rr) => Some(Box::new(rr)),
                    Err(e) => {
                        return Err(e);
                    },
                },
                None => None,
            };
            let r = PlanNode::Foreign {
                code: *code,
                schema: schema.duplicate(),
                left: new_left,
                right: new_right,
            };
            assert(r.view() =~~= rewrite_spec(n.view(), mode));
            Ok(r)
        },
    }
}

// --------------------------------------------------------------------------
// The rewriter and its cache capability
// --------------------------------------------------------------------------

/// The cache capability the caller hands in: externally owned and shared;
/// the rewriter only ever reads its current mode, a snapshot fixed for the
/// duration of one rewrite.
pub struct CacheHandle {
    mode: CacheMode,
}

impl CacheHandle {
    /// The mode this capability reports.
    pub closed spec fn mode_spec(&self) -> CacheMode {
        self.mode
    }

    /// A capability reporting the given mode.
    pub fn new(mode: CacheMode) -> (r: CacheHandle)
        ensures
            r.mode_spec() == mode,
    {
        CacheHandle { mode }
    }

    /// Snapshot of the cache's current mode.
    pub fn current_mode(&self) -> (r: CacheMode)
        ensures
            r == self.mode_spec(),
    {
        self.mode
    }
}

/// Rewrites data source plans to read through an in-process cache.
pub struct InProcessRewriter {
    cache: CacheHandle,
}

impl InProcessRewriter {
    /// The mode of the cache this rewriter was built over.
    pub closed spec fn cache_mode_spec(&self) -> CacheMode {
        self.cache.mode_spec()
    }

    /// Create a rewriter over an existing cache instance.
    pub fn with_cache(cache: CacheHandle) -> (r: Self)
        ensures
            r.cache_mode_spec() == cache.mode_spec(),
    {
        InProcessRewriter { cache }
    }

    /// Rewrite a data source plan to read through the cache: the rewritten
    /// image of the plan under the cache's current mode, or an error exactly
    /// when the plan is structurally malformed.
    pub fn rewrite_data_source_plan(&self, plan: &PlanNode) -> (r: Result<
        PlanNode,
        RewriteError,
    >)
        ensures
            r is Ok <==> wf_scans(plan.view()),
            r matches Ok(p) ==> p.view() == rewrite_spec(plan.view(), self.cache_mode_spec()),
    {
        let mode = self.cache.current_mode();
        rewrite_node(plan, mode)
    }
}

// --------------------------------------------------------------------------
// Laws of the rewrite
// --------------------------------------------------------------------------

/// Whether the tree contains an eligible columnar scan anywhere.
pub open spec fn has_eligible(n: PlanView) -> bool
    decreases n,
{
    match n {
        PlanView::Scan { config } => eligible_spec(config),
        PlanView::Filter { predicate, input } => has_eligible(*input),
        PlanView::Project { columns, input } => has_eligible(*input),
        PlanView::Join { left, right } => has_eligible(*left) || has_eligible(*right),
        PlanView::Aggregate { group_columns, input } => has_eligible(*input),
        PlanView::CacheAdapter { target_schema, input } => has_eligible(*input),
        PlanView::Foreign { code, schema, left, right } => {
            ||| (left matches Some(l) && has_eligible(*l))
            ||| (right matches Some(r) && has_eligible(*r))
        },
    }
}

/// A plan with no eligible columnar scan is returned unchanged, node for
/// node, whatever the cache mode.
pub proof fn lemma_rewrite_noop(n: PlanView, mode: CacheMode)
    requires
        !has_eligible(n),
    ensures
        rewrite_spec(n, mode) == n,
    decreases n,
{
    match n {
        PlanView::Scan { config } => {},
        PlanView::Filter { predicate, input } => {
            lemma_rewrite_noop(*input, mode);
        },
        PlanView::Project { columns, input } => {
            lemma_rewrite_noop(*input, mode);
        },
        PlanView::Join { left, right } => {
            lemma_rewrite_noop(*left, mode);
            lemma_rewrite_noop(*right, mode);
        },
        PlanView::Aggregate { group_columns, input } => {
            lemma_rewrite_noop(*input, mode);
        },
        PlanView::CacheAdapter { target_schema, input } => {
            lemma_rewrite_noop(*input, mode);
        },
        PlanView::Foreign { code, schema, left, right } => {
            match left {
                Some(l) => lemma_rewrite_noop(*l, mode),
                None => {},
            }
            match right {
                Some(r) => lemma_rewrite_noop(*r, mode),
                None => {},
            }
        },
    }
}

/// Rewriting is idempotent: a second pass over an already rewritten plan
/// changes nothing, because a substituted scan reads through a cache-backed
/// source and no longer matches.
pub proof fn lemma_rewrite_idempotent(n: PlanView, mode: CacheMode)
    ensures
        rewrite_spec(rewrite_spec(n, mode), mode) == rewrite_spec(n, mode),
    decreases n,
{
    match n {
        PlanView::Scan { config } => {
            reveal_with_fuel(rewrite_spec, 3);
            if eligible_spec(config) && build_spec(config, mode) is Some {
                let built = build_spec(config, mode)->Some_0;
                assert(!eligible_spec(built));
            }
        },
        PlanView::Filter { predicate, input } => {
            lemma_rewrite_idempotent(*input, mode);
        },
        PlanView::Project { columns, input } => {
            lemma_rewrite_idempotent(*input, mode);
        },
        PlanView::Join { left, right } => {
            lemma_rewrite_idempotent(*left, mode);
            lemma_rewrite_idempotent(*right, mode);
        },
        PlanView::Aggregate { group_columns, input } => {
            lemma_rewrite_idempotent(*input, mode);
        },
        PlanView::CacheAdapter { target_schema, input } => {
            lemma_rewrite_idempotent(*input, mode);
        },
        PlanView::Foreign { code, schema, left, right } => {
            match left {
                Some(l) => lemma_rewrite_idempotent(*l, mode),
                None => {},
            }
            match right {
                Some(r) => lemma_rewrite_idempotent(*r, mode),
                None => {},
            }
        },
    }
}

/// Schema transparency: the rewritten plan's externally observed schema is
/// exactly the original's, at every node, whatever the cache mode.
pub proof fn lemma_rewrite_preserves_schema(n: PlanView, mode: CacheMode)
    ensures
        node_schema(rewrite_spec(n, mode)) == node_schema(n),
    decreases n,
{
    match n {
        PlanView::Scan { config } => {},
        PlanView::Filter { predicate, input } => {
            lemma_rewrite_preserves_schema(*input, mode);
        },
        PlanView::Project { columns, input } => {
            lemma_rewrite_preserves_schema(*input, mode);
            assert(node_schema(rewrite_spec(n, mode)) =~= node_schema(n));
        },
        PlanView::Join { left, right } => {
            lemma_rewrite_preserves_schema(*left, mode);
            lemma_rewrite_preserves_schema(*right, mode);
        },
        PlanView::Aggregate { group_columns, input } => {
            lemma_rewrite_preserves_schema(*input, mode);
            assert(node_schema(rewrite_spec(n, mode)) =~= node_schema(n));
        },
        PlanView::CacheAdapter { target_schema, input } => {
            lemma_rewrite_preserves_schema(*input, mode);
        },
        PlanView::Foreign { code, schema, left, right } => {},
    }
}

/// Fail open: an eligible scan whose cache-aware source cannot be built is
/// left in place exactly as it was, and so is every scan when the cache is
/// disengaged.
pub proof fn lemma_fail_open(config: ScanConfigView, mode: CacheMode)
    requires
        (build_spec(config, mode) is None),
    ensures
        rewrite_spec(PlanView::Scan { config }, mode) == (PlanView::Scan { config }),
{
}

/// Selective matching: a scan over anything but the eligible columnar
/// format is returned untouched.
pub proof fn lemma_ineligible_scan_unchanged(config: ScanConfigView, mode: CacheMode)
    requires
        !eligible_spec(config),
    ensures
        rewrite_spec(PlanView::Scan { config }, mode) == (PlanView::Scan { config }),
{
}

/// Selective matching across siblings: in a join of an eligible scan with
/// an ineligible one, only the eligible side is substituted; the ineligible
/// side is returned identically.
pub proof fn lemma_selective_matching(e: ScanConfigView, i: ScanConfigView, mode: CacheMode)
    requires
        eligible_spec(e),
        (build_spec(e, mode) is Some),
        !eligible_spec(i),
    ensures
        rewrite_spec(
            PlanView::Join {
                left: Box::new(PlanView::Scan { config: e }),
                right: Box::new(PlanView::Scan { config: i }),
            },
            mode,
        ) == (PlanView::Join {
            left: Box::new(
                PlanView::CacheAdapter {
                    target_schema: scan_schema(e),
                    input: Box::new(PlanView::Scan { config: build_spec(e, mode)->Some_0 }),
                },
            ),
            right: Box::new(PlanView::Scan { config: i }),
        }),
{
    reveal_with_fuel(rewrite_spec, 3);
}

} // verus!
