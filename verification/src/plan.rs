//! The physical plan model: scan configurations, column source descriptors,
//! and the plan tree the rewriter walks.

use vstd::prelude::*;
use crate::CacheMode;
use crate::schema::{FieldView, Schema};

verus! {

/// The format-specific reader a scan configuration delegates decoding to.
#[derive(Debug, PartialEq, Eq)]
pub enum ColumnSource {
    /// The columnar file format the cache can integrate with; the only
    /// variant eligible for substitution.
    Columnar,
    /// A row-oriented, delimited text format; never substituted.
    Delimited,
    /// A format this pass does not know; never substituted.
    Foreign { code: u64 },
    /// A source that routes reads through the cache. Carries the original
    /// file-format source, the pre-coercion logical schema, and the cache
    /// mode the source was built under.
    CacheBacked { original: Box<ColumnSource>, logical_schema: Schema, mode: CacheMode },
}

/// Mathematical view of a column source descriptor.
#[verifier::ext_equal]
pub ghost enum ColumnSourceView {
    Columnar,
    Delimited,
    Foreign { code: u64 },
    CacheBacked { original: Box<ColumnSourceView>, logical_schema: Seq<FieldView>, mode: CacheMode },
}

impl ColumnSource {
    /// View of this descriptor.
    pub open spec fn view(self) -> ColumnSourceView
        decreases self,
    {
        match self {
            ColumnSource::Columnar => ColumnSourceView::Columnar,
            ColumnSource::Delimited => ColumnSourceView::Delimited,
            ColumnSource::Foreign { code } => ColumnSourceView::Foreign { code },
            ColumnSource::CacheBacked { original, logical_schema, mode } =>
                ColumnSourceView::CacheBacked {
                    original: Box::new((*original).view()),
                    logical_schema: logical_schema@,
                    mode,
                },
        }
    }
}

impl ColumnSource {
    /// A structurally equal copy of this descriptor.
    pub fn duplicate(&self) -> (r: ColumnSource)
        ensures
            r.view() == self.view(),
        decreases self,
    {
        match self {
            ColumnSource::Columnar => ColumnSource::Columnar,
            ColumnSource::Delimited => ColumnSource::Delimited,
            ColumnSource::Foreign { code } => ColumnSource::Foreign { code: *code },
            ColumnSource::CacheBacked { original, logical_schema, mode } => {
                let r = ColumnSource::CacheBacked {
                    original: Box::new((**original).duplicate()),
                    logical_schema: logical_schema.duplicate(),
                    mode: *mode,
                };
                assert(r.view() =~~= self.view());
                r
            },
        }
    }
}

/// A copy of a vector of strings, equal element by element.
pub fn clone_strings(v: &Vec<String>) -> (r: Vec<String>)
    ensures
        r@.len() == v@.len(),
        forall|i: int| 0 <= i < v@.len() ==> #[trigger] r@[i]@ == v@[i]@,
{
    let mut r: Vec<String> = Vec::new();
    let mut i: usize = 0;
    while i < v.len()
        invariant
            i <= v@.len(),
            r@.len() == i as int,
            forall|j: int| 0 <= j < i ==> #[trigger] r@[j]@ == v@[j]@,
        decreases v@.len() - i,
    {
        r.push(v[i].clone());
        i = i + 1;
    }
    r
}

/// A copy of an optional projection, equal position by position.
pub fn clone_projection(v: &Option<Vec<usize>>) -> (r: Option<Vec<usize>>)
    ensures
        match v {
            Some(p) => r matches Some(q) && q@ == p@,
            None => r is None,
        },
{
    match v {
        Some(p) => {
            let mut q: Vec<usize> = Vec::new();
            let mut i: usize = 0;
            while i < p.len()
                invariant
                    i <= p@.len(),
                    q@.len() == i as int,
                    forall|j: int| 0 <= j < i ==> q@[j] == p@[j],
                decreases p@.len() - i,
            {
                q.push(p[i]);
                i = i + 1;
            }
            assert(q@ =~= p@);
            Some(q)
        },
        None => None,
    }
}

/// A copy of an optional predicate, equal as text.
pub fn clone_predicate(v: &Option<String>) -> (r: Option<String>)
    ensures
        match v {
            Some(p) => r matches Some(q) && q@ == p@,
            None => r is None,
        },
{
    match v {
        Some(p) => Some(p.clone()),
        None => None,
    }
}

/// What a leaf data-source node reads: files, partition-column values, a
/// projection, an optional pushdown predicate, the file schema, and the
/// format-specific column source.
#[derive(Debug, PartialEq, Eq)]
pub struct ScanConfig {
    pub files: Vec<String>,
    pub partition_values: Vec<String>,
    pub projection: Option<Vec<usize>>,
    pub predicate: Option<String>,
    pub file_schema: Schema,
    pub source: ColumnSource,
}

/// Mathematical view of a scan configuration.
#[verifier::ext_equal]
pub ghost struct ScanConfigView {
    pub files: Seq<Seq<char>>,
    pub partition_values: Seq<Seq<char>>,
    pub projection: Option<Seq<usize>>,
    pub predicate: Option<Seq<char>>,
    pub file_schema: Seq<FieldView>,
    pub source: ColumnSourceView,
}

impl ScanConfig {
    /// View of this configuration.
    pub open spec fn view(self) -> ScanConfigView {
        ScanConfigView {
            files: Seq::new(self.files@.len(), |i: int| self.files@[i]@),
            partition_values: Seq::new(
                self.partition_values@.len(),
                |i: int| self.partition_values@[i]@,
            ),
            projection: match self.projection {
                Some(p) => Some(p@),
                None => None,
            },
            predicate: match self.predicate {
                Some(q) => Some(q@),
                None => None,
            },
            file_schema: self.file_schema@,
            source: self.source.view(),
        }
    }
}

impl ScanConfig {
    /// A structurally equal copy of this configuration.
    pub fn duplicate(&self) -> (r: ScanConfig)
        ensures
            r.view() == self.view(),
    {
        let r = ScanConfig {
            files: clone_strings(&self.files),
            partition_values: clone_strings(&self.partition_values),
            projection: clone_projection(&self.projection),
            predicate: clone_predicate(&self.predicate),
            file_schema: self.file_schema.duplicate(),
            source: self.source.duplicate(),
        };
        assert(r.view() =~~= self.view());
        r
    }
}

/// The schema a scan produces: the projected subset of the file schema, in
/// projection order, or the whole file schema when nothing is projected.
pub open spec fn scan_schema(c: ScanConfigView) -> Seq<FieldView> {
    match c.projection {
        Some(p) => Seq::new(p.len(), |i: int| c.file_schema[p[i] as int]),
        None => c.file_schema,
    }
}

/// A node of a physical execution plan. The tree is polymorphic over the
/// operator kinds this pass knows, plus a foreign catch-all for every other
/// operator shape.
#[derive(Debug, PartialEq, Eq)]
pub enum PlanNode {
    /// Leaf data-source node.
    Scan { config: ScanConfig },
    /// Row filter; passes its input schema through.
    Filter { predicate: String, input: Box<PlanNode> },
    /// Column projection by position into the input schema.
    Project { columns: Vec<usize>, input: Box<PlanNode> },
    /// Two-sided join; emits the left schema followed by the right.
    Join { left: Box<PlanNode>, right: Box<PlanNode> },
    /// Grouping; emits the grouped columns of the input schema.
    Aggregate { group_columns: Vec<usize>, input: Box<PlanNode> },
    /// The output adapter: emits its input's rows under the target schema.
    CacheAdapter { target_schema: Schema, input: Box<PlanNode> },
    /// An operator this pass does not know; carried through untouched.
    /// Unknown operators of wider fan-out nest through further foreign nodes.
    Foreign {
        code: u64,
        schema: Schema,
        left: Option<Box<PlanNode>>,
        right: Option<Box<PlanNode>>,
    },
}

/// Mathematical view of a plan tree.
#[verifier::ext_equal]
pub ghost enum PlanView {
    Scan { config: ScanConfigView },
    Filter { predicate: Seq<char>, input: Box<PlanView> },
    Project { columns: Seq<usize>, input: Box<PlanView> },
    Join { left: Box<PlanView>, right: Box<PlanView> },
    Aggregate { group_columns: Seq<usize>, input: Box<PlanView> },
    CacheAdapter { target_schema: Seq<FieldView>, input: Box<PlanView> },
    Foreign {
        code: u64,
        schema: Seq<FieldView>,
        left: Option<Box<PlanView>>,
        right: Option<Box<PlanView>>,
    },
}

impl PlanNode {
    /// View of this plan tree.
    pub open spec fn view(self) -> PlanView
        decreases self,
    {
        match self {
            PlanNode::Scan { config } => PlanView::Scan { config: config.view() },
            PlanNode::Filter { predicate, input } => PlanView::Filter {
                predicate: predicate@,
                input: Box::new((*input).view()),
            },
            PlanNode::Project { columns, input } => PlanView::Project {
                columns: columns@,
                input: Box::new((*input).view()),
            },
            PlanNode::Join { left, right } => PlanView::Join {
                left: Box::new((*left).view()),
                right: Box::new((*right).view()),
            },
            PlanNode::Aggregate { group_columns, input } => PlanView::Aggregate {
                group_columns: group_columns@,
                input: Box::new((*input).view()),
            },
            PlanNode::CacheAdapter { target_schema, input } => PlanView::CacheAdapter {
                target_schema: target_schema@,
                input: Box::new((*input).view()),
            },
            PlanNode::Foreign { code, schema, left, right } => PlanView::Foreign {
                code,
                schema: schema@,
                left: match left {
                    Some(l) => Some(Box::new((*l).view())),
                    None => None,
                },
                right: match right {
                    Some(r) => Some(Box::new((*r).view())),
                    None => None,
                },
            },
        }
    }
}

/// The output schema of a plan node, determined by its children's schemas
/// and its own operator semantics.
pub open spec fn node_schema(n: PlanView) -> Seq<FieldView>
    decreases n,
{
    match n {
        PlanView::Scan { config } => scan_schema(config),
        PlanView::Filter { predicate, input } => node_schema(*input),
        PlanView::Project { columns, input } => Seq::new(
            columns.len(),
            |i: int| node_schema(*input)[columns[i] as int],
        ),
        PlanView::Join { left, right } => node_schema(*left) + node_schema(*right),
        PlanView::Aggregate { group_columns, input } => Seq::new(
            group_columns.len(),
            |i: int| node_schema(*input)[group_columns[i] as int],
        ),
        PlanView::CacheAdapter { target_schema, input } => target_schema,
        PlanView::Foreign { code, schema, left, right } => schema,
    }
}

} // verus!
