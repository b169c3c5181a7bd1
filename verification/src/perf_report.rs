use vstd::prelude::*;

use crate::engine::LDCEngine;
use crate::tuning::{OptimizationCategory, RecommendationPriority};

verus! {

/// How the recorded metrics compare with the report's thresholds; the metrics are
/// floating-point values, so the comparisons come from the caller.
#[derive(Debug, Clone, Copy, PartialEq, Eq, Structural)]
pub struct ReportReadings {
    /// P95 latency above 5 ms.
    pub latency_p95_above_5ms: bool,
    /// Memory in use above 80% of the peak.
    pub memory_above_80_percent_of_peak: bool,
    /// CPU utilisation below 70%.
    pub cpu_below_70_percent: bool,
    /// Thread efficiency below 60%.
    pub thread_efficiency_below_60_percent: bool,
    /// HNSW accuracy below 95%.
    pub hnsw_accuracy_below_95_percent: bool,
}

/// The metric a report recommendation quotes.
#[derive(Debug, Clone, Copy, PartialEq, Eq, Structural)]
pub enum ReportFinding {
    Latency,
    MemoryUtilization,
    CpuUtilization,
    ThreadEfficiency,
    HnswAccuracy,
}

/// A recommendation of the performance report.
#[derive(Debug)]
pub struct ReportRecommendation {
    pub category: OptimizationCategory,
    pub priority: RecommendationPriority,
    pub finding: ReportFinding,
    pub action: String,
}

/// Category, priority, finding and action of a report recommendation.
pub type ReportText = (OptimizationCategory, RecommendationPriority, ReportFinding, Seq<char>);

/// The view of a report recommendation.
pub open spec fn report_view(r: ReportRecommendation) -> ReportText {
    (r.category, r.priority, r.finding, r.action@)
}

/// The views of report recommendations, in order.
pub open spec fn report_views(v: Seq<ReportRecommendation>) -> Seq<ReportText> {
    v.map_values(|r: ReportRecommendation| report_view(r))
}

/// `x` when `b` holds, nothing otherwise.
pub open spec fn if_holds(b: bool, x: ReportText) -> Seq<ReportText> {
    if b {
        seq![x]
    } else {
        Seq::empty()
    }
}

/// The report's recommendations, in order: HNSW indexing for a high P95 latency;
/// memory mapping for memory near its peak; more parallelism for an idle CPU with
/// more than 100 samples; a better pool for inefficient threads; HNSW tuning for an
/// inaccurate index that is in use.
pub open spec fn report_recommendations(r: ReportReadings, use_hnsw_index: bool, samples: nat) -> Seq<
    ReportText,
> {
    if_holds(
        r.latency_p95_above_5ms,
        (
            OptimizationCategory::Latency,
            RecommendationPriority::High,
            ReportFinding::Latency,
            "Enable HNSW indexing for datasets > 1000 samples"@,
        ),
    ) + if_holds(
        r.memory_above_80_percent_of_peak,
        (
            OptimizationCategory::Memory,
            RecommendationPriority::Medium,
            ReportFinding::MemoryUtilization,
            "Enable memory mapping or increase memory pool size"@,
        ),
    ) + if_holds(
        r.cpu_below_70_percent && samples > 100,
        (
            OptimizationCategory::CPU,
            RecommendationPriority::Medium,
            ReportFinding::CpuUtilization,
            "Reduce parallel threshold or enable SIMD optimization"@,
        ),
    ) + if_holds(
        r.thread_efficiency_below_60_percent,
        (
            OptimizationCategory::Threading,
            RecommendationPriority::High,
            ReportFinding::ThreadEfficiency,
            "Switch to dedicated thread pool or enable work stealing"@,
        ),
    ) + if_holds(
        use_hnsw_index && r.hnsw_accuracy_below_95_percent,
        (
            OptimizationCategory::Accuracy,
            RecommendationPriority::Medium,
            ReportFinding::HnswAccuracy,
            "Increase hnsw_ef_construction or hnsw_m parameters"@,
        ),
    )
}

fn push_when(
    out: &mut Vec<ReportRecommendation>,
    b: bool,
    category: OptimizationCategory,
    priority: RecommendationPriority,
    finding: ReportFinding,
    action: &str,
)
    ensures
        report_views(final(out)@) == report_views(old(out)@) + if_holds(
            b,
            (category, priority, finding, action@),
        ),
{
    let ghost before = out@;
    if b {
        out.push(ReportRecommendation { category, priority, finding, action: action.to_owned() });
        assert(report_views(out@) =~= report_views(before) + if_holds(
            b,
            (category, priority, finding, action@),
        ));
    } else {
        assert(report_views(out@) =~= report_views(before) + if_holds(
            b,
            (category, priority, finding, action@),
        ));
    }
}

impl LDCEngine {
    /// The recommendations of the performance report for the given readings; see
    /// [`report_recommendations`].
    pub fn performance_report_recommendations(&self, r: &ReportReadings) -> (out: Vec<
        ReportRecommendation,
    >)
        ensures
            report_views(out@) == report_recommendations(
                *r,
                self.cfg().use_hnsw_index,
                self.samples().len(),
            ),
    {
        let mut out: Vec<ReportRecommendation> = Vec::new();
        let ghost empty = report_views(out@);
        assert(empty =~= Seq::<ReportText>::empty());
        push_when(
            &mut out,
            r.latency_p95_above_5ms,
            OptimizationCategory::Latency,
            RecommendationPriority::High,
            ReportFinding::Latency,
            "Enable HNSW indexing for datasets > 1000 samples",
        );
        push_when(
            &mut out,
            r.memory_above_80_percent_of_peak,
            OptimizationCategory::Memory,
            RecommendationPriority::Medium,
            ReportFinding::MemoryUtilization,
            "Enable memory mapping or increase memory pool size",
        );
        push_when(
            &mut out,
            r.cpu_below_70_percent && self.training_samples_count() > 100,
            OptimizationCategory::CPU,
            RecommendationPriority::Medium,
            ReportFinding::CpuUtilization,
            "Reduce parallel threshold or enable SIMD optimization",
        );
        push_when(
            &mut out,
            r.thread_efficiency_below_60_percent,
            OptimizationCategory::Threading,
            RecommendationPriority::High,
            ReportFinding::ThreadEfficiency,
            "Switch to dedicated thread pool or enable work stealing",
        );
        push_when(
            &mut out,
            self.config().use_hnsw_index && r.hnsw_accuracy_below_95_percent,
            OptimizationCategory::Accuracy,
            RecommendationPriority::Medium,
            ReportFinding::HnswAccuracy,
            "Increase hnsw_ef_construction or hnsw_m parameters",
        );
        assert(report_views(out@) =~= report_recommendations(
            *r,
            self.cfg().use_hnsw_index,
            self.samples().len(),
        ));
        out
    }
}

} // verus!
