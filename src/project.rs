pub mod adjustment_factors;
pub mod basic_functional_component;
pub mod summary;
pub mod weighting_factors;

use adjustment_factors::{score_sum, AdjustmentFactors};
use basic_functional_component::{BasicFunctionalComponent, Complexity, FunctionalClassification};
use summary::Summary;
use vstd::prelude::*;
use weighting_factors::WeightingFactors;

verus! {

/// How many of the components in `s` are of kind `fc` and complexity `cx`.
pub open spec fn tally(
    s: Seq<BasicFunctionalComponent>,
    fc: FunctionalClassification,
    cx: Complexity,
) -> nat
    decreases s.len(),
{
    if s.len() == 0 {
        0
    } else {
        tally(s.drop_last(), fc, cx) + if s.last().spec_classification() == fc
            && s.last().spec_complexity() == cx {
            1nat
        } else {
            0nat
        }
    }
}

/// The weight of one component.
pub open spec fn component_points(w: WeightingFactors, c: BasicFunctionalComponent) -> nat {
    w.weight(c.spec_classification(), c.spec_complexity())
}

/// The weights of the components in `s`, added up one by one.
pub open spec fn points_of(w: WeightingFactors, s: Seq<BasicFunctionalComponent>) -> int
    decreases s.len(),
{
    if s.len() == 0 {
        0
    } else {
        points_of(w, s.drop_last()) + component_points(w, s.last()) as int
    }
}

/// One row of the weighted table: each count times the weight of its column.
pub open spec fn row_points(
    w: WeightingFactors,
    fc: FunctionalClassification,
    simple: nat,
    middle: nat,
    complex: nat,
) -> int {
    (simple * w.weight(fc, Complexity::Simple) + middle * w.weight(fc, Complexity::Middle)
        + complex * w.weight(fc, Complexity::Complex)) as int
}

/// The weighted table of a summary, added up over its fifteen cells.
pub open spec fn summary_points(t: Summary, w: WeightingFactors) -> int {
    row_points(w, FunctionalClassification::InternalLogicalFile,
        t.count(FunctionalClassification::InternalLogicalFile, Complexity::Simple),
        t.count(FunctionalClassification::InternalLogicalFile, Complexity::Middle),
        t.count(FunctionalClassification::InternalLogicalFile, Complexity::Complex))
    + row_points(w, FunctionalClassification::ExternalInterfaceFile,
        t.count(FunctionalClassification::ExternalInterfaceFile, Complexity::Simple),
        t.count(FunctionalClassification::ExternalInterfaceFile, Complexity::Middle),
        t.count(FunctionalClassification::ExternalInterfaceFile, Complexity::Complex))
    + row_points(w, FunctionalClassification::ExternalInput,
        t.count(FunctionalClassification::ExternalInput, Complexity::Simple),
        t.count(FunctionalClassification::ExternalInput, Complexity::Middle),
        t.count(FunctionalClassification::ExternalInput, Complexity::Complex))
    + row_points(w, FunctionalClassification::ExternalOutput,
        t.count(FunctionalClassification::ExternalOutput, Complexity::Simple),
        t.count(FunctionalClassification::ExternalOutput, Complexity::Middle),
        t.count(FunctionalClassification::ExternalOutput, Complexity::Complex))
    + row_points(w, FunctionalClassification::ExternalQuery,
        t.count(FunctionalClassification::ExternalQuery, Complexity::Simple),
        t.count(FunctionalClassification::ExternalQuery, Complexity::Middle),
        t.count(FunctionalClassification::ExternalQuery, Complexity::Complex))
}

/// The components of `s` grouped by kind and complexity, each group's size times its weight,
/// added up over the fifteen groups.
pub open spec fn grouped_points(s: Seq<BasicFunctionalComponent>, w: WeightingFactors) -> int {
    row_points(w, FunctionalClassification::InternalLogicalFile,
        tally(s, FunctionalClassification::InternalLogicalFile, Complexity::Simple),
        tally(s, FunctionalClassification::InternalLogicalFile, Complexity::Middle),
        tally(s, FunctionalClassification::InternalLogicalFile, Complexity::Complex))
    + row_points(w, FunctionalClassification::ExternalInterfaceFile,
        tally(s, FunctionalClassification::ExternalInterfaceFile, Complexity::Simple),
        tally(s, FunctionalClassification::ExternalInterfaceFile, Complexity::Middle),
        tally(s, FunctionalClassification::ExternalInterfaceFile, Complexity::Complex))
    + row_points(w, FunctionalClassification::ExternalInput,
        tally(s, FunctionalClassification::ExternalInput, Complexity::Simple),
        tally(s, FunctionalClassification::ExternalInput, Complexity::Middle),
        tally(s, FunctionalClassification::ExternalInput, Complexity::Complex))
    + row_points(w, FunctionalClassification::ExternalOutput,
        tally(s, FunctionalClassification::ExternalOutput, Complexity::Simple),
        tally(s, FunctionalClassification::ExternalOutput, Complexity::Middle),
        tally(s, FunctionalClassification::ExternalOutput, Complexity::Complex))
    + row_points(w, FunctionalClassification::ExternalQuery,
        tally(s, FunctionalClassification::ExternalQuery, Complexity::Simple),
        tally(s, FunctionalClassification::ExternalQuery, Complexity::Middle),
        tally(s, FunctionalClassification::ExternalQuery, Complexity::Complex))
}

/// Adding a component raises its own group by one and leaves the other groups as they were.
proof fn lemma_tally_push(s: Seq<BasicFunctionalComponent>, c: BasicFunctionalComponent)
    ensures
        forall|fc: FunctionalClassification, cx: Complexity| #[trigger]
            tally(s.push(c), fc, cx) == tally(s, fc, cx) + if c.spec_classification() == fc
                && c.spec_complexity() == cx {
                1int
            } else {
                0int
            },
{
    assert(s.push(c).drop_last() =~= s);
}

proof fn lemma_distribute(t: nat, d: int, w: nat)
    requires
        t + d >= 0,
    ensures
        (t + d) * w == t * w + d * w,
{
    assert((t + d) * w == t * w + d * w) by (nonlinear_arith);
}

/// The weights of the components, added one by one, equal the weighted table of their
/// groups by kind and complexity.
pub proof fn lemma_points_grouped(w: WeightingFactors, s: Seq<BasicFunctionalComponent>)
    ensures
        points_of(w, s) == grouped_points(s, w),
    decreases s.len(),
{
    if s.len() > 0 {
        let t = s.drop_last();
        let c = s.last();
        lemma_points_grouped(w, t);
        assert(s == t.push(c));
        lemma_tally_push(t, c);
        assert forall|fc: FunctionalClassification, cx: Complexity|
            #[trigger] (tally(s, fc, cx) * w.weight(fc, cx)) == tally(t, fc, cx) * w.weight(fc, cx)
                + if c.spec_classification() == fc && c.spec_complexity() == cx {
                w.weight(fc, cx) as int
            } else {
                0int
            } by {
            let d: int = if c.spec_classification() == fc && c.spec_complexity() == cx {
                1
            } else {
                0
            };
            lemma_distribute(tally(t, fc, cx), d, w.weight(fc, cx));
        }
    } else {
        assert forall|fc: FunctionalClassification, cx: Complexity|
            #[trigger] (tally(s, fc, cx) * w.weight(fc, cx)) == 0 by {
            assert(tally(s, fc, cx) == 0);
            assert(0 * w.weight(fc, cx) == 0);
        }
    }
}

/// Taking out the component at `i` takes its weight out of the total.
proof fn lemma_points_remove(w: WeightingFactors, s: Seq<BasicFunctionalComponent>, i: int)
    requires
        0 <= i < s.len(),
    ensures
        points_of(w, s) == points_of(w, s.remove(i)) + component_points(w, s[i]),
    decreases s.len(),
{
    let t = s.drop_last();
    if i == s.len() - 1 {
        assert(s.remove(i) =~= t);
    } else {
        lemma_points_remove(w, t, i);
        assert(s.remove(i).drop_last() =~= t.remove(i));
        assert(s.remove(i).last() == s.last());
    }
}

/// Components that are the same up to order weigh the same.
pub proof fn lemma_points_permutation(
    w: WeightingFactors,
    s1: Seq<BasicFunctionalComponent>,
    s2: Seq<BasicFunctionalComponent>,
)
    requires
        s1.to_multiset() == s2.to_multiset(),
    ensures
        points_of(w, s1) == points_of(w, s2),
    decreases s1.len(),
{
    broadcast use vstd::seq_lib::group_to_multiset_ensures;

    if s1.len() == 0 {
        assert(s2.len() == s2.to_multiset().len());
        assert(s1.len() == s1.to_multiset().len());
    } else {
        let t1 = s1.drop_last();
        let x = s1.last();
        assert(s1 == t1.push(x));
        assert(s1.to_multiset() == t1.to_multiset().insert(x));
        assert(s2.to_multiset().count(x) > 0);
        assert(s2.contains(x));
        let i = choose|i: int| 0 <= i < s2.len() && s2[i] == x;
        let t2 = s2.remove(i);
        assert(t2.to_multiset() == s2.to_multiset().remove(x));
        assert(t1.to_multiset() =~= t2.to_multiset());
        lemma_points_permutation(w, t1, t2);
        lemma_points_remove(w, s2, i);
    }
}

/// What a project is made of: the components submitted so far, in order, and the three
/// settings. Every published figure is a function of these.
pub struct ProjectView {
    pub components: Seq<BasicFunctionalComponent>,
    pub weights: WeightingFactors,
    pub factors: AdjustmentFactors,
    /// The rate, in hundredths of a currency unit per hour.
    pub cost_per_hour: nat,
}

impl ProjectView {
    pub open spec fn unadjusted_function_points(self) -> int {
        points_of(self.weights, self.components)
    }

    pub open spec fn total_influence_factor(self) -> int {
        self.factors.influence()
    }

    /// The value adjustment factor, 0.65 + 0.01 * influence, in hundredths.
    pub open spec fn final_adjustment_factor(self) -> int {
        65 + self.total_influence_factor()
    }

    /// The adjusted function points, in hundredths.
    pub open spec fn final_adjusted_function_points(self) -> int {
        self.unadjusted_function_points() * self.final_adjustment_factor()
    }

    /// The cost, in ten-thousandths of a currency unit: adjusted points in hundredths times
    /// the rate in hundredths.
    pub open spec fn total_cost(self) -> int {
        self.final_adjusted_function_points() * self.cost_per_hour
    }

    /// Every count and figure of the project fits the integers that hold it.
    pub open spec fn fits(self) -> bool {
        &&& forall|fc: FunctionalClassification, cx: Complexity|
            #[trigger] tally(self.components, fc, cx) <= u32::MAX
        &&& self.final_adjusted_function_points() <= u64::MAX
        &&& self.total_cost() <= u64::MAX
    }

    pub open spec fn with_component(self, c: BasicFunctionalComponent) -> ProjectView {
        ProjectView { components: self.components.push(c), ..self }
    }

    pub open spec fn with_weights(self, w: WeightingFactors) -> ProjectView {
        ProjectView { weights: w, ..self }
    }

    pub open spec fn with_factors(self, af: AdjustmentFactors) -> ProjectView {
        ProjectView { factors: af, ..self }
    }

    pub open spec fn with_cost_per_hour(self, cph: nat) -> ProjectView {
        ProjectView { cost_per_hour: cph, ..self }
    }
}

/// Why a change to a project was refused. A refused change leaves the project as it was.
#[derive(Clone, Copy, PartialEq, Eq, Structural, Debug)]
pub enum ProjectError {
    /// An adjustment factor lies outside the scale from 0 to 5.
    AdjustmentFactorOutOfRange,
    /// A count or a figure would no longer fit its integer type.
    Overflow,
}

/// A function point count in progress: the components submitted so far, the settings, and
/// the figures derived from them, recomputed on every change.
#[derive(Debug)]
pub struct Project {
    basic_functional_components: Vec<BasicFunctionalComponent>,
    summary: Summary,
    adjustment_factors: AdjustmentFactors,
    weighting_factors: WeightingFactors,
    total_function_point_not_adjusted: u64,
    total_influence_factor: u32,
    final_adjustment_factor: u32,
    final_adjusted_function_points: u64,
    cost_per_hour: u64,
    total_cost: u64,
}

impl View for Project {
    type V = ProjectView;

    closed spec fn view(&self) -> ProjectView {
        ProjectView {
            components: self.basic_functional_components@,
            weights: self.weighting_factors,
            factors: self.adjustment_factors,
            cost_per_hour: self.cost_per_hour as nat,
        }
    }
}

/// A summary that counts the groups of `s` weighs what the components of `s` weigh.
proof fn lemma_summary_points(t: Summary, s: Seq<BasicFunctionalComponent>, w: WeightingFactors)
    requires
        forall|fc: FunctionalClassification, cx: Complexity| #[trigger]
            t.count(fc, cx) == tally(s, fc, cx),
    ensures
        summary_points(t, w) == points_of(w, s),
{
    lemma_points_grouped(w, s);
}

/// The order in which the components were added changes none of the published figures: two
/// projects with the same settings whose components are the same up to order agree on all of
/// them.
pub proof fn lemma_order_independent(p: ProjectView, q: ProjectView)
    requires
        p.components.to_multiset() == q.components.to_multiset(),
        p.weights == q.weights,
        p.factors == q.factors,
        p.cost_per_hour == q.cost_per_hour,
    ensures
        p.unadjusted_function_points() == q.unadjusted_function_points(),
        p.final_adjusted_function_points() == q.final_adjusted_function_points(),
        p.total_cost() == q.total_cost(),
{
    lemma_points_permutation(p.weights, p.components, q.components);
}

/// The total cost is linear in the cost per hour: doubling the rate doubles it.
pub proof fn lemma_cost_linear(p: ProjectView, rate: nat)
    ensures
        p.with_cost_per_hour(2 * rate).total_cost() == 2 * p.with_cost_per_hour(rate).total_cost(),
{
    let fafp = p.final_adjusted_function_points();
    assert(fafp * (2 * rate) == 2 * (fafp * rate)) by (nonlinear_arith);
}

proof fn lemma_product_bound(a: u32, b: u32)
    ensures
        a * b <= 0xffff_fffe_0000_0001,
{
    assert(a * b <= 0xffff_ffff * 0xffff_ffff) by (nonlinear_arith)
        requires
            a <= 0xffff_ffff,
            b <= 0xffff_ffff,
    ;
}

impl Project {
    /// The cached figures agree with what the project is made of, and the settings are valid.
    pub closed spec fn wf(&self) -> bool {
        &&& self.adjustment_factors.within_scale()
        &&& self@.fits()
        &&& forall|fc: FunctionalClassification, cx: Complexity| #[trigger]
            self.summary.count(fc, cx) == tally(self.basic_functional_components@, fc, cx)
        &&& self.total_function_point_not_adjusted == self@.unadjusted_function_points()
        &&& self.total_influence_factor == self@.total_influence_factor()
        &&& self.final_adjustment_factor == self@.final_adjustment_factor()
        &&& self.final_adjusted_function_points == self@.final_adjusted_function_points()
        &&& self.total_cost == self@.total_cost()
    }

    /// Create a new Project: no components, every weight and factor zero, and no cost per hour.
    pub fn new() -> (r: Self)
        ensures
            r.wf(),
            r@.components == Seq::<BasicFunctionalComponent>::empty(),
            r@.weights.spec_referenced_logical_file() == seq![0u32, 0, 0],
            r@.weights.spec_external_query() == seq![0u32, 0, 0],
            r@.weights.spec_external_output() == seq![0u32, 0, 0],
            r@.weights.spec_external_input() == seq![0u32, 0, 0],
            r@.factors.scores() == seq![0u8, 0, 0, 0, 0, 0, 0, 0, 0, 0, 0, 0, 0, 0],
            r@.cost_per_hour == 0,
    {
        let factors = AdjustmentFactors::new([0, 0, 0, 0, 0, 0, 0, 0, 0, 0, 0, 0, 0, 0]);
        let r = Project {
            basic_functional_components: Vec::new(),
            summary: Summary::new(),
            adjustment_factors: factors,
            weighting_factors: WeightingFactors::new(),
            total_function_point_not_adjusted: 0,
            total_influence_factor: 0,
            final_adjustment_factor: 65,
            final_adjusted_function_points: 0,
            cost_per_hour: 0,
            total_cost: 0,
        };
        proof {
            reveal_with_fuel(score_sum, 15);
            assert(factors.scores() =~= seq![0u8, 0, 0, 0, 0, 0, 0, 0, 0, 0, 0, 0, 0, 0]);
            assert(r@.components =~= Seq::<BasicFunctionalComponent>::empty());
        }
        r
    }

    /// Add Basic Functional Component to Project, counted under its kind and its current
    /// complexity, and recompute every figure. Refused, with the project unchanged, where a
    /// count or a figure would no longer fit.
    pub fn add_bfc(&mut self, bfc: BasicFunctionalComponent) -> (r: Result<(), ProjectError>)
        requires
            old(self).wf(),
        ensures
            final(self).wf(),
            r is Ok <==> old(self)@.with_component(bfc).fits(),
            r is Ok ==> final(self)@ == old(self)@.with_component(bfc),
            r is Err ==> r == Err::<(), ProjectError>(ProjectError::Overflow) && final(self)@
                == old(self)@,
    {
        let ghost next = self@.with_component(bfc);
        let fc = *bfc.functional_classification();
        let cx = *bfc.complexity();
        let mut summary = self.summary;
        proof {
            self.adjustment_factors.lemma_influence_bounds();
            lemma_tally_push(self.basic_functional_components@, bfc);
        }
        if !summary.increment(fc, cx) {
            proof {
                assert(tally(next.components, fc, cx) > u32::MAX);
            }
            return Err(ProjectError::Overflow);
        }
        proof {
            lemma_summary_points(summary, next.components, self.weighting_factors);
        }
        match Self::recompute(
            &summary,
            &self.weighting_factors,
            self.final_adjustment_factor,
            self.cost_per_hour,
        ) {
            None => Err(ProjectError::Overflow),
            Some((tfna, fafp, cost)) => {
                self.summary = summary;
                self.basic_functional_components.push(bfc);
                self.total_function_point_not_adjusted = tfna;
                self.final_adjusted_function_points = fafp;
                self.total_cost = cost;
                proof {
                    assert(self@ == next);
                }
                Ok(())
            },
        }
    }

    /// Set the Weighting Factors, and recompute every figure. Refused, with the project
    /// unchanged, where a figure would no longer fit.
    pub fn set_weighting_factors(&mut self, wf: WeightingFactors) -> (r: Result<(), ProjectError>)
        requires
            old(self).wf(),
        ensures
            final(self).wf(),
            r is Ok <==> old(self)@.with_weights(wf).fits(),
            r is Ok ==> final(self)@ == old(self)@.with_weights(wf),
            r is Err ==> r == Err::<(), ProjectError>(ProjectError::Overflow) && final(self)@
                == old(self)@,
    {
        let ghost next = self@.with_weights(wf);
        proof {
            self.adjustment_factors.lemma_influence_bounds();
            lemma_summary_points(self.summary, next.components, wf);
        }
        match Self::recompute(&self.summary, &wf, self.final_adjustment_factor, self.cost_per_hour) {
            None => Err(ProjectError::Overflow),
            Some((tfna, fafp, cost)) => {
                self.weighting_factors = wf;
                self.total_function_point_not_adjusted = tfna;
                self.final_adjusted_function_points = fafp;
                self.total_cost = cost;
                proof {
                    assert(self@ == next);
                }
                Ok(())
            },
        }
    }

    /// Set Adjustment Factors, and recompute the influence, the adjustment factor, the adjusted
    /// points and the cost. Refused, with the project unchanged, where a factor lies outside
    /// the scale from 0 to 5, or else where a figure would no longer fit.
    pub fn set_adjustment_factors(&mut self, af: AdjustmentFactors) -> (r: Result<
        (),
        ProjectError,
    >)
        requires
            old(self).wf(),
        ensures
            final(self).wf(),
            r is Ok <==> af.within_scale() && old(self)@.with_factors(af).fits(),
            r == Err::<(), ProjectError>(ProjectError::AdjustmentFactorOutOfRange)
                <==> !af.within_scale(),
            r is Ok ==> final(self)@ == old(self)@.with_factors(af),
            r is Err ==> final(self)@ == old(self)@,
    {
        let ghost next = self@.with_factors(af);
        if !af.is_within_scale() {
            return Err(ProjectError::AdjustmentFactorOutOfRange);
        }
        let tif = af.sum();
        proof {
            af.lemma_influence_bounds();
            lemma_summary_points(self.summary, next.components, self.weighting_factors);
        }
        let faf = 65 + tif;
        match Self::recompute(&self.summary, &self.weighting_factors, faf, self.cost_per_hour) {
            None => Err(ProjectError::Overflow),
            Some((tfna, fafp, cost)) => {
                self.adjustment_factors = af;
                self.total_influence_factor = tif;
                self.final_adjustment_factor = faf;
                self.total_function_point_not_adjusted = tfna;
                self.final_adjusted_function_points = fafp;
                self.total_cost = cost;
                proof {
                    assert(self@ == next);
                }
                Ok(())
            },
        }
    }

    /// Set Cost per Hour, given in hundredths of a currency unit (1250 for 12.50), and
    /// recompute the cost. Refused, with the project unchanged, where
    /// the cost would no longer fit.
    pub fn set_cost_per_hour(&mut self, cph: u64) -> (r: Result<(), ProjectError>)
        requires
            old(self).wf(),
        ensures
            final(self).wf(),
            r is Ok <==> old(self)@.with_cost_per_hour(cph as nat).fits(),
            r is Ok ==> final(self)@ == old(self)@.with_cost_per_hour(cph as nat),
            r is Err ==> r == Err::<(), ProjectError>(ProjectError::Overflow) && final(self)@
                == old(self)@,
    {
        let ghost next = self@.with_cost_per_hour(cph as nat);
        match Self::compute_cost(self.final_adjusted_function_points, cph) {
            None => Err(ProjectError::Overflow),
            Some(cost) => {
                self.cost_per_hour = cph;
                self.total_cost = cost;
                proof {
                    assert(self@ == next);
                }
                Ok(())
            },
        }
    }

    /// The total influence always lies between 0 and 70, so the adjustment factor lies
    /// between 0.65 and 1.35.
    pub proof fn lemma_factor_ranges(&self)
        requires
            self.wf(),
        ensures
            self@.factors.within_scale(),
            0 <= self@.total_influence_factor() <= 70,
            65 <= self@.final_adjustment_factor() <= 135,
    {
        self.adjustment_factors.lemma_influence_bounds();
    }

    /// The unadjusted function points.
    pub fn total_function_point_not_adjusted(&self) -> (r: u64)
        requires
            self.wf(),
        ensures
            r == self@.unadjusted_function_points(),
    {
        self.total_function_point_not_adjusted
    }

    /// The total degree of influence of the adjustment factors, from 0 to 70.
    pub fn total_influence_factor(&self) -> (r: u32)
        requires
            self.wf(),
        ensures
            r == self@.total_influence_factor(),
            r <= 70,
    {
        proof {
            self.lemma_factor_ranges();
        }
        self.total_influence_factor
    }

    /// The value adjustment factor in hundredths, from 65 to 135.
    pub fn final_adjustment_factor(&self) -> (r: u32)
        requires
            self.wf(),
        ensures
            r == self@.final_adjustment_factor(),
            65 <= r <= 135,
    {
        proof {
            self.lemma_factor_ranges();
        }
        self.final_adjustment_factor
    }

    /// The adjusted function points, in hundredths.
    pub fn final_adjusted_function_points(&self) -> (r: u64)
        requires
            self.wf(),
        ensures
            r == self@.final_adjusted_function_points(),
    {
        self.final_adjusted_function_points
    }

    /// The total cost, in ten-thousandths of a currency unit.
    pub fn total_cost(&self) -> (r: u64)
        requires
            self.wf(),
        ensures
            r == self@.total_cost(),
    {
        self.total_cost
    }

    /// The weighted table of one row: each count times its weight.
    fn compute_weight(summary: &[u32; 3], weight: &[u32; 3]) -> (r: u128)
        ensures
            r == summary@[0] * weight@[0] + summary@[1] * weight@[1] + summary@[2] * weight@[2],
            r <= 3 * 0xffff_fffe_0000_0001,
    {
        proof {
            lemma_product_bound(summary@[0], weight@[0]);
            lemma_product_bound(summary@[1], weight@[1]);
            lemma_product_bound(summary@[2], weight@[2]);
        }
        summary[0] as u128 * weight[0] as u128 + summary[1] as u128 * weight[1] as u128
            + summary[2] as u128 * weight[2] as u128
    }

    /// The unadjusted function points of a summary under a set of weights.
    fn compute_tfna(summary: &Summary, wf: &WeightingFactors) -> (r: u128)
        ensures
            r == summary_points(*summary, *wf),
            r <= 15 * 0xffff_fffe_0000_0001,
    {
        proof {
            wf.lemma_rows_len();
        }
        let ilf_result = Self::compute_weight(
            &summary.internal_logical_file,
            wf.referenced_logical_file(),
        );
        let eif_result = Self::compute_weight(
            &summary.external_interface_file,
            wf.referenced_logical_file(),
        );
        let ei_result = Self::compute_weight(&summary.external_input, wf.external_input());
        let eo_result = Self::compute_weight(&summary.external_output, wf.external_output());
        let eq_result = Self::compute_weight(&summary.external_query, wf.external_query());
        ilf_result + eif_result + ei_result + eo_result + eq_result
    }

    /// The adjusted function points, in hundredths, where they fit in a `u64`.
    fn compute_fafp(tfna: u128, faf: u32) -> (r: Option<u64>)
        requires
            tfna <= 15 * 0xffff_fffe_0000_0001,
            faf <= 135,
        ensures
            r is Some <==> tfna * faf <= u64::MAX,
            r matches Some(v) ==> v == tfna * faf,
    {
        proof {
            assert(tfna * faf <= 15 * 0xffff_fffe_0000_0001 * 135) by (nonlinear_arith)
                requires
                    tfna <= 15 * 0xffff_fffe_0000_0001,
                    faf <= 135,
            ;
        }
        let fafp = tfna * faf as u128;
        if fafp <= u64::MAX as u128 {
            Some(fafp as u64)
        } else {
            None
        }
    }

    /// The cost, in ten-thousandths of a currency unit, where it fits in a `u64`.
    fn compute_cost(fafp: u64, cph: u64) -> (r: Option<u64>)
        ensures
            r is Some <==> fafp * cph <= u64::MAX,
            r matches Some(v) ==> v == fafp * cph,
    {
        proof {
            assert(fafp * cph <= u64::MAX * u64::MAX) by (nonlinear_arith)
                requires
                    fafp <= u64::MAX,
                    cph <= u64::MAX,
            ;
        }
        let cost = fafp as u128 * cph as u128;
        if cost <= u64::MAX as u128 {
            Some(cost as u64)
        } else {
            None
        }
    }

    /// The recomputation cascade: unadjusted points from the summary and weights, adjusted
    /// points from those and the adjustment factor, cost from those and the rate. Gives
    /// `None` where the adjusted points or the cost do not fit in a `u64`.
    fn recompute(summary: &Summary, wf: &WeightingFactors, faf: u32, cph: u64) -> (r: Option<
        (u64, u64, u64),
    >)
        requires
            65 <= faf <= 135,
        ensures
            r is Some <==> summary_points(*summary, *wf) * faf <= u64::MAX
                && summary_points(*summary, *wf) * faf * cph <= u64::MAX,
            r matches Some((tfna, fafp, cost)) ==> {
                &&& tfna == summary_points(*summary, *wf)
                &&& fafp == tfna * faf
                &&& cost == fafp * cph
            },
    {
        let tfna = Self::compute_tfna(summary, wf);
        match Self::compute_fafp(tfna, faf) {
            None => None,
            Some(fafp) => {
                proof {
                    assert(tfna <= tfna * faf) by (nonlinear_arith)
                        requires
                            faf >= 1,
                            tfna >= 0,
                    ;
                }
                match Self::compute_cost(fafp, cph) {
                    None => None,
                    Some(cost) => Some((tfna as u64, fafp, cost)),
                }
            },
        }
    }
}


impl Default for Project {
    /// The same project as `Project::new`.
    fn default() -> (r: Self)
        ensures
            r.wf(),
            r@.components == Seq::<BasicFunctionalComponent>::empty(),
            r@.weights.spec_referenced_logical_file() == seq![0u32, 0, 0],
            r@.weights.spec_external_query() == seq![0u32, 0, 0],
            r@.weights.spec_external_output() == seq![0u32, 0, 0],
            r@.weights.spec_external_input() == seq![0u32, 0, 0],
            r@.factors.scores() == seq![0u8, 0, 0, 0, 0, 0, 0, 0, 0, 0, 0, 0, 0, 0],
            r@.cost_per_hour == 0,
    {
        Project::new()
    }
}

} // verus!
