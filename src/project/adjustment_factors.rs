use vstd::prelude::*;

verus! {

/// Sum of a sequence of influence scores.
pub open spec fn score_sum(s: Seq<u8>) -> int
    decreases s.len(),
{
    if s.len() == 0 {
        0
    } else {
        score_sum(s.drop_last()) + s.last()
    }
}

/// The fourteen general system characteristics, each scored on its degree of influence.
#[derive(Clone, Copy, Debug, Default)]
pub struct AdjustmentFactors {
    teleprocessing: u8,
    distributed_processing: u8,
    performance: u8,
    machine_load: u8,
    transaction_volume: u8,
    online_data_input: u8,
    online_updates: u8,
    user_end_eficiency: u8,
    processing_complexity: u8,
    code_reuse: u8,
    implementation_facility: u8,
    operation_facility: u8,
    maintenance_facility: u8,
    operation_in_multiple_locations: u8,
}

impl AdjustmentFactors {
    /// The fourteen scores, in the order that `new` takes them.
    pub closed spec fn scores(self) -> Seq<u8> {
        seq![
            self.teleprocessing,
            self.distributed_processing,
            self.performance,
            self.machine_load,
            self.transaction_volume,
            self.online_data_input,
            self.online_updates,
            self.user_end_eficiency,
            self.processing_complexity,
            self.code_reuse,
            self.implementation_facility,
            self.operation_facility,
            self.maintenance_facility,
            self.operation_in_multiple_locations,
        ]
    }

    /// The total degree of influence.
    pub open spec fn influence(self) -> int {
        score_sum(self.scores())
    }

    /// Every score lies on the standard scale from 0 to 5.
    pub open spec fn within_scale(self) -> bool {
        forall|i: int| 0 <= i < self.scores().len() ==> #[trigger] self.scores()[i] <= 5
    }

    pub fn new(factors_vec: [u8; 14]) -> (r: Self)
        ensures
            r.scores() == factors_vec@,
    {
        let r = AdjustmentFactors {
            teleprocessing: factors_vec[0],
            distributed_processing: factors_vec[1],
            performance: factors_vec[2],
            machine_load: factors_vec[3],
            transaction_volume: factors_vec[4],
            online_data_input: factors_vec[5],
            online_updates: factors_vec[6],
            user_end_eficiency: factors_vec[7],
            processing_complexity: factors_vec[8],
            code_reuse: factors_vec[9],
            implementation_facility: factors_vec[10],
            operation_facility: factors_vec[11],
            maintenance_facility: factors_vec[12],
            operation_in_multiple_locations: factors_vec[13],
        };
        assert(r.scores() =~= factors_vec@);
        r
    }

    /// The total degree of influence of the fourteen scores.
    pub fn sum(&self) -> (r: u32)
        ensures
            r == self.influence(),
    {
        proof {
            reveal_with_fuel(score_sum, 15);
        }
        self.teleprocessing as u32 + self.distributed_processing as u32 + self.performance as u32
            + self.machine_load as u32 + self.transaction_volume as u32
            + self.online_data_input as u32 + self.online_updates as u32
            + self.user_end_eficiency as u32 + self.processing_complexity as u32
            + self.code_reuse as u32 + self.implementation_facility as u32
            + self.operation_facility as u32 + self.maintenance_facility as u32
            + self.operation_in_multiple_locations as u32
    }

    /// Whether every score lies on the standard scale from 0 to 5.
    pub fn is_within_scale(&self) -> (r: bool)
        ensures
            r == self.within_scale(),
    {
        let scores: [u8; 14] = [
            self.teleprocessing,
            self.distributed_processing,
            self.performance,
            self.machine_load,
            self.transaction_volume,
            self.online_data_input,
            self.online_updates,
            self.user_end_eficiency,
            self.processing_complexity,
            self.code_reuse,
            self.implementation_facility,
            self.operation_facility,
            self.maintenance_facility,
            self.operation_in_multiple_locations,
        ];
        assert(scores@ =~= self.scores());
        let mut i: usize = 0;
        while i < 14
            invariant
                0 <= i <= 14,
                scores@ == self.scores(),
                forall|j: int| 0 <= j < i ==> #[trigger] self.scores()[j] <= 5,
            decreases 14 - i,
        {
            if scores[i] > 5 {
                return false;
            }
            i += 1;
        }
        true
    }

    /// Scores on the standard scale add up to at most seventy.
    pub proof fn lemma_influence_bounds(self)
        ensures
            0 <= self.influence(),
            self.within_scale() ==> self.influence() <= 70,
    {
        reveal_with_fuel(score_sum, 15);
        if self.within_scale() {
            assert forall|i: int| 0 <= i < 14 implies #[trigger] self.scores()[i] <= 5 by {}
        }
    }
}

} // verus!
