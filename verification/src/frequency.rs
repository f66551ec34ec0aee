//! The frequency calculator for advanced labor standards: looks a
//! business-driver volume up in a standard's declared ranges and scales
//! the expected time by the matched frequency.

use crate::per_unit::{WorkContentLogDetail, DRIVER_LIMIT};
use crate::text::{fixed2_string, int_string, spec_fixed2, spec_int_string};
use vstd::prelude::*;
use vstd::string::StringExecFns;

verus! {

/// Largest per-item expectancy the calculator accepts, in hundredths of a
/// minute.
pub const EXPECTANCY_LIMIT: i64 = 1_000_000;

/// Largest item count and frequency the calculator accepts.
pub const COUNT_LIMIT: i32 = 10_000;

/// An environment a task-standard frequency applies to.
#[derive(Debug, Clone, Copy, PartialEq, Eq, Structural)]
pub struct Environment {
    pub id: i32,
}

impl Environment {
    pub fn new(id: i32) -> (r: Environment)
        ensures
            r.id == id,
    {
        Environment { id }
    }

    pub fn id(&self) -> (r: i32)
        ensures
            r == self.id,
    {
        self.id
    }
}

/// How often a task recurs in one environment.
#[derive(Debug, Clone, Copy, PartialEq, Eq, Structural)]
pub struct TaskStandardFrequency {
    pub environment: Environment,
    pub frequency: i32,
}

impl TaskStandardFrequency {
    pub fn new(environment: Environment, frequency: i32) -> (r: TaskStandardFrequency)
        ensures
            r.environment == environment,
            r.frequency == frequency,
    {
        TaskStandardFrequency { environment, frequency }
    }

    pub fn environment(&self) -> (r: &Environment)
        ensures
            *r == self.environment,
    {
        &self.environment
    }

    pub fn frequency(&self) -> (r: i32)
        ensures
            r == self.frequency,
    {
        self.frequency
    }
}

/// An inclusive driver-volume range a set of frequencies applies to.
#[derive(Debug, Clone, Copy, PartialEq, Eq, Structural)]
pub struct TaskStandardRange {
    pub min_inclusive: i32,
    pub max_inclusive: i32,
}

impl TaskStandardRange {
    pub fn new(min_inclusive: i32, max_inclusive: i32) -> (r: TaskStandardRange)
        ensures
            r.min_inclusive == min_inclusive,
            r.max_inclusive == max_inclusive,
    {
        TaskStandardRange { min_inclusive, max_inclusive }
    }

    /// Whether `value` lies within the range, both bounds inclusive.
    pub fn contains_value(&self, value: i32) -> (r: bool)
        ensures
            r == (self.min_inclusive <= value && value <= self.max_inclusive),
    {
        value >= self.min_inclusive && value <= self.max_inclusive
    }
}

/// An advanced-standard definition: expected minutes per item, an item
/// count, and an ordered table from driver-volume ranges to per-environment
/// frequencies. Ranges need not be sorted or exhaustive.
#[derive(Debug, Clone)]
pub struct TaskStandardDetail {
    pub reasonable_expectancy: i64,
    pub number_of_items: i32,
    pub ranges: Vec<(TaskStandardRange, Vec<TaskStandardFrequency>)>,
}

impl TaskStandardDetail {
    /// Numerically valid definition: bounded expectancy, item count and
    /// frequencies.
    pub open spec fn wf(self) -> bool {
        &&& -EXPECTANCY_LIMIT <= self.reasonable_expectancy <= EXPECTANCY_LIMIT
        &&& -COUNT_LIMIT <= self.number_of_items <= COUNT_LIMIT
        &&& forall|i: int, j: int|
            0 <= i < self.ranges@.len() && 0 <= j < self.ranges@[i].1@.len()
                ==> -COUNT_LIMIT <= (#[trigger] self.ranges@[i].1@[j]).frequency <= COUNT_LIMIT
    }

    pub fn new(reasonable_expectancy: i64, number_of_items: i32) -> (r: TaskStandardDetail)
        ensures
            r.reasonable_expectancy == reasonable_expectancy,
            r.number_of_items == number_of_items,
            r.ranges@.len() == 0,
    {
        TaskStandardDetail { reasonable_expectancy, number_of_items, ranges: Vec::new() }
    }

    pub fn with_ranges(
        self,
        ranges: Vec<(TaskStandardRange, Vec<TaskStandardFrequency>)>,
    ) -> (r: TaskStandardDetail)
        ensures
            r.reasonable_expectancy == self.reasonable_expectancy,
            r.number_of_items == self.number_of_items,
            r.ranges == ranges,
    {
        TaskStandardDetail {
            reasonable_expectancy: self.reasonable_expectancy,
            number_of_items: self.number_of_items,
            ranges,
        }
    }

    pub fn reasonable_expectancy(&self) -> (r: i64)
        ensures
            r == self.reasonable_expectancy,
    {
        self.reasonable_expectancy
    }

    pub fn number_of_items(&self) -> (r: i32)
        ensures
            r == self.number_of_items,
    {
        self.number_of_items
    }

    pub fn task_standard_ranges(&self) -> (r: &Vec<(TaskStandardRange, Vec<TaskStandardFrequency>)>)
        ensures
            r == &self.ranges,
    {
        &self.ranges
    }
}

/// The first declared range containing `value`, if any.
pub open spec fn spec_first_range(
    ranges: Seq<(TaskStandardRange, Vec<TaskStandardFrequency>)>,
    value: int,
) -> Option<(TaskStandardRange, Vec<TaskStandardFrequency>)>
    decreases ranges.len(),
{
    if ranges.len() == 0 {
        None
    } else if ranges[0].0.min_inclusive <= value && value <= ranges[0].0.max_inclusive {
        Some(ranges[0])
    } else {
        spec_first_range(ranges.drop_first(), value)
    }
}

/// The first declared frequency for an environment, if any.
pub open spec fn spec_first_frequency(
    frequencies: Seq<TaskStandardFrequency>,
    environment_id: int,
) -> Option<TaskStandardFrequency>
    decreases frequencies.len(),
{
    if frequencies.len() == 0 {
        None
    } else if frequencies[0].environment.id == environment_id {
        Some(frequencies[0])
    } else {
        spec_first_frequency(frequencies.drop_first(), environment_id)
    }
}

/// What the frequency calculator yields: the matched frequency scaled by
/// the per-occurrence expectancy, or nothing when the volume matches no
/// range or the matched range has no entry for the environment.
pub open spec fn spec_frequency_minutes(
    detail: TaskStandardDetail,
    business_driver_value: int,
    environment: Environment,
) -> Option<int> {
    match spec_first_range(detail.ranges@, business_driver_value) {
        None => None,
        Some(matched) => match spec_first_frequency(matched.1@, environment.id as int) {
            None => None,
            Some(f) => Some(
                detail.reasonable_expectancy * detail.number_of_items * f.frequency,
            ),
        },
    }
}

/// The formula trace of a successful frequency lookup.
pub open spec fn spec_frequency_formula(
    detail: TaskStandardDetail,
    frequency: int,
) -> Seq<char> {
    spec_fixed2(detail.reasonable_expectancy * detail.number_of_items) + " * "@ + spec_int_string(
        frequency,
    )
}

/// A driver volume outside every declared range yields no result, whatever
/// the environment.
pub proof fn lemma_outside_all_ranges_yields_none(
    detail: TaskStandardDetail,
    business_driver_value: int,
    environment: Environment,
)
    requires
        forall|i: int|
            0 <= i < detail.ranges@.len() ==> !((#[trigger] detail.ranges@[i]).0.min_inclusive
                <= business_driver_value && business_driver_value
                <= detail.ranges@[i].0.max_inclusive),
    ensures
        spec_frequency_minutes(detail, business_driver_value, environment) is None,
{
    lemma_first_range_none(detail.ranges@, business_driver_value);
}

proof fn lemma_first_range_none(
    ranges: Seq<(TaskStandardRange, Vec<TaskStandardFrequency>)>,
    value: int,
)
    requires
        forall|i: int|
            0 <= i < ranges.len() ==> !((#[trigger] ranges[i]).0.min_inclusive <= value && value
                <= ranges[i].0.max_inclusive),
    ensures
        spec_first_range(ranges, value) is None,
    decreases ranges.len(),
{
    if ranges.len() != 0 {
        assert(!(ranges[0].0.min_inclusive <= value && value <= ranges[0].0.max_inclusive));
        assert(forall|i: int|
            0 <= i < ranges.drop_first().len() ==> ranges.drop_first()[i] == ranges[i + 1]);
        lemma_first_range_none(ranges.drop_first(), value);
    }
}

pub struct FrequencyCalculator;

impl FrequencyCalculator {
    pub fn new() -> Self {
        Self
    }

    /// Finds the first declared range containing the driver volume, then
    /// the first frequency entry for the environment within it, and scales
    /// the per-occurrence expectancy by that frequency. Yields nothing
    /// when no range contains the volume, or the matched range has no
    /// entry for the environment.
    pub fn calculate_frequency_minutes(
        &self,
        task_standard_detail: &TaskStandardDetail,
        business_driver_value: i32,
        environment: Environment,
    ) -> (r: Option<WorkContentLogDetail>)
        requires
            task_standard_detail.wf(),
        ensures
            r is Some <==> spec_frequency_minutes(
                *task_standard_detail,
                business_driver_value as int,
                environment,
            ) is Some,
            match r {
                Some(detail) => {
                    &&& Some(detail.work_in_minutes as int) == spec_frequency_minutes(
                        *task_standard_detail,
                        business_driver_value as int,
                        environment,
                    )
                    &&& detail.formula@ == spec_frequency_formula(
                        *task_standard_detail,
                        spec_first_frequency(
                            (spec_first_range(
                                task_standard_detail.ranges@,
                                business_driver_value as int,
                            )->0).1@,
                            environment.id as int,
                        )->0.frequency as int,
                    )
                    &&& -100_000_000_000_000 <= detail.work_in_minutes <= 100_000_000_000_000
                },
                None => true,
            },
    {
        let expectancy_for_items: i64 = {
            proof {
                assert(-(1_000_000 * 10_000) <= task_standard_detail.reasonable_expectancy as int
                    * task_standard_detail.number_of_items as int <= 1_000_000 * 10_000)
                    by (nonlinear_arith)
                    requires
                        -1_000_000 <= task_standard_detail.reasonable_expectancy as int
                            <= 1_000_000,
                        -10_000 <= task_standard_detail.number_of_items as int <= 10_000,
                ;
            }
            task_standard_detail.reasonable_expectancy
                * (task_standard_detail.number_of_items as i64)
        };
        let ghost all_ranges = task_standard_detail.ranges@;
        let mut i: usize = 0;
        proof {
            assert(all_ranges.skip(0) =~= all_ranges);
        }
        while i < task_standard_detail.ranges.len()
            invariant
                0 <= i <= all_ranges.len(),
                all_ranges == task_standard_detail.ranges@,
                task_standard_detail.wf(),
                expectancy_for_items as int == task_standard_detail.reasonable_expectancy as int
                    * task_standard_detail.number_of_items as int,
                -10_000_000_000 <= expectancy_for_items <= 10_000_000_000,
                spec_first_range(all_ranges, business_driver_value as int) == spec_first_range(
                    all_ranges.skip(i as int),
                    business_driver_value as int,
                ),
            decreases all_ranges.len() - i,
        {
            let ghost suffix = all_ranges.skip(i as int);
            proof {
                assert(suffix.len() == all_ranges.len() - i);
                assert(suffix[0] == all_ranges[i as int]);
                assert(suffix.drop_first() =~= all_ranges.skip(i as int + 1));
            }
            let (range, frequencies) = &task_standard_detail.ranges[i];
            if range.contains_value(business_driver_value) {
                assert(spec_first_range(suffix, business_driver_value as int) == Some(suffix[0]));
                return self.match_environment(
                    task_standard_detail,
                    expectancy_for_items,
                    frequencies,
                    environment,
                );
            }
            i = i + 1;
        }
        assert(all_ranges.skip(i as int)
            =~= Seq::<(TaskStandardRange, Vec<TaskStandardFrequency>)>::empty());
        None
    }

    /// The scaled work minutes for the first frequency entry matching the
    /// environment, if one exists in the matched range's list.
    fn match_environment(
        &self,
        task_standard_detail: &TaskStandardDetail,
        expectancy_for_items: i64,
        frequencies: &Vec<TaskStandardFrequency>,
        environment: Environment,
    ) -> (r: Option<WorkContentLogDetail>)
        requires
            task_standard_detail.wf(),
            expectancy_for_items as int == task_standard_detail.reasonable_expectancy as int
                * task_standard_detail.number_of_items as int,
            -10_000_000_000 <= expectancy_for_items <= 10_000_000_000,
            forall|j: int|
                0 <= j < frequencies@.len() ==> -COUNT_LIMIT <= (
                #[trigger] frequencies@[j]).frequency <= COUNT_LIMIT,
        ensures
            r is Some <==> spec_first_frequency(frequencies@, environment.id as int) is Some,
            match r {
                Some(detail) => {
                    &&& detail.work_in_minutes as int == task_standard_detail.reasonable_expectancy
                        as int * task_standard_detail.number_of_items as int
                        * spec_first_frequency(
                        frequencies@,
                        environment.id as int,
                    )->0.frequency as int
                    &&& detail.formula@ == spec_frequency_formula(
                        *task_standard_detail,
                        spec_first_frequency(
                            frequencies@,
                            environment.id as int,
                        )->0.frequency as int,
                    )
                    &&& -100_000_000_000_000 <= detail.work_in_minutes <= 100_000_000_000_000
                },
                None => true,
            },
    {
        let ghost all = frequencies@;
        let mut j: usize = 0;
        proof {
            assert(all.skip(0) =~= all);
        }
        while j < frequencies.len()
            invariant
                0 <= j <= all.len(),
                all == frequencies@,
                task_standard_detail.wf(),
                expectancy_for_items as int == task_standard_detail.reasonable_expectancy as int
                    * task_standard_detail.number_of_items as int,
                -10_000_000_000 <= expectancy_for_items <= 10_000_000_000,
                forall|k: int|
                    0 <= k < frequencies@.len() ==> -COUNT_LIMIT <= (
                    #[trigger] frequencies@[k]).frequency <= COUNT_LIMIT,
                spec_first_frequency(all, environment.id as int) == spec_first_frequency(
                    all.skip(j as int),
                    environment.id as int,
                ),
            decreases all.len() - j,
        {
            let ghost suffix = all.skip(j as int);
            proof {
                assert(suffix.len() == all.len() - j);
                assert(suffix[0] == all[j as int]);
                assert(suffix.drop_first() =~= all.skip(j as int + 1));
            }
            let freq = &frequencies[j];
            if freq.environment.id == environment.id {
                assert(spec_first_frequency(suffix, environment.id as int) == Some(suffix[0]));
                proof {
                    assert(-(10_000_000_000 * 10_000) <= expectancy_for_items as int * (
                    freq.frequency as int) <= 10_000_000_000 * 10_000) by (nonlinear_arith)
                        requires
                            -10_000_000_000 <= expectancy_for_items as int <= 10_000_000_000,
                            -10_000 <= freq.frequency as int <= 10_000,
                    ;
                }
                let total = expectancy_for_items * (freq.frequency as i64);
                let mut formula = fixed2_string(expectancy_for_items);
                formula.append(" * ");
                formula.append(int_string(freq.frequency as i64).as_str());
                return Some(WorkContentLogDetail::new(total, formula));
            }
            j = j + 1;
        }
        assert(all.skip(j as int) =~= Seq::<TaskStandardFrequency>::empty());
        None
    }
}

} // verus!
