//! Recognized fields, the retry rule for unreadable ones, and the record of
//! one item.

use vstd::prelude::*;

verus! {

/// A recognized field: the recognizer's value, or the marker of a field that
/// stayed unreadable. The marker is no value, so it is never mistaken for one.
#[derive(Clone, Copy, Debug, PartialEq, Eq, Structural)]
pub enum FieldValue {
    Known(u32),
    Degraded,
}

/// What to do after one recognition attempt.
#[derive(Clone, Copy, Debug, PartialEq, Eq, Structural)]
pub enum FieldStep {
    /// Keep this value.
    Accept(u32),
    /// Capture again and retry.
    Retry,
    /// Retries are exhausted: the field is degraded.
    GiveUp,
}

/// The decision after attempt number `attempt` (from 0) gave `reading`; one
/// first attempt and up to `max_retries` retries are made.
pub open spec fn field_step_spec(attempt: u32, reading: Option<u32>, max_retries: u32) -> FieldStep {
    match reading {
        Some(v) => FieldStep::Accept(v),
        None => if attempt < max_retries {
            FieldStep::Retry
        } else {
            FieldStep::GiveUp
        },
    }
}

/// Decides what follows one recognition attempt.
pub fn field_attempt(attempt: u32, reading: Option<u32>, max_retries: u32) -> (r: FieldStep)
    ensures
        r == field_step_spec(attempt, reading, max_retries),
{
    match reading {
        Some(v) => FieldStep::Accept(v),
        None => if attempt < max_retries {
            FieldStep::Retry
        } else {
            FieldStep::GiveUp
        },
    }
}

/// The field that a run of readings settles on: the first value among the
/// first `max_retries + 1` readings, else degraded.
pub open spec fn settle(readings: Seq<Option<u32>>, max_retries: u32) -> FieldValue
    decreases readings.len(),
{
    if readings.len() == 0 {
        FieldValue::Degraded
    } else {
        match readings[0] {
            Some(v) => FieldValue::Known(v),
            None => if max_retries == 0 {
                FieldValue::Degraded
            } else {
                settle(readings.drop_first(), (max_retries - 1) as u32)
            },
        }
    }
}

/// Attempts that `settle` consumes.
pub open spec fn attempts_used(readings: Seq<Option<u32>>, max_retries: u32) -> nat
    decreases readings.len(),
{
    if readings.len() == 0 {
        0
    } else {
        match readings[0] {
            Some(_) => 1,
            None => if max_retries == 0 {
                1
            } else {
                1 + attempts_used(readings.drop_first(), (max_retries - 1) as u32)
            },
        }
    }
}

/// Runs the retry rule over readings taken one per attempt, stopping at the
/// first accepted one or when retries are exhausted. Returns the field and
/// the number of attempts made.
pub fn resolve_field(readings: &Vec<Option<u32>>, max_retries: u32) -> (r: (FieldValue, usize))
    ensures
        r.0 == settle(readings@, max_retries),
        r.1 == attempts_used(readings@, max_retries),
{
    let mut i: usize = 0;
    assert(readings@.skip(0) =~= readings@);
    while i < readings.len()
        invariant
            i <= readings@.len(),
            i <= max_retries as int + 1,
            forall|k: int| 0 <= k < i ==> readings@[k] is None,
            settle(readings@, max_retries) == settle(readings@.skip(i as int), (max_retries - i) as u32),
            attempts_used(readings@, max_retries) == i + attempts_used(
                readings@.skip(i as int),
                (max_retries - i) as u32,
            ),
            i < max_retries as int + 1 || i == readings@.len(),
        decreases readings.len() - i,
    {
        let rest = Ghost(readings@.skip(i as int));
        assert(rest@[0] == readings@[i as int]);
        assert(rest@.drop_first() =~= readings@.skip(i + 1));
        let attempt: u32 = i as u32;
        match field_attempt(attempt, readings[i], max_retries) {
            FieldStep::Accept(v) => {
                return (FieldValue::Known(v), i + 1);
            },
            FieldStep::GiveUp => {
                return (FieldValue::Degraded, i + 1);
            },
            FieldStep::Retry => {
                i = i + 1;
            },
        }
    }
    assert(readings@.skip(i as int).len() == 0);
    (FieldValue::Degraded, i)
}

/// A recognizer that fails `r` times, with `r` within the retry bound, and
/// then reads `v`, yields `v`, not a degraded field.
pub proof fn lemma_retry_recovers(readings: Seq<Option<u32>>, max_retries: u32, r: nat, v: u32)
    requires
        r <= max_retries,
        r < readings.len(),
        forall|k: int| 0 <= k < r ==> readings[k] is None,
        readings[r as int] == Some(v),
    ensures
        settle(readings, max_retries) == FieldValue::Known(v),
    decreases r,
{
    if r > 0 {
        let rest = readings.drop_first();
        assert forall|k: int| 0 <= k < r - 1 implies rest[k] is None by {
            assert(rest[k] == readings[k + 1]);
        }
        assert(rest[r - 1] == readings[r as int]);
        lemma_retry_recovers(rest, (max_retries - 1) as u32, (r - 1) as nat, v);
    }
}

/// A recognizer that fails on every one of the `max_retries + 1` attempts
/// yields a degraded field, whatever it would read later.
pub proof fn lemma_retry_exhausted(readings: Seq<Option<u32>>, max_retries: u32)
    requires
        forall|k: int| 0 <= k <= max_retries && k < readings.len() ==> readings[k] is None,
    ensures
        settle(readings, max_retries) == FieldValue::Degraded,
    decreases readings.len(),
{
    if readings.len() > 0 && max_retries > 0 {
        let rest = readings.drop_first();
        assert forall|k: int|
            0 <= k <= max_retries - 1 && k < rest.len() implies rest[k] is None by {
            assert(rest[k] == readings[k + 1]);
        }
        lemma_retry_exhausted(rest, (max_retries - 1) as u32);
    }
}

/// One sub-stat line: its name and its value.
#[derive(Clone, Copy, Debug, PartialEq, Eq, Structural)]
pub struct SubStat {
    pub name: FieldValue,
    pub value: FieldValue,
}

/// The key that identifies an item for wraparound detection.
#[derive(Clone, Copy, Debug, PartialEq, Eq, Structural)]
pub struct Signature {
    pub name: FieldValue,
    pub level: FieldValue,
    pub main_stat_name: FieldValue,
    pub main_stat_value: FieldValue,
}

/// The data of one item. Names and stat kinds are the recognizer's label
/// numbers; stat values are in tenths.
#[derive(Clone, Debug, PartialEq, Eq)]
pub struct ArtifactRecord {
    pub name: FieldValue,
    pub set_name: FieldValue,
    pub slot_index: u32,
    pub star: FieldValue,
    pub level: FieldValue,
    pub main_stat_name: FieldValue,
    pub main_stat_value: FieldValue,
    pub sub_stats: Vec<SubStat>,
    pub locked: FieldValue,
    pub confidence_degraded: bool,
}

pub open spec fn is_degraded(f: FieldValue) -> bool {
    f is Degraded
}

/// Whether any field of the record stayed unreadable.
pub open spec fn any_degraded(
    name: FieldValue,
    set_name: FieldValue,
    star: FieldValue,
    level: FieldValue,
    main_stat_name: FieldValue,
    main_stat_value: FieldValue,
    sub_stats: Seq<SubStat>,
    locked: FieldValue,
) -> bool {
    is_degraded(name) || is_degraded(set_name) || is_degraded(star) || is_degraded(level)
        || is_degraded(main_stat_name) || is_degraded(main_stat_value) || is_degraded(locked)
        || exists|i: int|
        0 <= i < sub_stats.len() && (is_degraded(sub_stats[i].name) || is_degraded(
            sub_stats[i].value,
        ))
}

fn degraded(f: FieldValue) -> (r: bool)
    ensures
        r == is_degraded(f),
{
    match f {
        FieldValue::Known(_) => false,
        FieldValue::Degraded => true,
    }
}

impl ArtifactRecord {
    pub open spec fn spec_signature(&self) -> Signature {
        Signature {
            name: self.name,
            level: self.level,
            main_stat_name: self.main_stat_name,
            main_stat_value: self.main_stat_value,
        }
    }

    /// Assembles a record from its fields; it is flagged degraded exactly
    /// when one of them is.
    pub fn new(
        name: FieldValue,
        set_name: FieldValue,
        slot_index: u32,
        star: FieldValue,
        level: FieldValue,
        main_stat_name: FieldValue,
        main_stat_value: FieldValue,
        sub_stats: Vec<SubStat>,
        locked: FieldValue,
    ) -> (r: ArtifactRecord)
        ensures
            r.name == name && r.set_name == set_name && r.slot_index == slot_index && r.star
                == star && r.level == level && r.main_stat_name == main_stat_name
                && r.main_stat_value == main_stat_value && r.sub_stats@ == sub_stats@ && r.locked
                == locked,
            r.confidence_degraded == any_degraded(
                name,
                set_name,
                star,
                level,
                main_stat_name,
                main_stat_value,
                sub_stats@,
                locked,
            ),
    {
        let mut flag = degraded(name) || degraded(set_name) || degraded(star) || degraded(level)
            || degraded(main_stat_name) || degraded(main_stat_value) || degraded(locked);
        let mut i: usize = 0;
        while i < sub_stats.len()
            invariant
                i <= sub_stats@.len(),
                flag == (is_degraded(name) || is_degraded(set_name) || is_degraded(star)
                    || is_degraded(level) || is_degraded(main_stat_name) || is_degraded(
                    main_stat_value,
                ) || is_degraded(locked) || exists|k: int|
                    0 <= k < i && (is_degraded(sub_stats@[k].name) || is_degraded(
                        sub_stats@[k].value,
                    ))),
            decreases sub_stats.len() - i,
        {
            let s = sub_stats[i];
            if degraded(s.name) || degraded(s.value) {
                flag = true;
            }
            i = i + 1;
        }
        ArtifactRecord {
            name,
            set_name,
            slot_index,
            star,
            level,
            main_stat_name,
            main_stat_value,
            sub_stats,
            locked,
            confidence_degraded: flag,
        }
    }

    /// The wraparound key: name, level and main stat.
    pub fn signature(&self) -> (r: Signature)
        ensures
            r == self.spec_signature(),
    {
        Signature {
            name: self.name,
            level: self.level,
            main_stat_name: self.main_stat_name,
            main_stat_value: self.main_stat_value,
        }
    }
}

} // verus!
