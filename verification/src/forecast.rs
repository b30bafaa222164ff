//! What the forecast graph draws: the highs and the lows of a run of
//! temperatures that alternate between the two, and the range of its
//! temperature axis.

use vstd::prelude::*;

verus! {

/// Degrees left free below the lowest and above the highest temperature drawn.
pub const AXIS_MARGIN: i32 = 10;

/// How many elements of a sequence of length `len` stand at the positions
/// `from`, `from + 2`, `from + 4` and so on.
pub open spec fn every_other_count(len: nat, from: nat) -> nat {
    if from >= len {
        0
    } else {
        ((len - from + 1) / 2) as nat
    }
}

/// Every other element of `temps`, from position `from` on.
pub open spec fn every_other(temps: Seq<i32>, from: nat) -> Seq<i32> {
    Seq::new(every_other_count(temps.len(), from), |k: int| temps[from + 2 * k])
}

/// Every other element of `temps`, from position `from` on.
fn take_every_other(temps: &Vec<i32>, from: usize) -> (taken: Vec<i32>)
    requires
        from <= 1,
    ensures
        taken@ == every_other(temps@, from as nat),
{
    let len: usize = temps.len();
    let count: usize = if from >= len {
        0
    } else {
        (len - from) / 2 + (len - from) % 2
    };
    let mut taken: Vec<i32> = Vec::new();
    let mut k: usize = 0;
    while k < count
        invariant
            from <= 1,
            k <= count,
            len == temps@.len(),
            count == every_other_count(temps@.len(), from as nat),
            taken@.len() == k,
            forall|j: int| 0 <= j < k ==> taken@[j] == temps@[from + 2 * j],
        decreases count - k,
    {
        assert(from + 2 * k < len);
        taken.push(temps[from + 2 * k]);
        k += 1;
    }
    assert(taken@ =~= every_other(temps@, from as nat));
    taken
}

/// The highs and the lows, in that order, of a run of forecast temperatures
/// that alternate between the two. The run begins with a low when `low_first`
/// is set and with a high otherwise.
pub fn split_highs_lows(temps: &Vec<i32>, low_first: bool) -> (split: (Vec<i32>, Vec<i32>))
    ensures
        low_first ==> split.0@ == every_other(temps@, 1) && split.1@ == every_other(temps@, 0),
        !low_first ==> split.0@ == every_other(temps@, 0) && split.1@ == every_other(temps@, 1),
{
    let first: Vec<i32> = take_every_other(temps, 0);
    let second: Vec<i32> = take_every_other(temps, 1);
    if low_first {
        (second, first)
    } else {
        (first, second)
    }
}

/// Whether `value` is the least element of `temps`.
pub open spec fn is_lowest(temps: Seq<i32>, value: int) -> bool {
    temps.contains(value as i32) && value == value as i32 && forall|i: int|
        0 <= i < temps.len() ==> value <= #[trigger] temps[i]
}

/// Whether `value` is the greatest element of `temps`.
pub open spec fn is_highest(temps: Seq<i32>, value: int) -> bool {
    temps.contains(value as i32) && value == value as i32 && forall|i: int|
        0 <= i < temps.len() ==> value >= #[trigger] temps[i]
}

/// The ends of the temperature axis: the margin below the lowest temperature
/// and the margin above the highest. There is no axis for no temperatures, nor
/// where an end would leave the range of the numbers.
pub fn temperature_axis(temps: &Vec<i32>) -> (axis: Option<(i32, i32)>)
    ensures
        match axis {
            Some((bottom, top)) => is_lowest(temps@, bottom + AXIS_MARGIN) && is_highest(
                temps@,
                top - AXIS_MARGIN,
            ),
            None => temps@.len() == 0 || exists|i: int|
                0 <= i < temps@.len() && (temps@[i] - AXIS_MARGIN < i32::MIN || temps@[i]
                    + AXIS_MARGIN > i32::MAX),
        },
{
    if temps.len() == 0 {
        return None;
    }
    let mut lowest: i32 = temps[0];
    let mut highest: i32 = temps[0];
    let mut i: usize = 1;
    while i < temps.len()
        invariant
            1 <= i <= temps.len(),
            temps@.contains(lowest),
            temps@.contains(highest),
            forall|j: int| 0 <= j < i ==> lowest <= #[trigger] temps@[j],
            forall|j: int| 0 <= j < i ==> highest >= #[trigger] temps@[j],
        decreases temps.len() - i,
    {
        if temps[i] < lowest {
            lowest = temps[i];
        }
        if temps[i] > highest {
            highest = temps[i];
        }
        i += 1;
    }
    let bottom: Option<i32> = lowest.checked_sub(AXIS_MARGIN);
    let top: Option<i32> = highest.checked_add(AXIS_MARGIN);
    match (bottom, top) {
        (Some(bottom), Some(top)) => Some((bottom, top)),
        _ => {
            proof {
                let low = choose|j: int| 0 <= j < temps@.len() && temps@[j] == lowest;
                let high = choose|j: int| 0 <= j < temps@.len() && temps@[j] == highest;
                assert(temps@[low] - AXIS_MARGIN < i32::MIN || temps@[high] + AXIS_MARGIN
                    > i32::MAX);
            }
            None
        },
    }
}

} // verus!
