use vstd::prelude::*;

verus! {

/// The row selected after moving down from `selected` in a table of `len`
/// rows: the next row, wrapping from the last row (or an empty table) to 0.
pub open spec fn spec_next_row(selected: Option<usize>, len: usize) -> usize {
    match selected {
        Some(i) => if i + 1 >= len {
            0
        } else {
            (i + 1) as usize
        },
        None => 0,
    }
}

pub fn next_row(selected: Option<usize>, len: usize) -> (r: usize)
    ensures
        r == spec_next_row(selected, len),
        len > 0 ==> r < len,
{
    match selected {
        Some(i) => if i >= len || len - i <= 1 {
            0
        } else {
            i + 1
        },
        None => 0,
    }
}

/// The row selected after moving up from `selected`: the previous row,
/// staying at 0 on the first.
pub fn previous_row(selected: Option<usize>) -> (r: usize)
    ensures
        r == match selected {
            Some(i) => if i == 0 {
                0
            } else {
                (i - 1) as usize
            },
            None => 0,
        },
{
    match selected {
        Some(i) => if i == 0 {
            0
        } else {
            i - 1
        },
        None => 0,
    }
}

/// The next palette of `count`, wrapping around.
pub fn next_color(index: usize, count: usize) -> (r: usize)
    requires
        index < count,
    ensures
        r == (if index + 1 == count {
            0
        } else {
            index + 1
        }),
        r < count,
{
    if index + 1 == count {
        0
    } else {
        index + 1
    }
}

/// The previous palette of `count`, wrapping around.
pub fn previous_color(index: usize, count: usize) -> (r: usize)
    requires
        index < count,
    ensures
        r == (if index == 0 {
            count - 1
        } else {
            index - 1
        }),
        r < count,
{
    if index == 0 {
        count - 1
    } else {
        index - 1
    }
}

/// The exchange selection that the switch key moves to: 1, 2, 3 in turn,
/// from any other code to 1.
pub fn next_exchange_code(code: u8) -> (r: u8)
    ensures
        r == (if code == 1 {
            2u8
        } else if code == 2 {
            3u8
        } else {
            1u8
        }),
{
    if code == 1 {
        2
    } else if code == 2 {
        3
    } else {
        1
    }
}

/// `p` is a prefix of `s`.
pub open spec fn is_prefix(p: Seq<char>, s: Seq<char>) -> bool {
    p.len() <= s.len() && s.subrange(0, p.len() as int) == p
}

/// How many of the first `i` rows have data: the table row of row `i` when
/// only rows with data are shown.
pub open spec fn data_rank(has_data: Seq<bool>, i: int) -> nat
    decreases i,
{
    if i <= 0 {
        0
    } else {
        data_rank(has_data, i - 1) + if has_data[i - 1] {
            1nat
        } else {
            0nat
        }
    }
}

/// Row `i` is shown and its coin starts with `prefix`.
pub open spec fn row_matches(coins: Seq<String>, has_data: Seq<bool>, prefix: Seq<char>, i: int) -> bool {
    has_data[i] && is_prefix(prefix, coins[i]@)
}

/// Whether `s` starts with `p`.
pub fn starts_with(s: &str, p: &str) -> (r: bool)
    ensures
        r == is_prefix(p@, s@),
{
    let pn = p.unicode_len();
    let sn = s.unicode_len();
    if pn > sn {
        return false;
    }
    let mut i: usize = 0;
    while i < pn
        invariant
            pn == p@.len(),
            sn == s@.len(),
            pn <= sn,
            0 <= i <= pn,
            forall|j: int| 0 <= j < i ==> s@[j] == p@[j],
        decreases pn - i,
    {
        if s.get_char(i) != p.get_char(i) {
            assert(s@.subrange(0, p@.len() as int)[i as int] != p@[i as int]);
            return false;
        }
        i = i + 1;
    }
    assert(s@.subrange(0, p@.len() as int) =~= p@);
    true
}

/// The table row of the first shown coin that starts with `prefix`, counting
/// shown rows only; `None` where no shown coin does.
pub fn find_row(coins: &Vec<String>, has_data: &Vec<bool>, prefix: &str) -> (r: Option<usize>)
    requires
        coins@.len() == has_data@.len(),
    ensures
        match r {
            Some(k) => exists|i: int|
                0 <= i < coins@.len() && row_matches(coins@, has_data@, prefix@, i) && (forall|j: int|
                    0 <= j < i ==> !row_matches(coins@, has_data@, prefix@, j)) && k == data_rank(
                    has_data@,
                    i,
                ),
            None => forall|i: int| 0 <= i < coins@.len() ==> !row_matches(coins@, has_data@, prefix@, i),
        },
{
    let mut i: usize = 0;
    let mut rank: usize = 0;
    while i < coins.len()
        invariant
            coins@.len() == has_data@.len(),
            0 <= i <= coins@.len(),
            rank == data_rank(has_data@, i as int),
            rank <= i,
            forall|j: int| 0 <= j < i ==> !row_matches(coins@, has_data@, prefix@, j),
        decreases coins@.len() - i,
    {
        if has_data[i] {
            if starts_with(coins[i].as_str(), prefix) {
                return Some(rank);
            }
            rank = rank + 1;
        }
        i = i + 1;
    }
    None
}

/// The period over which funding rates are shown.
#[derive(Clone, Copy, Debug, PartialEq, Eq, Structural)]
pub enum FundingRateRound {
    Hourly,
    QuadriHourly,
    OctaHourly,
    Daily,
    Monthly,
    Annually,
}

impl FundingRateRound {
    /// The following period, in the order listed, back to hourly after
    /// annually.
    pub fn next(self) -> (r: FundingRateRound)
        ensures
            r == match self {
                FundingRateRound::Hourly => FundingRateRound::QuadriHourly,
                FundingRateRound::QuadriHourly => FundingRateRound::OctaHourly,
                FundingRateRound::OctaHourly => FundingRateRound::Daily,
                FundingRateRound::Daily => FundingRateRound::Monthly,
                FundingRateRound::Monthly => FundingRateRound::Annually,
                FundingRateRound::Annually => FundingRateRound::Hourly,
            },
    {
        match self {
            FundingRateRound::Hourly => FundingRateRound::QuadriHourly,
            FundingRateRound::QuadriHourly => FundingRateRound::OctaHourly,
            FundingRateRound::OctaHourly => FundingRateRound::Daily,
            FundingRateRound::Daily => FundingRateRound::Monthly,
            FundingRateRound::Monthly => FundingRateRound::Annually,
            FundingRateRound::Annually => FundingRateRound::Hourly,
        }
    }

    /// Hours in the period (a month counts 30 days, a year 365): the factor
    /// that turns an hourly rate into the rate of the period.
    pub fn hours(self) -> (r: u64)
        ensures
            r == match self {
                FundingRateRound::Hourly => 1u64,
                FundingRateRound::QuadriHourly => 4u64,
                FundingRateRound::OctaHourly => 8u64,
                FundingRateRound::Daily => 24u64,
                FundingRateRound::Monthly => 720u64,
                FundingRateRound::Annually => 8760u64,
            },
    {
        match self {
            FundingRateRound::Hourly => 1,
            FundingRateRound::QuadriHourly => 4,
            FundingRateRound::OctaHourly => 8,
            FundingRateRound::Daily => 24,
            FundingRateRound::Monthly => 24 * 30,
            FundingRateRound::Annually => 24 * 365,
        }
    }
}

} // verus!
