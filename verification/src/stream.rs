//! Estimates of how many bytes a body has left.

use vstd::prelude::*;
use crate::hint::bounds;
use http_body::SizeHint;

verus! {

/// A size estimate as a mathematical value: at least `lower` bytes are left
/// and, where `upper` is known, at most that many.
pub struct Estimate {
    pub lower: nat,
    pub upper: Option<nat>,
}

impl Estimate {
    /// The estimate that knows the count.
    pub open spec fn exactly(n: nat) -> Estimate {
        Estimate { lower: n, upper: Some(n) }
    }

    /// The count, where both bounds agree on it.
    pub open spec fn exact(self) -> Option<nat> {
        if self.upper == Some(self.lower) {
            self.upper
        } else {
            None
        }
    }

    /// The estimate as numbers of `usize` hold it. A lower bound too large for
    /// `usize` becomes the largest `usize`; an upper bound too large for it
    /// becomes unknown. Either way the estimate stays true of the same bodies.
    pub open spec fn narrowed(self) -> Estimate {
        Estimate {
            lower: if self.lower <= usize::MAX {
                self.lower
            } else {
                usize::MAX as nat
            },
            upper: match self.upper {
                Some(u) if u <= usize::MAX => Some(u),
                _ => None,
            },
        }
    }

    /// The estimate in writing: the count where it is exact, else the range,
    /// open above where no upper bound is known.
    pub open spec fn text(self) -> Seq<char> {
        match self.upper {
            Some(u) if u == self.lower => decimal(u),
            Some(u) => "("@ + decimal(self.lower) + "..="@ + decimal(u) + ")"@,
            None => "("@ + decimal(self.lower) + "..)"@,
        }
    }
}

/// Narrowing only weakens an estimate, and only where it must: the lower
/// bound does not rise, an upper bound is dropped or kept as it is, and an
/// estimate whose bounds `usize` can hold is kept whole.
pub proof fn law_narrowing_only_weakens(estimate: Estimate)
    ensures
        estimate.narrowed().lower <= estimate.lower,
        estimate.narrowed().upper is Some ==> estimate.narrowed().upper == estimate.upper,
        estimate.lower <= usize::MAX && (estimate.upper matches Some(u) ==> u <= usize::MAX)
            ==> estimate.narrowed() == estimate,
        estimate.exact() matches Some(n) ==> (n <= usize::MAX ==> estimate.narrowed().exact()
            == Some(n)),
{
}

/// The estimate that a hint holds.
pub open spec fn estimate_of(hint: SizeHint) -> Estimate {
    Estimate {
        lower: bounds(hint).0 as nat,
        upper: match bounds(hint).1 {
            Some(u) => Some(u as nat),
            None => None,
        },
    }
}

/// The ten digits.
pub open spec fn digit(d: nat) -> char
    recommends
        d < 10,
{
    seq!['0', '1', '2', '3', '4', '5', '6', '7', '8', '9'][d as int]
}

/// A number in decimal, without leading zeros.
pub open spec fn decimal(n: nat) -> Seq<char>
    decreases n,
{
    if n < 10 {
        seq![digit(n)]
    } else {
        decimal(n / 10).push(digit(n % 10))
    }
}

/// One digit as text.
fn digit_str(d: usize) -> (s: &'static str)
    requires
        d < 10,
    ensures
        s@ == seq![digit(d as nat)],
{
    proof {
        reveal_strlit("0");
        reveal_strlit("1");
        reveal_strlit("2");
        reveal_strlit("3");
        reveal_strlit("4");
        reveal_strlit("5");
        reveal_strlit("6");
        reveal_strlit("7");
        reveal_strlit("8");
        reveal_strlit("9");
    }
    let s = match d {
        0 => "0",
        1 => "1",
        2 => "2",
        3 => "3",
        4 => "4",
        5 => "5",
        6 => "6",
        7 => "7",
        8 => "8",
        _ => "9",
    };
    assert(s@ =~= seq![digit(d as nat)]);
    s
}

/// Writes a number in decimal.
pub fn decimal_string(n: usize) -> (s: String)
    ensures
        s@ == decimal(n as nat),
    decreases n,
{
    if n < 10 {
        String::from_str(digit_str(n))
    } else {
        let mut s = decimal_string(n / 10);
        s.append(digit_str(n % 10));
        s
    }
}

/// How many bytes are left, as far as that is known.
pub struct RemainingLength {
    lower: usize,
    upper: Option<usize>,
}

impl View for RemainingLength {
    type V = Estimate;

    closed spec fn view(&self) -> Estimate {
        Estimate {
            lower: self.lower as nat,
            upper: match self.upper {
                Some(u) => Some(u as nat),
                None => None,
            },
        }
    }
}

impl RemainingLength {
    /// Reads the estimate off a hint. This never fails: bounds that `usize`
    /// cannot hold are weakened, not refused.
    pub fn from_size_hint(hint: &SizeHint) -> (length: RemainingLength)
        ensures
            length@ == estimate_of(*hint).narrowed(),
    {
        let low: u64 = hint.lower();
        let lower: usize = if low > usize::MAX as u64 {
            usize::MAX
        } else {
            low as usize
        };
        let upper: Option<usize> = match hint.upper() {
            Some(u) => if u > usize::MAX as u64 {
                None
            } else {
                Some(u as usize)
            },
            None => None,
        };
        RemainingLength { lower, upper }
    }

    /// The lower bound.
    pub fn lower(&self) -> (lower: usize)
        ensures
            lower == self@.lower,
    {
        self.lower
    }

    /// The upper bound, where one is known.
    pub fn upper(&self) -> (upper: Option<usize>)
        ensures
            upper is Some <==> self@.upper is Some,
            upper matches Some(u) ==> self@.upper == Some(u as nat),
    {
        self.upper
    }

    /// The count, where both bounds agree on it.
    pub fn exact(&self) -> (count: Option<usize>)
        ensures
            count is Some <==> self@.exact() is Some,
            count matches Some(n) ==> self@.exact() == Some(n as nat),
    {
        match self.upper {
            Some(u) if u == self.lower => Some(u),
            _ => None,
        }
    }

    /// The estimate in writing.
    pub fn render(&self) -> (text: String)
        ensures
            text@ == self@.text(),
    {
        match self.upper {
            Some(u) => {
                if u == self.lower {
                    decimal_string(u)
                } else {
                    let mut text = String::from_str("(");
                    text.append(decimal_string(self.lower).as_str());
                    text.append("..=");
                    text.append(decimal_string(u).as_str());
                    text.append(")");
                    text
                }
            },
            None => {
                let mut text = String::from_str("(");
                text.append(decimal_string(self.lower).as_str());
                text.append("..)");
                text
            },
        }
    }
}

} // verus!
