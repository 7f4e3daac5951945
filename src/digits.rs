//! A snapshot of the current time as a sequence of decimal digits.
use vstd::prelude::*;

verus! {

/// The decimal digits of `n`, most significant first, with no leading zeros
/// (zero itself is the single digit 0).
pub open spec fn decimal_digits(n: nat) -> Seq<u8>
    decreases n,
{
    if n < 10 {
        seq![n as u8]
    } else {
        decimal_digits(n / 10).push((n % 10) as u8)
    }
}

/// Every entry of `d` is a decimal digit value, 0 through 9.
pub open spec fn all_decimal(d: Seq<u8>) -> bool {
    forall|i: int| 0 <= i < d.len() ==> #[trigger] d[i] <= 9
}

/// The byte is an ASCII decimal digit.
pub open spec fn is_ascii_digit(b: u8) -> bool {
    48 <= b <= 57
}

/// The digit values that the ASCII digits of `b` stand for.
pub open spec fn ascii_digit_values(b: Seq<u8>) -> Seq<u8> {
    b.map_values(|c: u8| (c - 48) as u8)
}

proof fn lemma_decimal_digits_are_decimal(n: nat)
    ensures
        all_decimal(decimal_digits(n)),
        decimal_digits(n).len() >= 1,
    decreases n,
{
    if n >= 10 {
        lemma_decimal_digits_are_decimal(n / 10);
    }
}

/// The digit at index `i` of `d`, with 0 standing in for a missing digit.
pub open spec fn digit_or_zero(d: Seq<u8>, i: int) -> int {
    if 0 <= i < d.len() {
        d[i] as int
    } else {
        0
    }
}

/// One instant of time, written as decimal digits, taken once per frame and
/// shared by every hand.
pub struct TimeDigits {
    digits: Vec<u8>,
}

impl View for TimeDigits {
    type V = Seq<u8>;

    closed spec fn view(&self) -> Seq<u8> {
        self.digits@
    }
}

impl TimeDigits {
    /// Every digit is a value from 0 to 9.
    pub open spec fn wf(&self) -> bool {
        all_decimal(self@)
    }

    fn push_digits(n: u64, out: &mut Vec<u8>)
        ensures
            final(out)@ == old(out)@ + decimal_digits(n as nat),
        decreases n,
    {
        if n >= 10 {
            Self::push_digits(n / 10, out);
        }
        out.push((n % 10) as u8);
        proof {
            assert(final(out)@ =~= old(out)@ + decimal_digits(n as nat));
        }
    }

    /// The digits of a count of time units (milliseconds, say) since the
    /// epoch.
    pub fn from_count(n: u64) -> (r: TimeDigits)
        ensures
            r.wf(),
            r@ == decimal_digits(n as nat),
    {
        let mut digits: Vec<u8> = Vec::new();
        Self::push_digits(n, &mut digits);
        proof {
            assert(digits@ =~= decimal_digits(n as nat));
            lemma_decimal_digits_are_decimal(n as nat);
        }
        TimeDigits { digits }
    }

    /// Reads a snapshot written as ASCII decimal digits; `None` where any byte
    /// is not a digit.
    pub fn from_bytes(b: &[u8]) -> (r: Option<TimeDigits>)
        ensures
            (forall|i: int| 0 <= i < b@.len() ==> is_ascii_digit(#[trigger] b@[i])) <==> r is Some,
            r matches Some(t) ==> t.wf() && t@ == ascii_digit_values(b@),
    {
        let mut digits: Vec<u8> = Vec::new();
        let mut i: usize = 0;
        while i < b.len()
            invariant
                i <= b@.len(),
                forall|j: int| 0 <= j < i ==> is_ascii_digit(#[trigger] b@[j]),
                digits@ =~= ascii_digit_values(b@.subrange(0, i as int)),
            decreases b@.len() - i,
        {
            let c = b[i];
            if c < 48 || c > 57 {
                return None;
            }
            digits.push(c - 48);
            i = i + 1;
            assert(digits@ =~= ascii_digit_values(b@.subrange(0, i as int)));
        }
        assert(b@.subrange(0, b@.len() as int) =~= b@);
        Some(TimeDigits { digits })
    }

    /// The number of digits.
    pub fn len(&self) -> (r: usize)
        ensures
            r == self@.len(),
    {
        self.digits.len()
    }

    /// The digit at index `i`, or 0 where the snapshot has no such digit.
    pub fn digit_or_zero(&self, i: usize) -> (r: u8)
        ensures
            r as int == digit_or_zero(self@, i as int),
    {
        if i < self.digits.len() {
            self.digits[i]
        } else {
            0
        }
    }
}

} // verus!
