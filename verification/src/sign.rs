//! The `Sign` type and its algebra.

use vstd::prelude::*;

verus! {

use vstd::std_specs::cmp::PartialOrdSpec;

/// The algebraic sign of a quantity.
///
/// `Positive` stands for the integer `1`, `Negative` for `-1`.
/// Values are immutable and copied; the total order puts
/// `Negative` below `Positive`.
#[derive(Clone, Copy, Debug, Eq, Hash, Ord, PartialEq, Structural)]
pub enum Sign {
    Negative,
    Positive,
}

impl Sign {
    /// The integer this sign stands for: `1` or `-1`.
    pub open spec fn as_int(self) -> int {
        match self {
            Sign::Positive => 1,
            Sign::Negative => -1,
        }
    }

    /// The opposite sign.
    pub open spec fn flip(self) -> Sign {
        match self {
            Sign::Positive => Sign::Negative,
            Sign::Negative => Sign::Positive,
        }
    }

    /// The sign that scaling by `self` gives `rhs`:
    /// `Positive` keeps it, `Negative` flips it.
    pub open spec fn scale(self, rhs: Sign) -> Sign {
        match self {
            Sign::Positive => rhs,
            Sign::Negative => rhs.flip(),
        }
    }

    /// Negation: `Positive` and `Negative` swap.
    pub fn neg(self) -> (r: Sign)
        ensures
            r == self.flip(),
    {
        match self {
            Sign::Positive => Sign::Negative,
            Sign::Negative => Sign::Positive,
        }
    }

    /// Multiplication of two signs: like signs give `Positive`,
    /// unlike signs give `Negative`.
    pub fn mul(self, rhs: Sign) -> (r: Sign)
        ensures
            r == self.scale(rhs),
            r.as_int() == self.as_int() * rhs.as_int(),
    {
        match self {
            Sign::Positive => rhs,
            Sign::Negative => rhs.neg(),
        }
    }

    /// Scaling a 64-bit integer by this sign: `Positive` keeps it,
    /// `Negative` negates it.
    pub fn mul_i64(self, rhs: i64) -> (r: i64)
        requires
            self is Negative ==> rhs != i64::MIN,
        ensures
            r as int == self.as_int() * rhs as int,
    {
        match self {
            Sign::Positive => rhs,
            Sign::Negative => -rhs,
        }
    }

    /// Scaling a 32-bit integer by this sign: `Positive` keeps it,
    /// `Negative` negates it.
    pub fn mul_i32(self, rhs: i32) -> (r: i32)
        requires
            self is Negative ==> rhs != i32::MIN,
        ensures
            r as int == self.as_int() * rhs as int,
    {
        match self {
            Sign::Positive => rhs,
            Sign::Negative => -rhs,
        }
    }

    /// The pointer-sized integer this sign stands for: `1` or `-1`.
    pub fn to_isize(self) -> (r: isize)
        ensures
            r as int == self.as_int(),
    {
        match self {
            Sign::Positive => 1,
            Sign::Negative => -1,
        }
    }

    /// The 64-bit integer this sign stands for: `1` or `-1`.
    pub fn to_i64(self) -> (r: i64)
        ensures
            r as int == self.as_int(),
    {
        match self {
            Sign::Positive => 1,
            Sign::Negative => -1,
        }
    }

    /// The 32-bit integer this sign stands for: `1` or `-1`.
    pub fn to_i32(self) -> (r: i32)
        ensures
            r as int == self.as_int(),
    {
        match self {
            Sign::Positive => 1,
            Sign::Negative => -1,
        }
    }

    /// The 16-bit integer this sign stands for: `1` or `-1`.
    pub fn to_i16(self) -> (r: i16)
        ensures
            r as int == self.as_int(),
    {
        match self {
            Sign::Positive => 1,
            Sign::Negative => -1,
        }
    }

    /// The value this sign stands for, through the eight-bit accessor.
    ///
    /// Despite the name the result is 16 bits wide: the accessor has a
    /// 16-bit result type, and callers rely on that exact signature.
    pub fn to_i8(self) -> (r: i16)
        ensures
            r as int == self.as_int(),
    {
        match self {
            Sign::Positive => 1,
            Sign::Negative => -1,
        }
    }

    /// The one-character token this sign prints as and parses from:
    /// `"+"` for `Positive`, `"-"` for `Negative`.
    pub open spec fn token(self) -> Seq<char> {
        match self {
            Sign::Positive => seq!['+'],
            Sign::Negative => seq!['-'],
        }
    }

    /// How a string reads as a sign: exactly the two canonical tokens
    /// parse, and every other string is rejected.
    pub open spec fn parse_token(s: Seq<char>) -> Result<Sign, ()> {
        if s == Sign::Positive.token() {
            Ok(Sign::Positive)
        } else if s == Sign::Negative.token() {
            Ok(Sign::Negative)
        } else {
            Err(())
        }
    }

    /// Parsing: `"+"` gives `Positive`, `"-"` gives `Negative`, and any
    /// other string fails.
    pub fn from_str(s: &str) -> (r: Result<Sign, ()>)
        ensures
            r == Sign::parse_token(s@),
    {
        proof {
            assert(Sign::Positive.token() =~= seq!['+']);
            assert(Sign::Negative.token() =~= seq!['-']);
        }
        if s.unicode_len() == 1 {
            let c = s.get_char(0);
            if c == '+' {
                proof {
                    assert(s@ =~= Sign::Positive.token());
                }
                Ok(Sign::Positive)
            } else if c == '-' {
                proof {
                    assert(s@ =~= Sign::Negative.token());
                }
                Ok(Sign::Negative)
            } else {
                Err(())
            }
        } else {
            Err(())
        }
    }

    /// Formatting: the canonical one-character rendering, `"+"` or `"-"`.
    pub fn to_string(self) -> (r: String)
        ensures
            r@ == self.token(),
    {
        match self {
            Sign::Positive => {
                let r = String::from_str("+");
                proof {
                    reveal_strlit("+");
                    assert(r@ =~= Sign::Positive.token());
                }
                r
            },
            Sign::Negative => {
                let r = String::from_str("-");
                proof {
                    reveal_strlit("-");
                    assert(r@ =~= Sign::Negative.token());
                }
                r
            },
        }
    }

    /// `(-1)^n`: `Positive` when `n` is even, `Negative` when odd,
    /// with negative `n` classified by the same remainder test.
    pub fn parity(n: i32) -> (r: Sign)
        ensures
            r == (if n as int % 2 == 0 {
                Sign::Positive
            } else {
                Sign::Negative
            }),
    {
        if n % 2 == 0 {
            Sign::Positive
        } else {
            Sign::Negative
        }
    }

    /// `(-1)^n` for a boolean exponent: `false` counts as zero,
    /// `true` as one.
    pub fn parity_bool(n: bool) -> (r: Sign)
        ensures
            r == (if n {
                Sign::Negative
            } else {
                Sign::Positive
            }),
    {
        if n {
            Sign::Negative
        } else {
            Sign::Positive
        }
    }
}

impl core::str::FromStr for Sign {
    type Err = ();

    /// Parsing through the standard trait, so that `"+".parse()` works;
    /// the contract lives on the inherent `Sign::from_str`.
    fn from_str(s: &str) -> Result<Sign, ()> {
        Sign::from_str(s)
    }
}

impl PartialOrd for Sign {
    /// The total order on signs: `Negative` below `Positive`.
    fn partial_cmp(&self, other: &Sign) -> (r: Option<core::cmp::Ordering>) {
        match (self, other) {
            (Sign::Negative, Sign::Positive) => Some(core::cmp::Ordering::Less),
            (Sign::Positive, Sign::Negative) => Some(core::cmp::Ordering::Greater),
            _ => Some(core::cmp::Ordering::Equal),
        }
    }
}

impl vstd::std_specs::cmp::PartialOrdSpecImpl for Sign {
    open spec fn obeys_partial_cmp_spec() -> bool {
        true
    }

    open spec fn partial_cmp_spec(&self, other: &Sign) -> Option<core::cmp::Ordering> {
        if self.as_int() < other.as_int() {
            Some(core::cmp::Ordering::Less)
        } else if self.as_int() == other.as_int() {
            Some(core::cmp::Ordering::Equal)
        } else {
            Some(core::cmp::Ordering::Greater)
        }
    }
}

/// Classification of a numeric value by its algebraic sign.
pub trait Signed {
    /// The sign of the value, or `None` where it has none.
    fn sign(&self) -> Option<Sign>;
}

impl Signed for isize {
    /// Positive values are `Positive`, negative values `Negative`;
    /// zero has no sign.
    fn sign(&self) -> (r: Option<Sign>)
        ensures
            r == (if *self > 0 {
                Some(Sign::Positive)
            } else if *self < 0 {
                Some(Sign::Negative)
            } else {
                None::<Sign>
            }),
    {
        if *self > 0 {
            Some(Sign::Positive)
        } else if *self < 0 {
            Some(Sign::Negative)
        } else {
            None
        }
    }
}

impl Signed for i64 {
    /// Positive values are `Positive`, negative values `Negative`;
    /// zero has no sign.
    fn sign(&self) -> (r: Option<Sign>)
        ensures
            r == (if *self > 0 {
                Some(Sign::Positive)
            } else if *self < 0 {
                Some(Sign::Negative)
            } else {
                None::<Sign>
            }),
    {
        if *self > 0 {
            Some(Sign::Positive)
        } else if *self < 0 {
            Some(Sign::Negative)
        } else {
            None
        }
    }
}

impl Signed for i32 {
    /// Positive values are `Positive`, negative values `Negative`;
    /// zero has no sign.
    fn sign(&self) -> (r: Option<Sign>)
        ensures
            r == (if *self > 0 {
                Some(Sign::Positive)
            } else if *self < 0 {
                Some(Sign::Negative)
            } else {
                None::<Sign>
            }),
    {
        if *self > 0 {
            Some(Sign::Positive)
        } else if *self < 0 {
            Some(Sign::Negative)
        } else {
            None
        }
    }
}

impl Signed for i16 {
    /// Positive values are `Positive`, negative values `Negative`;
    /// zero has no sign.
    fn sign(&self) -> (r: Option<Sign>)
        ensures
            r == (if *self > 0 {
                Some(Sign::Positive)
            } else if *self < 0 {
                Some(Sign::Negative)
            } else {
                None::<Sign>
            }),
    {
        if *self > 0 {
            Some(Sign::Positive)
        } else if *self < 0 {
            Some(Sign::Negative)
        } else {
            None
        }
    }
}

impl Signed for i8 {
    /// Positive values are `Positive`, negative values `Negative`;
    /// zero has no sign.
    fn sign(&self) -> (r: Option<Sign>)
        ensures
            r == (if *self > 0 {
                Some(Sign::Positive)
            } else if *self < 0 {
                Some(Sign::Negative)
            } else {
                None::<Sign>
            }),
    {
        if *self > 0 {
            Some(Sign::Positive)
        } else if *self < 0 {
            Some(Sign::Negative)
        } else {
            None
        }
    }
}

impl From<Sign> for isize {
    /// The integer the sign stands for: `1` or `-1`.
    fn from(s: Sign) -> (r: isize) {
        s.to_isize()
    }
}

impl vstd::std_specs::convert::FromSpecImpl<Sign> for isize {
    open spec fn obeys_from_spec() -> bool {
        true
    }

    open spec fn from_spec(s: Sign) -> isize {
        s.as_int() as isize
    }
}

impl From<Sign> for i64 {
    /// The integer the sign stands for: `1` or `-1`.
    fn from(s: Sign) -> (r: i64) {
        s.to_i64()
    }
}

impl vstd::std_specs::convert::FromSpecImpl<Sign> for i64 {
    open spec fn obeys_from_spec() -> bool {
        true
    }

    open spec fn from_spec(s: Sign) -> i64 {
        s.as_int() as i64
    }
}

impl From<Sign> for i32 {
    /// The integer the sign stands for: `1` or `-1`.
    fn from(s: Sign) -> (r: i32) {
        s.to_i32()
    }
}

impl vstd::std_specs::convert::FromSpecImpl<Sign> for i32 {
    open spec fn obeys_from_spec() -> bool {
        true
    }

    open spec fn from_spec(s: Sign) -> i32 {
        s.as_int() as i32
    }
}

impl From<Sign> for i16 {
    /// The integer the sign stands for: `1` or `-1`.
    fn from(s: Sign) -> (r: i16) {
        s.to_i16()
    }
}

impl vstd::std_specs::convert::FromSpecImpl<Sign> for i16 {
    open spec fn obeys_from_spec() -> bool {
        true
    }

    open spec fn from_spec(s: Sign) -> i16 {
        s.as_int() as i16
    }
}

impl From<Sign> for i8 {
    /// The integer the sign stands for: `1` or `-1`.
    fn from(s: Sign) -> (r: i8) {
        match s {
            Sign::Positive => 1,
            Sign::Negative => -1,
        }
    }
}

impl vstd::std_specs::convert::FromSpecImpl<Sign> for i8 {
    open spec fn obeys_from_spec() -> bool {
        true
    }

    open spec fn from_spec(s: Sign) -> i8 {
        s.as_int() as i8
    }
}

/// Negating twice gives the sign back.
pub proof fn lemma_flip_involutive(s: Sign)
    ensures
        s.flip().flip() == s,
{
}

/// Scaling by `Positive` keeps a sign; scaling by `Negative` flips it.
pub proof fn lemma_scale_sign(x: Sign)
    ensures
        Sign::Positive.scale(x) == x,
        Sign::Negative.scale(x) == x.flip(),
{
}

/// Scaling an integer by `Positive` keeps it; by `Negative` negates it.
pub proof fn lemma_scale_int(x: int)
    ensures
        Sign::Positive.as_int() * x == x,
        Sign::Negative.as_int() * x == -x,
{
}

/// The multiplication table of signs: like signs give `Positive`,
/// unlike signs give `Negative`.
pub proof fn lemma_mul_table()
    ensures
        Sign::Positive.scale(Sign::Positive) == Sign::Positive,
        Sign::Positive.scale(Sign::Negative) == Sign::Negative,
        Sign::Negative.scale(Sign::Positive) == Sign::Negative,
        Sign::Negative.scale(Sign::Negative) == Sign::Positive,
{
}

/// A string that parses as a sign formats back to itself.
pub proof fn lemma_parse_then_format(s: Seq<char>, g: Sign)
    requires
        Sign::parse_token(s) == Ok::<Sign, ()>(g),
    ensures
        g.token() == s,
{
}

/// The canonical rendering of a sign parses back to it.
pub proof fn lemma_format_then_parse(s: Sign)
    ensures
        Sign::parse_token(s.token()) == Ok::<Sign, ()>(s),
{
    assert(Sign::Positive.token()[0] == '+');
    assert(Sign::Negative.token()[0] == '-');
}

/// The total order on signs puts `Negative` strictly below `Positive`,
/// and agrees with the integers the signs stand for.
pub proof fn lemma_order()
    ensures
        Sign::Negative.partial_cmp_spec(&Sign::Positive) == Some(core::cmp::Ordering::Less),
        Sign::Positive.partial_cmp_spec(&Sign::Negative) == Some(core::cmp::Ordering::Greater),
        Sign::Negative.as_int() < Sign::Positive.as_int(),
{
}

} // verus!
