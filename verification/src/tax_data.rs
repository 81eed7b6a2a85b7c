//! The bracket table and the taxpayer's figures.

use vstd::prelude::*;

verus! {

/// The rate that stands for 100%: rates are whole parts per million.
pub const RATE_SCALE: i64 = 1_000_000;

/// Mills (tenths of a cent) in one cent.
pub const MILLS_PER_CENT: i64 = 10;

/// Tax units in one cent: a tax unit is one mill taxed at one part per million.
pub const TAX_UNITS_PER_CENT: i128 = 10_000_000;

/// An amount of whole cents, in mills.
pub open spec fn mills_of_cents(cents: int) -> int {
    10 * cents
}

/// An amount of whole cents, in tax units.
pub open spec fn tax_units_of_cents(cents: int) -> int {
    10_000_000 * cents
}

/// The tax on an amount of mills at 100%, in tax units.
pub open spec fn taxed_in_full(mills: int) -> int {
    1_000_000 * mills
}

/// The unit constants are what the conversions make of one cent and of one
/// mill, and a cent taxed in full is a cent's worth of tax units.
pub proof fn lemma_unit_constants(cents: int)
    ensures
        mills_of_cents(1) == MILLS_PER_CENT,
        tax_units_of_cents(1) == TAX_UNITS_PER_CENT,
        taxed_in_full(1) == RATE_SCALE,
        taxed_in_full(mills_of_cents(cents)) == tax_units_of_cents(cents),
{
}

/// Converts whole cents to mills.
pub fn mills_from_cents(cents: i64) -> (mills: i128)
    ensures
        mills == mills_of_cents(cents as int),
{
    10 * (cents as i128)
}

/// Converts whole cents to tax units.
pub fn tax_units_from_cents(cents: i64) -> (units: i128)
    ensures
        units == tax_units_of_cents(cents as int),
{
    10_000_000 * (cents as i128)
}

/// One marginal-rate tier of a progressive schedule.
#[derive(Debug, Clone, Copy)]
pub struct TaxBracket {
    /// Lower bound of the tier, in cents. Income at or below it is not taxed here.
    pub min_income: i64,
    /// Upper bound of the tier, in cents; `None` for a tier without one.
    pub max_income: Option<i64>,
    /// Marginal rate, in parts per million.
    pub rate: i64,
    /// Constant subtracted once when this tier is the highest one reached, in cents.
    pub deduction: i64,
}

/// An ordered table of brackets, lowest tier first.
#[derive(Debug)]
pub struct TaxBrackets {
    pub brackets: Vec<TaxBracket>,
}

/// What a taxpayer reports for one year, in cents.
#[derive(Debug, Clone, Copy)]
pub struct UserInput {
    pub annual_income: i64,
    pub deductions: i64,
    pub tax_paid: i64,
}

impl TaxBracket {
    /// The rate lies between 0% and 100%, the constant is not negative, and a
    /// bounded tier does not end before it starts.
    pub open spec fn well_formed(&self) -> bool {
        &&& 0 <= self.rate <= RATE_SCALE
        &&& 0 <= self.deduction
        &&& self.max_income matches Some(max) ==> self.min_income <= max
    }

    /// Whether `next` may follow this tier: this tier is bounded, `next`
    /// starts at its upper bound or at the cent after it, and strictly above
    /// its lower bound.
    pub open spec fn continued_by(&self, next: TaxBracket) -> bool {
        &&& self.max_income matches Some(max)
        &&& (next.min_income == max || next.min_income == max + 1)
        &&& self.min_income < next.min_income
    }

    /// Decides `well_formed`.
    pub fn is_well_formed(&self) -> (ok: bool)
        ensures
            ok == self.well_formed(),
    {
        let bounds_ok = match self.max_income {
            Some(max) => self.min_income <= max,
            None => true,
        };
        0 <= self.rate && self.rate <= RATE_SCALE && 0 <= self.deduction && bounds_ok
    }

    /// Decides `continued_by`.
    pub fn is_continued_by(&self, next: &TaxBracket) -> (ok: bool)
        ensures
            ok == self.continued_by(*next),
    {
        match self.max_income {
            Some(max) => {
                let adjacent = next.min_income == max
                    || (max < i64::MAX && next.min_income == max + 1);
                adjacent && self.min_income < next.min_income
            },
            None => false,
        }
    }
}

/// A table is well formed when every tier is, and each tier but the last is
/// continued by the one after it. Lower bounds then ascend strictly, tiers
/// neither overlap nor leave a gap wider than a cent, and only the last tier
/// can be unbounded.
pub open spec fn table_well_formed(table: Seq<TaxBracket>) -> bool {
    &&& forall|i: int| 0 <= i < table.len() ==> (#[trigger] table[i]).well_formed()
    &&& forall|i: int|
        0 <= i < table.len() - 1 ==> (#[trigger] table[i]).continued_by(table[i + 1])
}

impl View for TaxBrackets {
    type V = Seq<TaxBracket>;

    open spec fn view(&self) -> Seq<TaxBracket> {
        self.brackets@
    }
}

impl TaxBrackets {
    pub open spec fn well_formed(&self) -> bool {
        table_well_formed(self@)
    }

    /// Decides `well_formed`, so that a table read from configuration can be
    /// checked once before any tax is computed from it.
    pub fn is_well_formed(&self) -> (ok: bool)
        ensures
            ok == self.well_formed(),
    {
        let n: usize = self.brackets.len();
        let mut i: usize = 0;
        while i < n
            invariant
                n == self.brackets.len(),
                i <= n,
                forall|j: int| 0 <= j < i ==> (#[trigger] self@[j]).well_formed(),
                forall|j: int|
                    0 <= j < i && j < n - 1 ==> (#[trigger] self@[j]).continued_by(self@[j + 1]),
            decreases n - i,
        {
            if !self.brackets[i].is_well_formed() {
                return false;
            }
            if i + 1 < n && !self.brackets[i].is_continued_by(&self.brackets[i + 1]) {
                return false;
            }
            i += 1;
        }
        true
    }
}

} // verus!
