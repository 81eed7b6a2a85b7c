//! Balance of the tax due against the tax already paid during the year.

use crate::tax_calculator::{
    calculate_tax_complete, calculate_tax_simplified, tax_due, taxable_income_complete,
    taxable_income_simplified, MAX_TAX_DUE,
};
use crate::tax_data::{tax_units_from_cents, tax_units_of_cents, TaxBrackets, UserInput};
use vstd::prelude::*;

verus! {

/// How a tax due compares with the tax already paid, with the amount that
/// settles the difference, in tax units.
#[derive(Debug, Clone, Copy, PartialEq, Eq)]
pub enum Settlement {
    /// More is due than was paid: the amount still to pay, which is positive.
    Payment(i128),
    /// No more is due than was paid: the amount to refund, which is zero
    /// where the tax paid equals the tax due.
    Refund(i128),
}

/// Both models applied to one taxpayer: the tax due under each, and how each
/// settles against the tax paid.
#[derive(Debug, Clone, Copy)]
pub struct Assessment {
    pub tax_due_complete: i128,
    pub tax_due_simplified: i128,
    pub settlement_complete: Settlement,
    pub settlement_simplified: Settlement,
}

/// Tax due less tax paid, in tax units: positive where more is to be paid.
pub open spec fn tax_difference(tax_due: int, tax_paid: int) -> int {
    tax_due - tax_units_of_cents(tax_paid)
}

impl Settlement {
    /// The difference that this settlement closes: the payment, or the
    /// refund with a negative sign.
    pub open spec fn difference(self) -> int {
        match self {
            Settlement::Payment(amount) => amount as int,
            Settlement::Refund(amount) => -amount,
        }
    }

    /// Whether this is the settlement of `tax_due` (tax units) against
    /// `tax_paid` (cents): a payment of the difference where it is positive,
    /// else a refund of its negation.
    pub open spec fn settles(self, tax_due: int, tax_paid: int) -> bool {
        &&& self.difference() == tax_difference(tax_due, tax_paid)
        &&& self is Payment <==> tax_difference(tax_due, tax_paid) > 0
    }
}

/// Settles a tax due (tax units) against the tax paid (cents).
pub fn settle(tax_due: i128, tax_paid: i64) -> (settlement: Settlement)
    requires
        -MAX_TAX_DUE <= tax_due <= MAX_TAX_DUE,
    ensures
        settlement.settles(tax_due as int, tax_paid as int),
{
    let difference: i128 = tax_due - tax_units_from_cents(tax_paid);
    if difference > 0 {
        Settlement::Payment(difference)
    } else {
        Settlement::Refund(-difference)
    }
}

/// Computes the tax due under both models and settles each against the tax
/// paid.
pub fn assess(user_input: &UserInput, tax_brackets: &TaxBrackets) -> (assessment: Assessment)
    requires
        tax_brackets.well_formed(),
    ensures
        assessment.tax_due_complete == tax_due(
            taxable_income_complete(user_input.annual_income as int, user_input.deductions as int),
            tax_brackets@,
        ),
        assessment.tax_due_simplified == tax_due(
            taxable_income_simplified(user_input.annual_income as int),
            tax_brackets@,
        ),
        assessment.settlement_complete.settles(
            assessment.tax_due_complete as int,
            user_input.tax_paid as int,
        ),
        assessment.settlement_simplified.settles(
            assessment.tax_due_simplified as int,
            user_input.tax_paid as int,
        ),
{
    let tax_due_complete: i128 = calculate_tax_complete(user_input, tax_brackets);
    let tax_due_simplified: i128 = calculate_tax_simplified(user_input, tax_brackets);
    Assessment {
        tax_due_complete,
        tax_due_simplified,
        settlement_complete: settle(tax_due_complete, user_input.tax_paid),
        settlement_simplified: settle(tax_due_simplified, user_input.tax_paid),
    }
}

} // verus!
