//! The tax engine: taxable income under the two deduction models, and the
//! walk over the bracket table that turns taxable income into tax due.

use crate::tax_data::{
    mills_from_cents, mills_of_cents, table_well_formed, tax_units_from_cents, tax_units_of_cents,
    TaxBracket, TaxBrackets, UserInput,
};
use crate::tax_lemmas::{
    lemma_brackets_reached, lemma_first_unreached, lemma_marginal_tax_bounds,
    lemma_product_bounds, lemma_single_taxed_bracket, lemma_untaxed_at_or_below_first_minimum,
};
use vstd::prelude::*;

verus! {

/// Cap on the standard deduction of the simplified model, in cents.
pub const STANDARD_DEDUCTION_CAP: i64 = 1_675_434;

/// Largest magnitude of taxable income, in mills, that `calculate_tax` takes.
pub const MAX_TAXABLE_INCOME: i128 = 1_000_000_000_000_000_000_000_000_000_000;

/// Largest magnitude of a tax amount, in tax units, that `calculate_tax` returns.
pub const MAX_TAX_DUE: i128 = 10_000_000_000_000_000_000_000_000_000_000_000_000;

/// Taxable income of the complete model, in mills: income less the itemized
/// deductions. It is not floored at zero.
pub open spec fn taxable_income_complete(income: int, deductions: int) -> int {
    mills_of_cents(income - deductions)
}

/// A fifth of an income of whole cents, in mills: two mills for every cent.
pub open spec fn fifth_of_income(income: int) -> int {
    2 * income
}

/// Standard deduction of the simplified model, in mills: 20% of the income,
/// but no more than the cap.
pub open spec fn standard_deduction(income: int) -> int {
    let flat = fifth_of_income(income);
    let cap = mills_of_cents(STANDARD_DEDUCTION_CAP as int);
    if flat <= cap {
        flat
    } else {
        cap
    }
}

/// Taxable income of the simplified model, in mills: income less the standard
/// deduction.
pub open spec fn taxable_income_simplified(income: int) -> int {
    mills_of_cents(income) - standard_deduction(income)
}

/// The part of a taxable income, in mills, that falls into a bracket the
/// income reaches: from the bracket's lower bound up to the income, or up to
/// the bracket's upper bound where the income lies beyond it.
pub open spec fn portion_in_bracket(taxable_income: int, bracket: TaxBracket) -> int {
    let top = match bracket.max_income {
        Some(max) if taxable_income > mills_of_cents(max as int) => mills_of_cents(max as int),
        _ => taxable_income,
    };
    top - mills_of_cents(bracket.min_income as int)
}

/// Index of the first bracket from `from` on that the income does not reach,
/// or the table's length where it reaches them all. An income reaches a
/// bracket when it lies strictly above the bracket's lower bound.
pub open spec fn first_unreached(taxable_income: int, table: Seq<TaxBracket>, from: int) -> int
    decreases table.len() - from,
{
    if 0 <= from < table.len() && taxable_income > mills_of_cents(table[from].min_income as int) {
        first_unreached(taxable_income, table, from + 1)
    } else {
        from
    }
}

/// Number of brackets that the walk over the table taxes: those before the
/// first bracket that the income does not reach.
pub open spec fn brackets_reached(taxable_income: int, table: Seq<TaxBracket>) -> int {
    first_unreached(taxable_income, table, 0)
}

/// Marginal tax accrued over the first `count` brackets, in tax units: for
/// each, the portion of the income in it times its rate.
pub open spec fn marginal_tax(taxable_income: int, table: Seq<TaxBracket>, count: int) -> int
    decreases count,
{
    if count <= 0 {
        0
    } else {
        marginal_tax(taxable_income, table, count - 1) + portion_in_bracket(
            taxable_income,
            table[count - 1],
        ) * table[count - 1].rate
    }
}

/// The constant that is subtracted from the marginal tax, in tax units: that
/// of the highest bracket reached, and nothing where none is reached.
pub open spec fn top_deduction(taxable_income: int, table: Seq<TaxBracket>) -> int {
    let reached = brackets_reached(taxable_income, table);
    if reached == 0 {
        0
    } else {
        tax_units_of_cents(table[reached - 1].deduction as int)
    }
}

/// Tax due on a taxable income, in tax units: the marginal tax accrued over
/// the brackets reached, less the constant of the highest of them alone. The
/// result is not clamped and is negative where that constant exceeds the
/// marginal tax.
pub open spec fn tax_due(taxable_income: int, table: Seq<TaxBracket>) -> int {
    marginal_tax(taxable_income, table, brackets_reached(taxable_income, table)) - top_deduction(
        taxable_income,
        table,
    )
}

/// Whether the income lies within bracket `index`, above its lower bound and
/// not above its upper bound, and every bracket below it is taxed at 0%.
pub open spec fn within_first_taxed_bracket(
    taxable_income: int,
    table: Seq<TaxBracket>,
    index: int,
) -> bool {
    &&& 0 <= index < table.len()
    &&& taxable_income > mills_of_cents(table[index].min_income as int)
    &&& table[index].max_income matches Some(max) ==> taxable_income <= mills_of_cents(max as int)
    &&& forall|j: int| 0 <= j < index ==> (#[trigger] table[j]).rate == 0
}

/// Taxable income under the complete model, in mills.
pub fn derive_taxable_income_complete(income: i64, deductions: i64) -> (taxable_income: i128)
    ensures
        taxable_income == taxable_income_complete(income as int, deductions as int),
        -MAX_TAXABLE_INCOME <= taxable_income <= MAX_TAXABLE_INCOME,
{
    mills_from_cents(income) - mills_from_cents(deductions)
}

/// Taxable income under the simplified model, in mills. The deduction never
/// exceeds the cap.
pub fn derive_taxable_income_simplified(income: i64) -> (taxable_income: i128)
    ensures
        taxable_income == taxable_income_simplified(income as int),
        mills_of_cents(income as int) - taxable_income <= mills_of_cents(
            STANDARD_DEDUCTION_CAP as int,
        ),
        -MAX_TAXABLE_INCOME <= taxable_income <= MAX_TAXABLE_INCOME,
{
    // A fifth of the income: two mills for every cent.
    let flat: i128 = 2 * (income as i128);
    let cap: i128 = mills_from_cents(STANDARD_DEDUCTION_CAP);
    let deduction: i128 = if flat <= cap {
        flat
    } else {
        cap
    };
    mills_from_cents(income) - deduction
}

/// Walks the brackets in ascending order and returns the tax due on
/// `taxable_income` (mills), in tax units.
///
/// The walk stops at the first bracket whose lower bound the income does not
/// exceed. Every bracket before it adds its portion of the income times its
/// rate; the deduction constant of the last of them alone is subtracted at
/// the end.
pub fn calculate_tax(taxable_income: i128, tax_brackets: &TaxBrackets) -> (due: i128)
    requires
        tax_brackets.well_formed(),
        -MAX_TAXABLE_INCOME <= taxable_income <= MAX_TAXABLE_INCOME,
    ensures
        due == tax_due(taxable_income as int, tax_brackets@),
        -MAX_TAX_DUE <= due <= MAX_TAX_DUE,
        tax_brackets@.len() == 0 || taxable_income <= mills_of_cents(
            tax_brackets@[0].min_income as int,
        ) ==> due == 0,
        forall|i: int|
            0 <= i < tax_brackets@.len() && within_first_taxed_bracket(
                taxable_income as int,
                tax_brackets@,
                i,
            ) ==> due == (taxable_income - mills_of_cents(
                (#[trigger] tax_brackets@[i]).min_income as int,
            )) * tax_brackets@[i].rate - tax_units_of_cents(tax_brackets@[i].deduction as int),
{
    let ghost table = tax_brackets@;
    let ghost income = taxable_income as int;
    let n: usize = tax_brackets.brackets.len();
    let mut total: i128 = 0;
    let mut deduction: i128 = 0;
    let mut i: usize = 0;
    proof {
        lemma_brackets_reached(income, table);
    }
    while i < n
        invariant
            table == tax_brackets@,
            income == taxable_income,
            n == table.len(),
            table_well_formed(table),
            -MAX_TAXABLE_INCOME <= taxable_income <= MAX_TAXABLE_INCOME,
            i <= n,
            first_unreached(income, table, i as int) == brackets_reached(income, table),
            i <= brackets_reached(income, table),
            total == marginal_tax(income, table, i as int),
            i == 0 ==> deduction == 0,
            i > 0 ==> deduction == tax_units_of_cents(table[i - 1].deduction as int),
        ensures
            0 <= i <= n,
            i == brackets_reached(income, table),
            total == marginal_tax(income, table, i as int),
            i == 0 ==> deduction == 0,
            i > 0 ==> deduction == tax_units_of_cents(table[i - 1].deduction as int),
        decreases n - i,
    {
        let bracket = &tax_brackets.brackets[i];
        let lower: i128 = mills_from_cents(bracket.min_income);
        if taxable_income <= lower {
            break ;
        }
        let top: i128 = match bracket.max_income {
            Some(max) if taxable_income > mills_from_cents(max) => mills_from_cents(max),
            _ => taxable_income,
        };
        proof {
            assert(table[i as int].well_formed());
            assert(top - lower == portion_in_bracket(income, table[i as int]));
            lemma_first_unreached(income, table, i + 1);
            lemma_marginal_tax_bounds(income, table, i as int);
            lemma_marginal_tax_bounds(income, table, i + 1);
            lemma_product_bounds(top - lower, bracket.rate as int, income - lower);
        }
        total = total + (top - lower) * (bracket.rate as i128);
        deduction = tax_units_from_cents(bracket.deduction);
        i += 1;
    }
    proof {
        lemma_brackets_reached(income, table);
        lemma_marginal_tax_bounds(income, table, i as int);
        if table.len() == 0 || income <= mills_of_cents(table[0].min_income as int) {
            lemma_untaxed_at_or_below_first_minimum(income, table);
        }
        assert forall|k: int|
            0 <= k < table.len() && within_first_taxed_bracket(income, table, k) implies total
            - deduction == (income - mills_of_cents((#[trigger] table[k]).min_income as int))
            * table[k].rate - tax_units_of_cents(table[k].deduction as int) by {
            lemma_single_taxed_bracket(income, table, k);
        }
    }
    total - deduction
}

/// Tax due under the complete model, in tax units: itemized deductions are
/// subtracted in full from the annual income.
pub fn calculate_tax_complete(user_input: &UserInput, tax_brackets: &TaxBrackets) -> (due: i128)
    requires
        tax_brackets.well_formed(),
    ensures
        due == tax_due(
            taxable_income_complete(user_input.annual_income as int, user_input.deductions as int),
            tax_brackets@,
        ),
        -MAX_TAX_DUE <= due <= MAX_TAX_DUE,
{
    let taxable_income: i128 = derive_taxable_income_complete(
        user_input.annual_income,
        user_input.deductions,
    );
    calculate_tax(taxable_income, tax_brackets)
}

/// Tax due under the simplified model, in tax units: the standard deduction
/// is subtracted from the annual income, and itemized deductions are ignored.
pub fn calculate_tax_simplified(user_input: &UserInput, tax_brackets: &TaxBrackets) -> (due: i128)
    requires
        tax_brackets.well_formed(),
    ensures
        due == tax_due(taxable_income_simplified(user_input.annual_income as int), tax_brackets@),
        -MAX_TAX_DUE <= due <= MAX_TAX_DUE,
{
    let taxable_income: i128 = derive_taxable_income_simplified(user_input.annual_income);
    calculate_tax(taxable_income, tax_brackets)
}

} // verus!
