//! What holds of the tax model: where the walk over the table stops, how
//! large the marginal tax can grow, and how the tax due behaves at the foot
//! of the table, inside the first taxed bracket, and as income rises.

use crate::tax_calculator::{
    brackets_reached, first_unreached, marginal_tax, portion_in_bracket, tax_due, top_deduction,
    within_first_taxed_bracket,
};
use crate::tax_data::{
    mills_of_cents, table_well_formed, tax_units_of_cents, taxed_in_full, TaxBracket, RATE_SCALE,
};
use vstd::prelude::*;

verus! {

/// A non-negative amount taxed at a rate between 0% and 100% yields a
/// non-negative tax, no larger than any bound on the amount taxed in full.
pub proof fn lemma_product_bounds(amount: int, rate: int, bound: int)
    by (nonlinear_arith)
    requires
        0 <= amount <= bound,
        0 <= rate <= RATE_SCALE,
    ensures
        0 <= amount * rate <= taxed_in_full(bound),
{
}

/// At a non-negative rate, a larger amount yields no smaller a tax.
pub proof fn lemma_product_monotonic(smaller: int, larger: int, rate: int)
    by (nonlinear_arith)
    requires
        smaller <= larger,
        0 <= rate,
    ensures
        smaller * rate <= larger * rate,
{
}

/// The search from `from` stops at or after `from`: the income reaches every
/// bracket it passes, and does not reach the one it stops at.
pub proof fn lemma_first_unreached(taxable_income: int, table: Seq<TaxBracket>, from: int)
    requires
        0 <= from <= table.len(),
    ensures
        from <= first_unreached(taxable_income, table, from) <= table.len(),
        forall|j: int|
            from <= j < first_unreached(taxable_income, table, from) ==> taxable_income
                > mills_of_cents((#[trigger] table[j]).min_income as int),
        first_unreached(taxable_income, table, from) < table.len() ==> taxable_income
            <= mills_of_cents(
            table[first_unreached(taxable_income, table, from)].min_income as int,
        ),
    decreases table.len() - from,
{
    if from < table.len() && taxable_income > mills_of_cents(table[from].min_income as int) {
        lemma_first_unreached(taxable_income, table, from + 1);
    }
}

/// The brackets reached form a prefix of the table: the income lies strictly
/// above the lower bound of each of them, and at or below that of the bracket
/// after them, if there is one.
pub proof fn lemma_brackets_reached(taxable_income: int, table: Seq<TaxBracket>)
    ensures
        0 <= brackets_reached(taxable_income, table) <= table.len(),
        forall|j: int|
            0 <= j < brackets_reached(taxable_income, table) ==> taxable_income > mills_of_cents(
                (#[trigger] table[j]).min_income as int,
            ),
        brackets_reached(taxable_income, table) < table.len() ==> taxable_income <= mills_of_cents(
            table[brackets_reached(taxable_income, table)].min_income as int,
        ),
{
    lemma_first_unreached(taxable_income, table, 0);
}

/// In a well-formed table lower bounds ascend strictly.
pub proof fn lemma_lower_bounds_ascend(table: Seq<TaxBracket>, i: int, j: int)
    requires
        table_well_formed(table),
        0 <= i < j < table.len(),
    ensures
        table[i].min_income < table[j].min_income,
    decreases j - i,
{
    assert(table[j - 1].continued_by(table[j]));
    if i < j - 1 {
        lemma_lower_bounds_ascend(table, i, j - 1);
    }
}

/// In a well-formed table the number of brackets reached is recognised by
/// its two neighbours alone: it is `count` where the income lies above the
/// lower bound of the last of the first `count` brackets and not above that
/// of the bracket after them.
pub proof fn lemma_brackets_reached_is(taxable_income: int, table: Seq<TaxBracket>, count: int)
    requires
        table_well_formed(table),
        0 <= count <= table.len(),
        count > 0 ==> taxable_income > mills_of_cents(table[count - 1].min_income as int),
        count < table.len() ==> taxable_income <= mills_of_cents(table[count].min_income as int),
    ensures
        brackets_reached(taxable_income, table) == count,
{
    let reached = brackets_reached(taxable_income, table);
    lemma_brackets_reached(taxable_income, table);
    if reached < count {
        if reached < count - 1 {
            lemma_lower_bounds_ascend(table, reached, count - 1);
        }
    } else if reached > count {
        assert(taxable_income > mills_of_cents(table[count].min_income as int));
    }
}

/// Over a well-formed table the marginal tax accrued over brackets that the
/// income reaches is never negative, and never more than the income above the
/// table's first lower bound taxed in full; while brackets remain, no more
/// than what lies below the next bracket taxed in full.
pub proof fn lemma_marginal_tax_bounds(taxable_income: int, table: Seq<TaxBracket>, count: int)
    requires
        table_well_formed(table),
        0 <= count <= brackets_reached(taxable_income, table),
    ensures
        0 <= marginal_tax(taxable_income, table, count),
        count == 0 ==> marginal_tax(taxable_income, table, count) == 0,
        count > 0 ==> marginal_tax(taxable_income, table, count) <= taxed_in_full(
            taxable_income - mills_of_cents(table[0].min_income as int),
        ),
        count < table.len() ==> marginal_tax(taxable_income, table, count) <= taxed_in_full(
            mills_of_cents(table[count].min_income as int) - mills_of_cents(
                table[0].min_income as int,
            ),
        ),
    decreases count,
{
    lemma_brackets_reached(taxable_income, table);
    if count > 0 {
        let bracket = table[count - 1];
        let portion = portion_in_bracket(taxable_income, bracket);
        lemma_marginal_tax_bounds(taxable_income, table, count - 1);
        assert(bracket.well_formed());
        assert(taxable_income > mills_of_cents(bracket.min_income as int));
        lemma_product_bounds(portion, bracket.rate as int, portion);
        if count < table.len() {
            assert(bracket.continued_by(table[count]));
        }
    }
}

/// Over a well-formed table the marginal tax does not shrink as further
/// brackets that the income reaches are counted in.
pub proof fn lemma_marginal_tax_grows(
    taxable_income: int,
    table: Seq<TaxBracket>,
    fewer: int,
    more: int,
)
    requires
        table_well_formed(table),
        0 <= fewer <= more <= brackets_reached(taxable_income, table),
    ensures
        marginal_tax(taxable_income, table, fewer) <= marginal_tax(taxable_income, table, more),
    decreases more,
{
    if fewer < more {
        let bracket = table[more - 1];
        let portion = portion_in_bracket(taxable_income, bracket);
        lemma_marginal_tax_grows(taxable_income, table, fewer, more - 1);
        lemma_brackets_reached(taxable_income, table);
        assert(bracket.well_formed());
        assert(taxable_income > mills_of_cents(bracket.min_income as int));
        lemma_product_bounds(portion, bracket.rate as int, portion);
    }
}

/// Over any number of brackets of a well-formed table, the higher of two
/// incomes accrues no less marginal tax than the lower.
pub proof fn lemma_marginal_tax_prefix_monotonic(
    lower_income: int,
    higher_income: int,
    table: Seq<TaxBracket>,
    count: int,
)
    requires
        table_well_formed(table),
        lower_income <= higher_income,
        0 <= count <= table.len(),
    ensures
        marginal_tax(lower_income, table, count) <= marginal_tax(higher_income, table, count),
    decreases count,
{
    if count > 0 {
        let bracket = table[count - 1];
        lemma_marginal_tax_prefix_monotonic(lower_income, higher_income, table, count - 1);
        assert(bracket.well_formed());
        lemma_product_monotonic(
            portion_in_bracket(lower_income, bracket),
            portion_in_bracket(higher_income, bracket),
            bracket.rate as int,
        );
    }
}

/// Brackets taxed at 0% accrue no marginal tax.
pub proof fn lemma_marginal_tax_of_untaxed_brackets(
    taxable_income: int,
    table: Seq<TaxBracket>,
    count: int,
)
    requires
        0 <= count <= table.len(),
        forall|j: int| 0 <= j < count ==> (#[trigger] table[j]).rate == 0,
    ensures
        marginal_tax(taxable_income, table, count) == 0,
    decreases count,
{
    if count > 0 {
        lemma_marginal_tax_of_untaxed_brackets(taxable_income, table, count - 1);
        assert(table[count - 1].rate == 0);
    }
}

/// No bracket of an empty table is reached, nor any bracket of a table whose
/// first lower bound the income does not exceed: the tax due is exactly zero.
pub proof fn lemma_untaxed_at_or_below_first_minimum(taxable_income: int, table: Seq<TaxBracket>)
    requires
        table.len() == 0 || taxable_income <= mills_of_cents(table[0].min_income as int),
    ensures
        brackets_reached(taxable_income, table) == 0,
        tax_due(taxable_income, table) == 0,
{
}

/// An income that lies within bracket `index` of a well-formed table, above
/// its lower bound and not above its upper bound, where every bracket below
/// is taxed at 0%, owes exactly its excess over the bracket's lower bound
/// times the bracket's rate, less the bracket's constant.
pub proof fn lemma_single_taxed_bracket(taxable_income: int, table: Seq<TaxBracket>, index: int)
    requires
        table_well_formed(table),
        within_first_taxed_bracket(taxable_income, table, index),
    ensures
        brackets_reached(taxable_income, table) == index + 1,
        tax_due(taxable_income, table) == (taxable_income - mills_of_cents(
            table[index].min_income as int,
        )) * table[index].rate - tax_units_of_cents(table[index].deduction as int),
{
    if index + 1 < table.len() {
        assert(table[index].continued_by(table[index + 1]));
    }
    lemma_brackets_reached_is(taxable_income, table, index + 1);
    lemma_marginal_tax_of_untaxed_brackets(taxable_income, table, index);
}

/// Over a well-formed table the marginal tax accrued over the brackets
/// reached does not fall as taxable income rises. Since the tax due is that
/// marginal tax less the constant of the highest bracket reached, the tax due
/// plus that constant does not fall either.
pub proof fn lemma_marginal_tax_monotonic(
    lower_income: int,
    higher_income: int,
    table: Seq<TaxBracket>,
)
    requires
        table_well_formed(table),
        lower_income <= higher_income,
    ensures
        brackets_reached(lower_income, table) <= brackets_reached(higher_income, table),
        marginal_tax(lower_income, table, brackets_reached(lower_income, table)) <= marginal_tax(
            higher_income,
            table,
            brackets_reached(higher_income, table),
        ),
        tax_due(lower_income, table) + top_deduction(lower_income, table) <= tax_due(
            higher_income,
            table,
        ) + top_deduction(higher_income, table),
{
    let fewer = brackets_reached(lower_income, table);
    let more = brackets_reached(higher_income, table);
    lemma_brackets_reached(lower_income, table);
    lemma_brackets_reached(higher_income, table);
    if more < fewer {
        assert(lower_income > mills_of_cents(table[more].min_income as int));
    }
    lemma_marginal_tax_prefix_monotonic(lower_income, higher_income, table, fewer);
    lemma_marginal_tax_grows(higher_income, table, fewer, more);
}

/// Over a well-formed table the tax due does not fall as taxable income
/// rises, so long as the constant subtracted for the higher income is no
/// larger than the one subtracted for the lower income; in particular while
/// both incomes have the same highest bracket. Where the higher income
/// reaches a bracket with a larger constant, the tax due may drop at that
/// bracket's lower bound.
pub proof fn lemma_tax_due_monotonic(lower_income: int, higher_income: int, table: Seq<TaxBracket>)
    requires
        table_well_formed(table),
        lower_income <= higher_income,
        top_deduction(higher_income, table) <= top_deduction(lower_income, table),
    ensures
        tax_due(lower_income, table) <= tax_due(higher_income, table),
{
    lemma_marginal_tax_monotonic(lower_income, higher_income, table);
}

} // verus!
