use income_tax::settlement::{assess, settle, Settlement};
use income_tax::tax_calculator::{calculate_tax_complete, calculate_tax_simplified, MAX_TAX_DUE};
use income_tax::tax_data::{TaxBracket, TaxBrackets, UserInput, TAX_UNITS_PER_CENT};

fn schedule() -> TaxBrackets {
    TaxBrackets {
        brackets: vec![
            TaxBracket { min_income: 0, max_income: Some(1_000_000), rate: 100_000, deduction: 0 },
            TaxBracket { min_income: 1_000_000, max_income: None, rate: 200_000, deduction: 0 },
        ],
    }
}

#[test]
fn more_due_than_paid_is_a_payment() {
    // 150.00 due, 100.00 paid.
    let settlement = settle(15_000 * TAX_UNITS_PER_CENT, 10_000);
    assert_eq!(settlement, Settlement::Payment(5_000 * TAX_UNITS_PER_CENT));
    assert_eq!(settle(1, 0), Settlement::Payment(1));
}

#[test]
fn less_due_than_paid_is_a_refund() {
    // 100.00 due, 150.00 paid.
    let settlement = settle(10_000 * TAX_UNITS_PER_CENT, 15_000);
    assert_eq!(settlement, Settlement::Refund(5_000 * TAX_UNITS_PER_CENT));
    assert_eq!(settle(-1, 0), Settlement::Refund(1));
    // A negative tax due is refunded on top of what was paid.
    assert_eq!(settle(-3 * TAX_UNITS_PER_CENT, 2), Settlement::Refund(5 * TAX_UNITS_PER_CENT));
}

#[test]
fn tax_paid_equal_to_tax_due_is_a_refund_of_nothing() {
    assert_eq!(settle(0, 0), Settlement::Refund(0));
    assert_eq!(settle(7 * TAX_UNITS_PER_CENT, 7), Settlement::Refund(0));
}

#[test]
fn settlement_covers_the_largest_amounts() {
    assert_eq!(
        settle(MAX_TAX_DUE, i64::MIN),
        Settlement::Payment(MAX_TAX_DUE - i64::MIN as i128 * TAX_UNITS_PER_CENT)
    );
    assert_eq!(
        settle(-MAX_TAX_DUE, i64::MAX),
        Settlement::Refund(MAX_TAX_DUE + i64::MAX as i128 * TAX_UNITS_PER_CENT)
    );
}

#[test]
fn assessment_reports_both_models() {
    let tax_brackets = schedule();
    // Income 20000.00, itemized deductions 15000.00, 1200.00 paid.
    let user_input =
        UserInput { annual_income: 2_000_000, deductions: 1_500_000, tax_paid: 120_000 };
    let assessment = assess(&user_input, &tax_brackets);
    // Complete model: 5000.00 taxable at 10% is 500.00.
    assert_eq!(assessment.tax_due_complete, 50_000 * TAX_UNITS_PER_CENT);
    assert_eq!(assessment.settlement_complete, Settlement::Refund(70_000 * TAX_UNITS_PER_CENT));
    // Simplified model: 16000.00 taxable, 1000.00 + 6000.00 * 20% = 2200.00.
    assert_eq!(assessment.tax_due_simplified, 220_000 * TAX_UNITS_PER_CENT);
    assert_eq!(
        assessment.settlement_simplified,
        Settlement::Payment(100_000 * TAX_UNITS_PER_CENT)
    );
    assert_eq!(assessment.tax_due_complete, calculate_tax_complete(&user_input, &tax_brackets));
    assert_eq!(
        assessment.tax_due_simplified,
        calculate_tax_simplified(&user_input, &tax_brackets)
    );
}
