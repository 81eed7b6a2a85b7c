//! Personal income tax under a progressive bracket schedule.
//!
//! All amounts are exact integers, so no rounding ever happens inside the
//! library:
//!
//! * incomes, deductions, tax already paid and bracket bounds are whole cents;
//! * rates are whole parts per million;
//! * taxable income is carried in mills (tenths of a cent), which keeps the
//!   20% standard deduction exact;
//! * tax amounts are carried in tax units, one mill times one part per
//!   million, that is a billionth of the currency unit.
//!
//! Rounding a tax amount to cents is left to whoever presents it.

pub mod settlement;
pub mod tax_calculator;
pub mod tax_data;
pub mod tax_lemmas;
