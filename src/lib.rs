//! An authorization-gated payroll ledger: one owner registers employees with
//! fixed salaries, anyone funds the budget, and the owner disburses salaries
//! or withdraws against it.
//!
//! The ledger is a plain state object. The host supplies the caller's
//! identity and the value attached to a deposit, carries out the transfers
//! that the ledger asks for, and reports back whether each one went through.
pub mod account;
pub mod ledger;
pub mod laws;

pub use account::AccountId;
pub use ledger::{EmployeeAdded, Payment, Payroll, PayrollError, SalaryPaid};
