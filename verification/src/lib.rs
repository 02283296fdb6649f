//! Ownership demonstrations for a simple value type.
//!
//! A `Person` (a name and an age) is handled under two ownership
//! disciplines: unique ownership, where transferring the value invalidates
//! the previous owner, and shared ownership, where a cell carries a live
//! count of outstanding handles and releases the value exactly when the
//! count reaches zero.  A small module classifies the outcome of reading a
//! single line of input.  All output is produced as `String` values with
//! exact contracts; the surrounding program does the actual printing.

pub mod decimal;
pub mod person;
pub mod shared;
pub mod input;
