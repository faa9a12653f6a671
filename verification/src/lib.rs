use vstd::prelude::*;

pub mod text;
pub mod crypt;
pub mod json;
pub mod prepare;
pub mod url;
pub mod upgrade;
pub mod voucher;
pub mod telegram;
pub mod telemetry;
pub mod login;
pub mod task_ng;
pub mod task;
pub mod launcher;
pub mod cli;
pub mod product;
pub mod video;

verus! {
} // verus!
