//! Verified core of a personal-finance backend: calendar and month
//! arithmetic, money amounts, ledger rules, pagination, reports and the
//! request checks that the HTTP layer relies on.
pub mod text;
pub mod error;
pub mod months;
pub mod calendar;
pub mod sql;
pub mod ledger;
pub mod codecs;
pub mod paging;
pub mod money;
pub mod reports;
pub mod bills;
pub mod cards;
pub mod accounts;
pub mod security;
pub mod photo;
pub mod catalog;
pub mod users;
pub mod transactions;
pub mod provisioning;
