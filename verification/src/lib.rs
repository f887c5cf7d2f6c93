use vstd::prelude::*;

pub mod expense_form;
pub mod forms;
pub mod friend_view;
pub mod friendship;
pub mod groups;
pub mod index_view;
pub mod laws;
pub mod ledger;
pub mod models;
pub mod money;
pub mod registration;
pub mod seqs;
pub mod settlement;
pub mod split;
pub mod store;
pub mod text;
