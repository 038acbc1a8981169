//! A newsletter subscription service: the form body grammar, the rules that
//! decide what a submission does, the responses, and a model of the
//! subscriptions table.
pub mod form;
pub mod laws;
pub mod routes;
pub mod store;
pub mod subscription;
