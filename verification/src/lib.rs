//! Clause-level contract screening: a document is cut into clauses, each
//! clause is judged by one of three tiers (an external model, keyword rules
//! combined with a nearest-neighbour lookup, or the lookup alone), and the
//! verdicts are reduced to a summary report.

pub mod assistant;
pub mod corpus;
pub mod external;
pub mod orchestrator;
pub mod report;
pub mod rules;
pub mod segment;
pub mod similarity;
pub mod text;
pub mod tiers;
pub mod verdict;
