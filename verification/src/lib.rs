//! Build-time configuration predicates.
//!
//! A `CfgStore` holds one snapshot of the configuration dimensions of a build
//! target (operating system, architecture, pointer width, enabled CPU
//! features, ...), populated from the raw key/value pairs that a build script
//! environment supplies.  A `CfgPredicate` is a small boolean expression tree
//! over those dimensions (`all`/`any`/`not` over key = "value" directives)
//! that can be evaluated, read-only, against a populated store.

use vstd::prelude::*;

mod predicate;
mod slots;
mod store;
mod text;

pub use predicate::eval_pred;
pub use predicate::is_family_name;
pub use predicate::is_negation_of;
pub use predicate::lemma_de_morgan;
pub use predicate::lemma_double_negation;
pub use predicate::lemma_empty_connectives;
pub use predicate::CfgDirective;
pub use predicate::CfgPredicate;

pub use slots::CfgScalar;
pub use slots::CfgSet;
pub use slots::CfgTest;
pub use store::env_cfg;
pub use store::init_view;
pub use store::opt_view;
pub use store::is_scalar_key;
pub use store::key_holds;
pub use store::key_of;
pub use store::lemma_scalar_put_then_test;
pub use store::lemma_set_put_same_elements;
pub use store::lemma_set_put_then_test;
pub use store::lemma_unrouted_dimension_reverts;
pub use store::populate_model;
pub use store::put_key_view;
pub use store::route_pair;
pub use store::routed_key;
pub use store::CfgError;
pub use store::CfgKey;
pub use store::CfgStore;
pub use store::EnvCfg;
pub use store::EnvCfgView;
pub use text::comma_split;
pub use text::lower;
pub use text::lower_char;

verus! {

} // verus!
