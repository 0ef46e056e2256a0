//! The predicate engine: a boolean expression tree over configuration
//! directives, validated against the fixed dimension vocabulary when it is
//! built and evaluated, read-only, against a populated store.

use vstd::prelude::*;

use crate::store::{env_cfg, key_holds, key_of, CfgError, CfgKey, CfgStore, EnvCfg, EnvCfgView};
use crate::text::str_eq;

verus! {

/// A predicate leaf: one dimension tested against one literal.
#[derive(Debug, Clone, Copy)]
pub struct CfgDirective(pub CfgKey, pub &'static str);

/// A predicate tree: directives combined with `all`, `any` and `not`.
#[derive(Debug)]
pub enum CfgPredicate {
    Any(Vec<CfgPredicate>),
    All(Vec<CfgPredicate>),
    Not(Box<CfgPredicate>),
    Directive(CfgDirective),
}

/// The value of a predicate against the record `v`: an `Any` is true iff
/// some child is, an `All` iff every child is, a `Not` inverts its child,
/// and a directive tests its dimension against its literal.
pub open spec fn eval_pred(p: CfgPredicate, v: EnvCfgView) -> bool
    decreases p,
{
    match p {
        CfgPredicate::Any(cs) => exists|i: int| 0 <= i < cs@.len() && eval_pred(#[trigger] cs@[i], v),
        CfgPredicate::All(cs) => forall|i: int| 0 <= i < cs@.len() ==> eval_pred(#[trigger] cs@[i], v),
        CfgPredicate::Not(c) => !eval_pred(*c, v),
        CfgPredicate::Directive(d) => key_holds(v, d.0, d.1@),
    }
}

impl CfgDirective {
    /// Builds a directive from a dimension name and a literal; a name
    /// outside the fixed vocabulary is rejected, never treated as false.
    pub fn new(name: &str, value: &'static str) -> (r: Result<CfgDirective, CfgError>)
        ensures
            match r {
                Ok(d) => key_of(name@) == Some(d.0) && d.1@ == value@,
                Err(e) => e matches CfgError::UnknownDirective(n) && n@ == name@ && key_of(name@)
                    is None,
            },
    {
        match CfgKey::from_str(name) {
            Some(k) => Ok(CfgDirective(k, value)),
            None => Err(CfgError::UnknownDirective(name.to_owned())),
        }
    }
}

/// The three family shortcut names, each standing for a directive against
/// the platform-family dimension.
pub open spec fn is_family_name(s: Seq<char>) -> bool {
    s == "unix"@ || s == "windows"@ || s == "wasm"@
}

impl CfgPredicate {
    /// Builds the directive leaf named by a dimension and a literal.
    pub fn directive(name: &str, value: &'static str) -> (r: Result<CfgPredicate, CfgError>)
        ensures
            match r {
                Ok(p) => p matches CfgPredicate::Directive(d) && key_of(name@) == Some(d.0)
                    && d.1@ == value@,
                Err(e) => e matches CfgError::UnknownDirective(n) && n@ == name@ && key_of(name@)
                    is None,
            },
    {
        match CfgDirective::new(name, value) {
            Ok(d) => Ok(CfgPredicate::Directive(d)),
            Err(e) => Err(e),
        }
    }

    /// Expands one of the three family shortcut names into a directive
    /// against the platform-family dimension; any other name is rejected.
    pub fn family_shortcut(name: &'static str) -> (r: Result<CfgPredicate, CfgError>)
        ensures
            match r {
                Ok(p) => p matches CfgPredicate::Directive(d) && d.0 == CfgKey::TargetFamily
                    && d.1@ == name@ && is_family_name(name@),
                Err(e) => e matches CfgError::UnknownDirective(n) && n@ == name@
                    && !is_family_name(name@),
            },
    {
        if str_eq(name, "unix") || str_eq(name, "windows") || str_eq(name, "wasm") {
            Ok(CfgPredicate::Directive(CfgDirective(CfgKey::TargetFamily, name)))
        } else {
            Err(CfgError::UnknownDirective(name.to_owned()))
        }
    }

    #[verifier::loop_isolation(false)]
    fn eval(&self, cfg: &EnvCfg) -> (b: bool)
        ensures
            b == eval_pred(*self, cfg@),
        decreases *self,
    {
        match self {
            CfgPredicate::Any(cs) => {
                let n = cs.len();
                let mut i: usize = 0;
                while i < n
                    invariant
                        n == cs@.len(),
                        i <= n,
                        forall|j: int| 0 <= j < i ==> !eval_pred(#[trigger] cs@[j], cfg@),
                    decreases n - i,
                {
                    proof {
                        assert(decreases_to!(*self => self->Any_0@[i as int]));
                        assert(self->Any_0@ == cs@);
                    }
                    if cs[i].eval(cfg) {
                        return true;
                    }
                    i += 1;
                }
                false
            },
            CfgPredicate::All(cs) => {
                let n = cs.len();
                let mut i: usize = 0;
                while i < n
                    invariant
                        n == cs@.len(),
                        i <= n,
                        forall|j: int| 0 <= j < i ==> eval_pred(#[trigger] cs@[j], cfg@),
                    decreases n - i,
                {
                    proof {
                        assert(decreases_to!(*self => self->All_0@[i as int]));
                        assert(self->All_0@ == cs@);
                    }
                    if !cs[i].eval(cfg) {
                        return false;
                    }
                    i += 1;
                }
                true
            },
            CfgPredicate::Not(c) => !c.eval(cfg),
            CfgPredicate::Directive(d) => cfg.test_key(d.0, d.1),
        }
    }

    /// Evaluates the predicate against a store, or fails with
    /// `StoreNotInitialized` before any population has succeeded.
    pub fn test(&self, store: &CfgStore) -> (r: Result<bool, CfgError>)
        ensures
            match r {
                Ok(b) => store.is_populated() && b == eval_pred(*self, store.snapshot()),
                Err(e) => !store.is_populated() && e == CfgError::StoreNotInitialized,
            },
    {
        match env_cfg(store) {
            Ok(cfg) => Ok(self.eval(cfg)),
            Err(e) => Err(e),
        }
    }
}

/// An `All` with no children evaluates true, and an `Any` with no children
/// evaluates false, against every record.
pub proof fn lemma_empty_connectives(p: CfgPredicate, q: CfgPredicate, v: EnvCfgView)
    ensures
        (p matches CfgPredicate::All(cs) && cs@.len() == 0) ==> eval_pred(p, v),
        (q matches CfgPredicate::Any(cs) && cs@.len() == 0) ==> !eval_pred(q, v),
{
}

/// Whether `d` is the negation of `c`.
pub open spec fn is_negation_of(d: CfgPredicate, c: CfgPredicate) -> bool {
    d matches CfgPredicate::Not(e) && *e == c
}

/// A doubly negated predicate evaluates as the inner predicate itself,
/// against every record.
pub proof fn lemma_double_negation(q: CfgPredicate, p: CfgPredicate, inner: CfgPredicate, v: EnvCfgView)
    requires
        is_negation_of(q, p),
        is_negation_of(p, inner),
    ensures
        eval_pred(q, v) == eval_pred(inner, v),
{
    match q {
        CfgPredicate::Not(e1) => {
            assert(eval_pred(q, v) == !eval_pred(*e1, v));
            assert(*e1 == p);
            match p {
                CfgPredicate::Not(e2) => {
                    assert(eval_pred(p, v) == !eval_pred(*e2, v));
                    assert(*e2 == inner);
                },
                _ => {},
            }
        },
        _ => {},
    }
}

/// De Morgan: the negation of an `All` evaluates as the `Any` of the
/// negated children, against every record.
pub proof fn lemma_de_morgan(a: CfgPredicate, b: CfgPredicate, v: EnvCfgView)
    requires
        ({
            &&& a matches CfgPredicate::Not(na)
            &&& *na matches CfgPredicate::All(cs)
            &&& b matches CfgPredicate::Any(ds)
            &&& ds@.len() == cs@.len()
            &&& forall|i: int| 0 <= i < ds@.len() ==> is_negation_of(#[trigger] ds@[i], cs@[i])
        }),
    ensures
        eval_pred(a, v) == eval_pred(b, v),
{
    match a {
        CfgPredicate::Not(na2) => {
            match *na2 {
                CfgPredicate::All(cs2) => {
                    match b {
                        CfgPredicate::Any(ds2) => {
                            assert forall|i: int| 0 <= i < ds2@.len() implies eval_pred(
                                #[trigger] ds2@[i],
                                v,
                            ) == !eval_pred(cs2@[i], v) by {
                                assert(is_negation_of(ds2@[i], cs2@[i]));
                            }
                            assert(eval_pred(a, v) == !eval_pred(*na2, v));
                            if eval_pred(a, v) {
                                assert(!(forall|i: int|
                                    0 <= i < cs2@.len() ==> eval_pred(#[trigger] cs2@[i], v)));
                                let i = choose|i: int|
                                    0 <= i < cs2@.len() && !eval_pred(#[trigger] cs2@[i], v);
                                assert(eval_pred(ds2@[i], v));
                                assert(eval_pred(b, v));
                            }
                            if eval_pred(b, v) {
                                let i = choose|i: int|
                                    0 <= i < ds2@.len() && eval_pred(#[trigger] ds2@[i], v);
                                assert(!eval_pred(cs2@[i], v));
                                assert(!eval_pred(*na2, v));
                                assert(eval_pred(a, v));
                            }
                        },
                        _ => {},
                    }
                },
                _ => {},
            }
        },
        _ => {},
    }
}

} // verus!
