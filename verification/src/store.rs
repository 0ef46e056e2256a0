//! The configuration store: the fixed vocabulary of dimensions, the record
//! holding one slot per dimension, and the populate step that routes raw
//! key/value pairs from a build environment into those slots.

use vstd::prelude::*;

use crate::slots::{CfgScalar, CfgSet, CfgTest};
use crate::text::{comma_split, has_prefix, lower, str_eq, to_lower};

verus! {

/// The errors of this library.  All of them are fatal to a build: a silent
/// wrong answer would be worse than a hard stop.
#[derive(Debug, PartialEq, Eq)]
pub enum CfgError {
    /// Population found no recognizable dimension among the supplied pairs.
    UninitializedEnvironment,
    /// An evaluation or lookup was attempted before any population.
    StoreNotInitialized,
    /// A predicate references a dimension name outside the fixed vocabulary.
    UnknownDirective(String),
}

/// One of the fixed configuration dimensions.
#[derive(Debug, Clone, Copy, PartialEq, Eq, Structural)]
pub enum CfgKey {
    TargetOs,
    TargetArch,
    TargetEndian,
    TargetPointerWidth,
    TargetFamily,
    TargetEnv,
    TargetVendor,
    TargetHasAtomic,
    TargetFeature,
}

/// The dimension named `s`, if `s` is in the fixed vocabulary.
pub open spec fn key_of(s: Seq<char>) -> Option<CfgKey> {
    if s == "target_os"@ {
        Some(CfgKey::TargetOs)
    } else if s == "target_arch"@ {
        Some(CfgKey::TargetArch)
    } else if s == "target_endian"@ {
        Some(CfgKey::TargetEndian)
    } else if s == "target_pointer_width"@ {
        Some(CfgKey::TargetPointerWidth)
    } else if s == "target_family"@ {
        Some(CfgKey::TargetFamily)
    } else if s == "target_env"@ {
        Some(CfgKey::TargetEnv)
    } else if s == "target_vendor"@ {
        Some(CfgKey::TargetVendor)
    } else if s == "target_has_atomic"@ {
        Some(CfgKey::TargetHasAtomic)
    } else if s == "target_feature"@ {
        Some(CfgKey::TargetFeature)
    } else {
        None
    }
}

impl CfgKey {
    /// Parses a dimension name; an unknown name yields `None`.
    pub fn from_str(s: &str) -> (r: Option<CfgKey>)
        ensures
            r == key_of(s@),
    {
        if str_eq(s, "target_os") {
            Some(CfgKey::TargetOs)
        } else if str_eq(s, "target_arch") {
            Some(CfgKey::TargetArch)
        } else if str_eq(s, "target_endian") {
            Some(CfgKey::TargetEndian)
        } else if str_eq(s, "target_pointer_width") {
            Some(CfgKey::TargetPointerWidth)
        } else if str_eq(s, "target_family") {
            Some(CfgKey::TargetFamily)
        } else if str_eq(s, "target_env") {
            Some(CfgKey::TargetEnv)
        } else if str_eq(s, "target_vendor") {
            Some(CfgKey::TargetVendor)
        } else if str_eq(s, "target_has_atomic") {
            Some(CfgKey::TargetHasAtomic)
        } else if str_eq(s, "target_feature") {
            Some(CfgKey::TargetFeature)
        } else {
            None
        }
    }
}

/// The mathematical value of an `EnvCfg`: each scalar dimension as a
/// character sequence, each optional one as `Option`, each set one as a set.
#[verifier::ext_equal]
pub ghost struct EnvCfgView {
    pub target_os: Seq<char>,
    pub target_arch: Seq<char>,
    pub target_endian: Seq<char>,
    pub target_pointer_width: Seq<char>,
    pub target_family: Option<Seq<char>>,
    pub target_env: Seq<char>,
    pub target_vendor: Option<Seq<char>>,
    pub target_has_atomic: Set<Seq<char>>,
    pub target_feature: Set<Seq<char>>,
    pub feature: Set<Seq<char>>,
}

/// The value of a configuration record before anything has been routed into
/// it: empty scalars, absent optionals, empty sets.
pub open spec fn init_view() -> EnvCfgView {
    EnvCfgView {
        target_os: Seq::empty(),
        target_arch: Seq::empty(),
        target_endian: Seq::empty(),
        target_pointer_width: Seq::empty(),
        target_family: None,
        target_env: Seq::empty(),
        target_vendor: None,
        target_has_atomic: Set::empty(),
        target_feature: Set::empty(),
        feature: Set::empty(),
    }
}

/// The record of one build target's configuration: one slot per dimension,
/// and the open-ended set of enabled feature flags.
pub struct EnvCfg {
    pub target_os: CfgScalar,
    pub target_arch: CfgScalar,
    pub target_endian: CfgScalar,
    pub target_pointer_width: CfgScalar,
    pub target_family: Option<CfgScalar>,
    pub target_env: CfgScalar,
    pub target_vendor: Option<CfgScalar>,
    pub target_has_atomic: CfgSet,
    pub target_feature: CfgSet,
    pub feature: CfgSet,
}

/// The value of an optional scalar slot, if present.
pub open spec fn opt_view(s: Option<CfgScalar>) -> Option<Seq<char>> {
    match s {
        Some(v) => Some(v@),
        None => None,
    }
}

impl View for EnvCfg {
    type V = EnvCfgView;

    open spec fn view(&self) -> EnvCfgView {
        EnvCfgView {
            target_os: self.target_os@,
            target_arch: self.target_arch@,
            target_endian: self.target_endian@,
            target_pointer_width: self.target_pointer_width@,
            target_family: opt_view(self.target_family),
            target_env: self.target_env@,
            target_vendor: opt_view(self.target_vendor),
            target_has_atomic: self.target_has_atomic@,
            target_feature: self.target_feature@,
            feature: self.feature@,
        }
    }
}

/// The record after the raw value `val` has been routed into dimension `k`:
/// a scalar slot is overwritten, a set slot takes every comma-delimited
/// element of `val`.
pub open spec fn put_key_view(v: EnvCfgView, k: CfgKey, val: Seq<char>) -> EnvCfgView {
    match k {
        CfgKey::TargetOs => EnvCfgView { target_os: val, ..v },
        CfgKey::TargetArch => EnvCfgView { target_arch: val, ..v },
        CfgKey::TargetEndian => EnvCfgView { target_endian: val, ..v },
        CfgKey::TargetPointerWidth => EnvCfgView { target_pointer_width: val, ..v },
        CfgKey::TargetFamily => EnvCfgView { target_family: Some(val), ..v },
        CfgKey::TargetEnv => EnvCfgView { target_env: val, ..v },
        CfgKey::TargetVendor => EnvCfgView { target_vendor: Some(val), ..v },
        CfgKey::TargetHasAtomic => EnvCfgView {
            target_has_atomic: v.target_has_atomic + comma_split(val).to_set(),
            ..v
        },
        CfgKey::TargetFeature => EnvCfgView {
            target_feature: v.target_feature + comma_split(val).to_set(),
            ..v
        },
    }
}

/// Whether dimension `k` of the record `v` holds the value `q`: equality for
/// a scalar, membership for a set, and false for an absent optional scalar.
pub open spec fn key_holds(v: EnvCfgView, k: CfgKey, q: Seq<char>) -> bool {
    match k {
        CfgKey::TargetOs => v.target_os == q,
        CfgKey::TargetArch => v.target_arch == q,
        CfgKey::TargetEndian => v.target_endian == q,
        CfgKey::TargetPointerWidth => v.target_pointer_width == q,
        CfgKey::TargetFamily => v.target_family == Some(q),
        CfgKey::TargetEnv => v.target_env == q,
        CfgKey::TargetVendor => v.target_vendor == Some(q),
        CfgKey::TargetHasAtomic => v.target_has_atomic.contains(q),
        CfgKey::TargetFeature => v.target_feature.contains(q),
    }
}

impl EnvCfg {
    /// Routes one raw value into the slot of dimension `key`.
    pub fn put_key(&mut self, key: CfgKey, val: String)
        ensures
            final(self)@ == put_key_view(old(self)@, key, val@),
    {
        match key {
            CfgKey::TargetOs => self.target_os.put(val),
            CfgKey::TargetArch => self.target_arch.put(val),
            CfgKey::TargetEndian => self.target_endian.put(val),
            CfgKey::TargetPointerWidth => self.target_pointer_width.put(val),
            CfgKey::TargetFamily => self.target_family.put(val),
            CfgKey::TargetEnv => self.target_env.put(val),
            CfgKey::TargetVendor => self.target_vendor.put(val),
            CfgKey::TargetHasAtomic => self.target_has_atomic.put(val),
            CfgKey::TargetFeature => self.target_feature.put(val),
        }
        proof {
            assert(final(self)@ =~= put_key_view(old(self)@, key, val@));
        }
    }

    /// Tests dimension `key` against a literal, byte for byte.
    pub fn test_key(&self, key: CfgKey, val: &str) -> (r: bool)
        ensures
            r == key_holds(self@, key, val@),
    {
        match key {
            CfgKey::TargetOs => self.target_os.test(val),
            CfgKey::TargetArch => self.target_arch.test(val),
            CfgKey::TargetEndian => self.target_endian.test(val),
            CfgKey::TargetPointerWidth => self.target_pointer_width.test(val),
            CfgKey::TargetFamily => self.target_family.test(val),
            CfgKey::TargetEnv => self.target_env.test(val),
            CfgKey::TargetVendor => self.target_vendor.test(val),
            CfgKey::TargetHasAtomic => self.target_has_atomic.test(val),
            CfgKey::TargetFeature => self.target_feature.test(val),
        }
    }
}

impl Default for EnvCfg {
    fn default() -> (r: Self)
        ensures
            r@ == init_view(),
    {
        let r = EnvCfg {
            target_os: CfgScalar::default(),
            target_arch: CfgScalar::default(),
            target_endian: CfgScalar::default(),
            target_pointer_width: CfgScalar::default(),
            target_family: None,
            target_env: CfgScalar::default(),
            target_vendor: None,
            target_has_atomic: CfgSet::default(),
            target_feature: CfgSet::default(),
            feature: CfgSet::default(),
        };
        proof {
            assert(r@ =~= init_view());
        }
        r
    }
}

/// The record and the found-anything flag after one raw pair has been
/// processed: a pair with an empty value is ignored; a key carrying the
/// configuration prefix is routed by its dimension name; a key carrying the
/// feature prefix puts its name into the feature set; prefix and name are
/// matched case-insensitively, the value is kept as it came.
pub open spec fn route_pair(v: EnvCfgView, key: Seq<char>, val: Seq<char>) -> (EnvCfgView, bool) {
    if val.len() == 0 {
        (v, false)
    } else {
        let lk = lower(key);
        if "cargo_cfg_"@.is_prefix_of(lk) {
            match key_of(lk.skip("cargo_cfg_"@.len() as int)) {
                Some(k) => (put_key_view(v, k, val), true),
                None => (v, false),
            }
        } else if "cargo_feature_"@.is_prefix_of(lk) {
            (
                EnvCfgView { feature: v.feature.insert(lk.skip("cargo_feature_"@.len() as int)), ..v },
                true,
            )
        } else {
            (v, false)
        }
    }
}

/// The record and the found-anything flag after all of `pairs` have been
/// processed in order, starting from the initial record.
pub open spec fn populate_model(pairs: Seq<(Seq<char>, Seq<char>)>) -> (EnvCfgView, bool)
    decreases pairs.len(),
{
    if pairs.len() == 0 {
        (init_view(), false)
    } else {
        let prev = populate_model(pairs.drop_last());
        let step = route_pair(prev.0, pairs.last().0, pairs.last().1);
        (step.0, prev.1 || step.1)
    }
}

fn route_into(cfg: &mut EnvCfg, key: &str, val: &str) -> (found: bool)
    ensures
        final(cfg)@ == route_pair(old(cfg)@, key@, val@).0,
        found == route_pair(old(cfg)@, key@, val@).1,
{
    if val.unicode_len() == 0 {
        return false;
    }
    let lk = to_lower(key);
    let cfg_prefix = "cargo_cfg_";
    let feature_prefix = "cargo_feature_";
    if has_prefix(lk.as_str(), cfg_prefix) {
        let name = lk.as_str().substring_char(cfg_prefix.unicode_len(), lk.as_str().unicode_len());
        proof {
            assert(name@ =~= lower(key@).skip("cargo_cfg_"@.len() as int));
        }
        match CfgKey::from_str(name) {
            Some(k) => {
                cfg.put_key(k, val.to_owned());
                true
            },
            None => false,
        }
    } else if has_prefix(lk.as_str(), feature_prefix) {
        let fname = lk.as_str().substring_char(
            feature_prefix.unicode_len(),
            lk.as_str().unicode_len(),
        );
        proof {
            assert(fname@ =~= lower(key@).skip("cargo_feature_"@.len() as int));
        }
        cfg.feature.insert(fname.to_owned());
        proof {
            assert(final(cfg)@ =~= route_pair(old(cfg)@, key@, val@).0);
        }
        true
    } else {
        false
    }
}

/// The process-wide configuration snapshot: uninitialized until the first
/// successful population, then holding one record, replaced wholesale by any
/// later population.
pub struct CfgStore {
    cfg: Option<EnvCfg>,
}

impl CfgStore {
    /// Whether any population has succeeded on this store.
    pub closed spec fn is_populated(&self) -> bool {
        self.cfg is Some
    }

    /// The record the store holds; meaningful only when populated.
    pub closed spec fn snapshot(&self) -> EnvCfgView {
        match self.cfg {
            Some(c) => c@,
            None => init_view(),
        }
    }

    /// A store on which nothing has been populated yet.
    pub fn new() -> (r: CfgStore)
        ensures
            !r.is_populated(),
    {
        CfgStore { cfg: None }
    }

    /// Routes every raw pair into a fresh record and replaces the snapshot
    /// with it; prior state is discarded entirely.  If no pair was
    /// recognized, the store is left as it was and population fails.
    pub fn populate(&mut self, pairs: &Vec<(String, String)>) -> (r: Result<(), CfgError>)
        ensures
            ({
                let m = populate_model(pairs.deep_view());
                match r {
                    Ok(()) => m.1 && final(self).is_populated() && final(self).snapshot() == m.0,
                    Err(e) => !m.1 && e == CfgError::UninitializedEnvironment && *final(self)
                        == *old(self),
                }
            }),
    {
        let mut cfg = EnvCfg::default();
        let mut found = false;
        let n = pairs.len();
        let mut i: usize = 0;
        proof {
            assert(pairs.deep_view().take(0) =~= Seq::<(Seq<char>, Seq<char>)>::empty());
        }
        while i < n
            invariant
                n == pairs@.len(),
                i <= n,
                cfg@ == populate_model(pairs.deep_view().take(i as int)).0,
                found == populate_model(pairs.deep_view().take(i as int)).1,
            decreases n - i,
        {
            let pair = &pairs[i];
            let f = route_into(&mut cfg, pair.0.as_str(), pair.1.as_str());
            found = found || f;
            proof {
                let dv = pairs.deep_view();
                assert(dv.take(i + 1).drop_last() =~= dv.take(i as int));
                assert(dv.take(i + 1).last() == dv[i as int]);
            }
            i += 1;
        }
        proof {
            assert(pairs.deep_view().take(n as int) =~= pairs.deep_view());
        }
        if found {
            self.cfg = Some(cfg);
            Ok(())
        } else {
            Err(CfgError::UninitializedEnvironment)
        }
    }

    /// Forgets any populated state.  This is a test hook, not part of the
    /// production lifecycle: there is no way back to uninitialized otherwise.
    pub fn reset(&mut self)
        ensures
            !final(self).is_populated(),
    {
        self.cfg = None;
    }
}

/// Whether dimension `k` holds at most one value at a time.
pub open spec fn is_scalar_key(k: CfgKey) -> bool {
    match k {
        CfgKey::TargetHasAtomic => false,
        CfgKey::TargetFeature => false,
        _ => true,
    }
}

/// After a raw value lands in a scalar dimension, a test of that dimension
/// is true for exactly that value.
pub proof fn lemma_scalar_put_then_test(v: EnvCfgView, k: CfgKey, val: Seq<char>, q: Seq<char>)
    requires
        is_scalar_key(k),
    ensures
        key_holds(put_key_view(v, k, val), k, q) <==> q == val,
{
}

/// After a raw comma-delimited value lands in a set dimension, a test of
/// that dimension is true for exactly the prior members and the elements of
/// the value.
pub proof fn lemma_set_put_then_test(v: EnvCfgView, k: CfgKey, val: Seq<char>, q: Seq<char>)
    requires
        !is_scalar_key(k),
    ensures
        key_holds(put_key_view(v, k, val), k, q) <==> key_holds(v, k, q) || comma_split(
            val,
        ).contains(q),
{
}

/// Raw values with the same elements fill a set dimension identically:
/// duplicates collapse, and their order does not matter.
pub proof fn lemma_set_put_same_elements(
    v: EnvCfgView,
    k: CfgKey,
    val1: Seq<char>,
    val2: Seq<char>,
)
    requires
        !is_scalar_key(k),
        comma_split(val1).to_set() == comma_split(val2).to_set(),
    ensures
        put_key_view(v, k, val1) == put_key_view(v, k, val2),
{
    assert(put_key_view(v, k, val1) =~= put_key_view(v, k, val2));
}

/// The dimension a raw pair is routed into, if any.
pub open spec fn routed_key(key: Seq<char>, val: Seq<char>) -> Option<CfgKey> {
    if val.len() == 0 {
        None
    } else {
        let lk = lower(key);
        if "cargo_cfg_"@.is_prefix_of(lk) {
            key_of(lk.skip("cargo_cfg_"@.len() as int))
        } else {
            None
        }
    }
}

/// Population replaces state wholesale: a dimension that none of the pairs
/// routes into ends up exactly as an initial record has it, whatever any
/// earlier population had put there.
pub proof fn lemma_unrouted_dimension_reverts(
    pairs: Seq<(Seq<char>, Seq<char>)>,
    k: CfgKey,
    q: Seq<char>,
)
    requires
        forall|i: int|
            0 <= i < pairs.len() ==> routed_key((#[trigger] pairs[i]).0, pairs[i].1) != Some(k),
    ensures
        key_holds(populate_model(pairs).0, k, q) == key_holds(init_view(), k, q),
    decreases pairs.len(),
{
    if pairs.len() > 0 {
        lemma_unrouted_dimension_reverts(pairs.drop_last(), k, q);
        let prev = populate_model(pairs.drop_last()).0;
        let last = pairs[pairs.len() - 1];
        assert(routed_key(last.0, last.1) != Some(k));
        assert(key_holds(route_pair(prev, last.0, last.1).0, k, q) == key_holds(prev, k, q));
    }
}

/// The populated record of a store, or `StoreNotInitialized` before any
/// population has succeeded.
pub fn env_cfg(store: &CfgStore) -> (r: Result<&EnvCfg, CfgError>)
    ensures
        match r {
            Ok(cfg) => store.is_populated() && cfg@ == store.snapshot(),
            Err(e) => !store.is_populated() && e == CfgError::StoreNotInitialized,
        },
{
    match store.cfg.as_ref() {
        Some(c) => Ok(c),
        None => Err(CfgError::StoreNotInitialized),
    }
}

} // verus!
