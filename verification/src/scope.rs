//! The per-run scope: a type-indexed store holding at most one live value per
//! [`TypeKey`].
//!
//! A scope may carry a read-only fallback layer taken from an outer scope:
//! local misses defer to the fallback value, while writes always land in the
//! local layer. The scope's view is the effective mapping, local entries
//! shadowing fallback entries.

use vstd::prelude::*;

use crate::value::key_of;
use crate::value::TypeKey;
use crate::value::Value;

verus! {

/// One layer of the store: a slot per value kind.
struct Slots {
    num: Option<i64>,
    flag: Option<bool>,
    text: Option<String>,
    opt_num: Option<Option<i64>>,
    opt_text: Option<Option<String>>,
    res_num: Option<Result<i64, String>>,
}

impl View for Slots {
    type V = Map<TypeKey, Value>;

    closed spec fn view(&self) -> Map<TypeKey, Value> {
        let m = Map::<TypeKey, Value>::empty();
        let m = match self.num {
            Some(n) => m.insert(TypeKey::I64, Value::I64(n)),
            None => m,
        };
        let m = match self.flag {
            Some(b) => m.insert(TypeKey::Bool, Value::Bool(b)),
            None => m,
        };
        let m = match self.text {
            Some(s) => m.insert(TypeKey::Str, Value::Str(s)),
            None => m,
        };
        let m = match self.opt_num {
            Some(o) => m.insert(TypeKey::OptI64, Value::OptI64(o)),
            None => m,
        };
        let m = match self.opt_text {
            Some(o) => m.insert(TypeKey::OptStr, Value::OptStr(o)),
            None => m,
        };
        let m = match self.res_num {
            Some(r) => m.insert(TypeKey::ResI64, Value::ResI64(r)),
            None => m,
        };
        m
    }
}

impl Slots {
    fn empty() -> (r: Slots)
        ensures
            r@ == Map::<TypeKey, Value>::empty(),
    {
        let r = Slots {
            num: None,
            flag: None,
            text: None,
            opt_num: None,
            opt_text: None,
            res_num: None,
        };
        proof {
            assert(r@ =~= Map::<TypeKey, Value>::empty());
        }
        r
    }

    fn get(&self, key: TypeKey) -> (r: Option<Value>)
        ensures
            match r {
                Some(v) => self@.contains_key(key) && v == self@[key],
                None => !self@.contains_key(key),
            },
    {
        match key {
            TypeKey::I64 => match self.num {
                Some(n) => Some(Value::I64(n)),
                None => None,
            },
            TypeKey::Bool => match self.flag {
                Some(b) => Some(Value::Bool(b)),
                None => None,
            },
            TypeKey::Str => match &self.text {
                Some(s) => Some(Value::Str(s.clone())),
                None => None,
            },
            TypeKey::OptI64 => match self.opt_num {
                Some(o) => Some(Value::OptI64(o)),
                None => None,
            },
            TypeKey::OptStr => match &self.opt_text {
                Some(o) => match o {
                    Some(s) => Some(Value::OptStr(Some(s.clone()))),
                    None => Some(Value::OptStr(None)),
                },
                None => None,
            },
            TypeKey::ResI64 => match &self.res_num {
                Some(r) => match r {
                    Ok(n) => Some(Value::ResI64(Ok(*n))),
                    Err(e) => Some(Value::ResI64(Err(e.clone()))),
                },
                None => None,
            },
        }
    }

    fn set(&mut self, v: Value)
        ensures
            final(self)@ == old(self)@.insert(key_of(v), v),
    {
        let ghost gv = v;
        match v {
            Value::I64(n) => {
                self.num = Some(n);
            },
            Value::Bool(b) => {
                self.flag = Some(b);
            },
            Value::Str(s) => {
                self.text = Some(s);
            },
            Value::OptI64(o) => {
                self.opt_num = Some(o);
            },
            Value::OptStr(o) => {
                self.opt_text = Some(o);
            },
            Value::ResI64(r) => {
                self.res_num = Some(r);
            },
        }
        proof {
            assert(self@ =~= old(self)@.insert(key_of(gv), gv));
        }
    }

    /// This layer laid over `under`: entries of `self` shadow those of `under`.
    #[verifier::rlimit(60)]
    fn overlay(&self, under: &Slots) -> (r: Slots)
        ensures
            r@ == under@.union_prefer_right(self@),
    {
        let r = Slots {
            num: match self.num {
                Some(n) => Some(n),
                None => under.num,
            },
            flag: match self.flag {
                Some(b) => Some(b),
                None => under.flag,
            },
            text: match (&self.text, &under.text) {
                (Some(s), _) => Some(s.clone()),
                (None, Some(s)) => Some(s.clone()),
                (None, None) => None,
            },
            opt_num: match self.opt_num {
                Some(o) => Some(o),
                None => under.opt_num,
            },
            opt_text: match (&self.opt_text, &under.opt_text) {
                (Some(Some(s)), _) => Some(Some(s.clone())),
                (Some(None), _) => Some(None),
                (None, Some(Some(s))) => Some(Some(s.clone())),
                (None, Some(None)) => Some(None),
                (None, None) => None,
            },
            res_num: match (&self.res_num, &under.res_num) {
                (Some(Ok(n)), _) => Some(Ok(*n)),
                (Some(Err(e)), _) => Some(Err(e.clone())),
                (None, Some(Ok(n))) => Some(Ok(*n)),
                (None, Some(Err(e))) => Some(Err(e.clone())),
                (None, None) => None,
            },
        };
        proof {
            assert(r@ =~= under@.union_prefer_right(self@));
        }
        r
    }
}

/// Every value in a scope sits under the key of its own kind. This holds of
/// the view of every executable scope: see [`lemma_scope_wf`].
pub open spec fn scope_wf(s: Map<TypeKey, Value>) -> bool {
    forall|k: TypeKey| s.contains_key(k) ==> key_of(#[trigger] s[k]) == k
}

/// The per-run store. Its view is the effective mapping from type key to the
/// current value of that kind, local writes shadowing the fallback layer.
pub struct Scope {
    local: Slots,
    fallback: Slots,
}

impl View for Scope {
    type V = Map<TypeKey, Value>;

    closed spec fn view(&self) -> Map<TypeKey, Value> {
        self.fallback@.union_prefer_right(self.local@)
    }
}

impl Scope {
    /// A fresh, empty scope with no fallback.
    pub fn new() -> (s: Scope)
        ensures
            s@ == Map::<TypeKey, Value>::empty(),
    {
        let s = Scope { local: Slots::empty(), fallback: Slots::empty() };
        proof {
            assert(s@ =~= Map::<TypeKey, Value>::empty());
        }
        s
    }

    /// A fresh scope chained to `outer`: local misses defer to the value the
    /// outer scope held at this moment, while writes stay local. Chaining is
    /// one level deep: the new scope sees the outer scope's own effective
    /// entries, not a further chain.
    pub fn with_fallback(outer: &Scope) -> (s: Scope)
        ensures
            s@ == outer@,
    {
        let s = Scope { local: Slots::empty(), fallback: outer.local.overlay(&outer.fallback) };
        proof {
            assert(s@ =~= outer@);
        }
        s
    }

    /// Stores `v` keyed by its own kind, overwriting any prior value of that
    /// kind. Writes are always local; a fallback entry is shadowed, never
    /// changed.
    pub fn set(&mut self, v: Value)
        ensures
            final(self)@ == old(self)@.insert(key_of(v), v),
    {
        let ghost k = key_of(v);
        let ghost gv = v;
        self.local.set(v);
        proof {
            assert(self@ =~= old(self)@.insert(k, gv));
        }
    }

    /// The current value stored under `key`, or `None` when the key is absent
    /// from both the local and the fallback layer.
    pub fn get(&self, key: TypeKey) -> (r: Option<Value>)
        ensures
            match r {
                Some(v) => self@.contains_key(key) && v == self@[key],
                None => !self@.contains_key(key),
            },
    {
        match self.local.get(key) {
            Some(v) => Some(v),
            None => self.fallback.get(key),
        }
    }

    /// The value stored under `key`, for callers that hold a proof of its
    /// presence.
    pub fn get_required(&self, key: TypeKey) -> (r: Value)
        requires
            self@.contains_key(key),
        ensures
            r == self@[key],
    {
        match self.get(key) {
            Some(v) => v,
            None => vstd::pervasive::unreached(),
        }
    }
}

/// The view of every scope is well-formed: each value sits under the key of
/// its own kind.
pub proof fn lemma_scope_wf(s: &Scope)
    ensures
        scope_wf(s@),
{
    assert forall|k: TypeKey| s@.contains_key(k) implies key_of(#[trigger] s@[k]) == k by {
        assert(s@.contains_key(k) ==> s.local@.contains_key(k) || s.fallback@.contains_key(k));
    }
}

} // verus!
