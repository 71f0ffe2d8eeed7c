//! Registry and selector for configured remote environments.
use vstd::prelude::*;

use crate::agent_runtime::remote::{
    copy_opt_text, is_copy_of, origin_label_spec, RemoteEnvironmentConfig, RemoteEnvironmentError,
    SessionOrigin,
};
use crate::text::{chars_of, owned};

verus! {

/// Lexicographic order of names by character code points. Rust orders
/// strings by their UTF-8 bytes, and UTF-8 keeps code point order, so this
/// is the order `str::cmp` uses.
pub open spec fn name_lt(a: Seq<char>, b: Seq<char>) -> bool
    decreases a.len(),
{
    if a.len() == 0 {
        b.len() > 0
    } else if b.len() == 0 {
        false
    } else if (a[0] as int) < (b[0] as int) {
        true
    } else if a[0] == b[0] {
        name_lt(a.drop_first(), b.drop_first())
    } else {
        false
    }
}

/// No name is below itself.
pub proof fn lemma_name_lt_irreflexive(a: Seq<char>)
    ensures
        !name_lt(a, a),
    decreases a.len(),
{
    if a.len() > 0 {
        lemma_name_lt_irreflexive(a.drop_first());
    }
}

/// Law: names are ordered lexicographically by code point: a proper prefix
/// comes first, and otherwise the name with the smaller character at the
/// first place where the two differ.
pub proof fn lemma_name_lt_lexicographic(a: Seq<char>, b: Seq<char>, i: int)
    requires
        0 <= i <= a.len(),
        i <= b.len(),
        a.subrange(0, i) == b.subrange(0, i),
    ensures
        i == a.len() && i < b.len() ==> name_lt(a, b),
        i < a.len() && i < b.len() && (a[i] as int) < (b[i] as int) ==> name_lt(a, b),
    decreases i,
{
    if i > 0 {
        assert(a[0] == a.subrange(0, i)[0]);
        assert(b[0] == b.subrange(0, i)[0]);
        assert(a.drop_first().subrange(0, i - 1) =~= a.subrange(0, i).drop_first());
        assert(b.drop_first().subrange(0, i - 1) =~= b.subrange(0, i).drop_first());
        lemma_name_lt_lexicographic(a.drop_first(), b.drop_first(), i - 1);
    }
}

/// The order on names is transitive.
pub proof fn lemma_name_lt_transitive(a: Seq<char>, b: Seq<char>, c: Seq<char>)
    requires
        name_lt(a, b),
        name_lt(b, c),
    ensures
        name_lt(a, c),
    decreases a.len(),
{
    if a.len() > 0 && b.len() > 0 && c.len() > 0 && a[0] == b[0] && b[0] == c[0] {
        lemma_name_lt_transitive(a.drop_first(), b.drop_first(), c.drop_first());
    }
}

/// Any two different names are ordered one way or the other, and not both.
pub proof fn lemma_name_lt_total(a: Seq<char>, b: Seq<char>)
    ensures
        a != b ==> (name_lt(a, b) || name_lt(b, a)),
        !(name_lt(a, b) && name_lt(b, a)),
    decreases a.len(),
{
    if a.len() > 0 && b.len() > 0 && a[0] != b[0] {
        assert((a[0] as int) != (b[0] as int));
    }
    if a.len() > 0 && b.len() > 0 && a[0] == b[0] {
        lemma_name_lt_total(a.drop_first(), b.drop_first());
        if a != b {
            assert(a.drop_first() != b.drop_first()) by {
                if a.drop_first() == b.drop_first() {
                    assert(a =~= seq![a[0]] + a.drop_first());
                    assert(b =~= seq![b[0]] + b.drop_first());
                }
            }
        }
    } else if a.len() == 0 && b.len() == 0 {
        assert(a =~= b);
    }
}

/// How one name stands to another.
pub enum NameOrder {
    Less,
    Equal,
    Greater,
}

/// Compares two names by the order `name_lt`.
pub fn compare_names(a: &str, b: &str) -> (r: NameOrder)
    ensures
        (r is Less) == name_lt(a@, b@),
        (r is Equal) == (a@ == b@),
        (r is Greater) == name_lt(b@, a@),
{
    proof {
        lemma_name_lt_total(a@, b@);
        lemma_name_lt_irreflexive(a@);
    }
    let x = chars_of(a);
    let y = chars_of(b);
    let mut i: usize = 0;
    assert(x@.skip(0) =~= x@);
    assert(y@.skip(0) =~= y@);
    while i < x.len() && i < y.len() && x[i] == y[i]
        invariant
            x@ == a@,
            y@ == b@,
            i <= x.len(),
            i <= y.len(),
            x@.take(i as int) == y@.take(i as int),
            name_lt(a@, b@) == name_lt(x@.skip(i as int), y@.skip(i as int)),
            name_lt(b@, a@) == name_lt(y@.skip(i as int), x@.skip(i as int)),
        decreases x.len() - i,
    {
        assert(x@.skip(i as int).drop_first() =~= x@.skip(i + 1));
        assert(y@.skip(i as int).drop_first() =~= y@.skip(i + 1));
        assert(x@.take(i + 1) =~= x@.take(i as int).push(x@[i as int]));
        assert(y@.take(i + 1) =~= y@.take(i as int).push(y@[i as int]));
        i = i + 1;
    }
    if i == x.len() && i == y.len() {
        assert(x@ =~= x@.take(i as int));
        assert(y@ =~= y@.take(i as int));
        NameOrder::Equal
    } else if i == x.len() {
        assert(x@.skip(i as int).len() == 0);
        NameOrder::Less
    } else if i == y.len() {
        assert(y@.skip(i as int).len() == 0);
        NameOrder::Greater
    } else {
        let cx = x[i];
        let cy = y[i];
        assert(x@.skip(i as int)[0] == cx);
        assert(y@.skip(i as int)[0] == cy);
        assert(cx != cy);
        if cx < cy {
            NameOrder::Less
        } else {
            NameOrder::Greater
        }
    }
}

/// Entries sorted strictly by name, so that no name occurs twice.
pub open spec fn sorted_by_name(s: Seq<RemoteEnvironmentConfig>) -> bool {
    forall|i: int, j: int| 0 <= i < j < s.len() ==> name_lt(#[trigger] s[i].name@, #[trigger] s[j].name@)
}

/// Entry `i` of `s` carries the name `k`.
pub open spec fn named_at(s: Seq<RemoteEnvironmentConfig>, i: int, k: Seq<char>) -> bool {
    0 <= i < s.len() && s[i].name@ == k
}

/// The entry of `s` named `k`, if there is one.
pub open spec fn lookup(s: Seq<RemoteEnvironmentConfig>, k: Seq<char>) -> Option<
    RemoteEnvironmentConfig,
> {
    if exists|i: int| #[trigger] named_at(s, i, k) {
        Some(s[choose|i: int| #[trigger] named_at(s, i, k)])
    } else {
        None
    }
}

proof fn lemma_lookup_at(s: Seq<RemoteEnvironmentConfig>, i: int)
    requires
        sorted_by_name(s),
        0 <= i < s.len(),
    ensures
        lookup(s, s[i].name@) == Some(s[i]),
{
    let k = s[i].name@;
    assert(named_at(s, i, k));
    let j = choose|j: int| #[trigger] named_at(s, j, k);
    if j < i {
        assert(name_lt(s[j].name@, s[i].name@));
        lemma_name_lt_irreflexive(k);
    } else if i < j {
        assert(name_lt(s[i].name@, s[j].name@));
        lemma_name_lt_irreflexive(k);
    }
}

/// The environments of `s`, by name.
pub open spec fn env_map(s: Seq<RemoteEnvironmentConfig>) -> Map<Seq<char>, RemoteEnvironmentConfig> {
    Map::new(|k: Seq<char>| lookup(s, k) is Some, |k: Seq<char>| lookup(s, k)->0)
}

proof fn lemma_names_distinct(s: Seq<RemoteEnvironmentConfig>, i: int, j: int)
    requires
        sorted_by_name(s),
        0 <= i < s.len(),
        0 <= j < s.len(),
        i != j,
    ensures
        s[i].name@ != s[j].name@,
{
    lemma_name_lt_irreflexive(s[i].name@);
    if i < j {
        assert(name_lt(s[i].name@, s[j].name@));
    } else {
        assert(name_lt(s[j].name@, s[i].name@));
    }
}

proof fn lemma_lookup_none(s: Seq<RemoteEnvironmentConfig>, k: Seq<char>)
    requires
        forall|i: int| !#[trigger] named_at(s, i, k),
    ensures
        lookup(s, k) is None,
{
}

/// Two entry sequences that agree on every name but `k`, the second holding
/// `e` under `k`, map names as the first with `e` inserted under `k`.
proof fn lemma_env_map_insert(
    old_s: Seq<RemoteEnvironmentConfig>,
    s: Seq<RemoteEnvironmentConfig>,
    k: Seq<char>,
    e: RemoteEnvironmentConfig,
)
    requires
        lookup(s, k) == Some(e),
        forall|x: Seq<char>| x != k ==> #[trigger] lookup(s, x) == lookup(old_s, x),
    ensures
        env_map(s) == env_map(old_s).insert(k, e),
{
    assert(env_map(s) =~= env_map(old_s).insert(k, e));
}

/// Registry and selector for configured remote environments.
#[derive(PartialEq, Eq)]
pub struct RemoteEnvironmentRegistry {
    environments: Vec<RemoteEnvironmentConfig>,
    default_environment: Option<String>,
}

impl RemoteEnvironmentRegistry {
    /// The registry is well formed: its entries are sorted by name, each name once.
    pub closed spec fn wf(&self) -> bool {
        sorted_by_name(self.environments@)
    }

    /// The registered environments, by name.
    pub closed spec fn environments(&self) -> Map<Seq<char>, RemoteEnvironmentConfig> {
        env_map(self.environments@)
    }

    /// The name of the default environment, if one is set.
    pub closed spec fn default_name(&self) -> Option<Seq<char>> {
        match self.default_environment {
            Some(d) => Some(d@),
            None => None,
        }
    }

    /// An empty registry with no default environment.
    pub fn new() -> (r: Self)
        ensures
            r.wf(),
            r.environments() == Map::<Seq<char>, RemoteEnvironmentConfig>::empty(),
            r.default_name() is None,
    {
        let r = RemoteEnvironmentRegistry { environments: Vec::new(), default_environment: None };
        assert(r.environments() =~= Map::<Seq<char>, RemoteEnvironmentConfig>::empty());
        r
    }

    /// The registered environment with the given name.
    pub fn get(&self, name: &str) -> (r: Option<&RemoteEnvironmentConfig>)
        requires
            self.wf(),
        ensures
            (match r {
                Some(c) => self.environments().contains_key(name@) && *c == self.environments()[name@],
                None => !self.environments().contains_key(name@),
            }),
    {
        let mut i: usize = 0;
        while i < self.environments.len()
            invariant
                self.wf(),
                i <= self.environments.len(),
                forall|j: int| 0 <= j < i ==> !#[trigger] named_at(self.environments@, j, name@),
            decreases self.environments.len() - i,
        {
            match compare_names(self.environments[i].name.as_str(), name) {
                NameOrder::Equal => {
                    proof {
                        lemma_lookup_at(self.environments@, i as int);
                    }
                    return Some(&self.environments[i]);
                },
                _ => {},
            }
            i = i + 1;
        }
        proof {
            lemma_lookup_none(self.environments@, name@);
        }
        None
    }

    /// Registers an environment under its name, replacing any environment
    /// registered under the same name.
    pub fn register(&mut self, env: RemoteEnvironmentConfig)
        requires
            old(self).wf(),
        ensures
            final(self).wf(),
            final(self).environments() == old(self).environments().insert(env.name@, env),
            final(self).default_name() == old(self).default_name(),
    {
        let ghost old_s = self.environments@;
        let ghost k = env.name@;
        let ghost e = env;
        let len = self.environments.len();
        let mut i: usize = 0;
        while i < len
            invariant
                len == self.environments.len(),
                self.environments@ == old_s,
                old_s == old(self).environments@,
                self.default_environment == old(self).default_environment,
                sorted_by_name(old_s),
                k == env.name@,
                e == env,
                i <= len,
                forall|j: int| 0 <= j < i ==> name_lt(#[trigger] old_s[j].name@, k),
            decreases len - i,
        {
            match compare_names(self.environments[i].name.as_str(), env.name.as_str()) {
                NameOrder::Less => {},
                NameOrder::Equal => {
                    self.environments.set(i, env);
                    proof {
                        lemma_replaced(old_s, self.environments@, i as int, e);
                    }
                    return;
                },
                NameOrder::Greater => {
                    proof {
                        lemma_name_lt_total(k, old_s[i as int].name@);
                    }
                    self.environments.insert(i, env);
                    proof {
                        lemma_inserted(old_s, self.environments@, i as int, e);
                    }
                    return;
                },
            }
            i = i + 1;
        }
        self.environments.push(env);
        proof {
            assert(self.environments@ =~= old_s.insert(len as int, e));
            lemma_inserted(old_s, self.environments@, len as int, e);
        }
    }
}

impl RemoteEnvironmentRegistry {
    /// The registered environments, sorted by name.
    pub fn list(&self) -> (r: Vec<&RemoteEnvironmentConfig>)
        requires
            self.wf(),
        ensures
            forall|i: int, j: int|
                0 <= i < j < r.len() ==> name_lt(#[trigger] r[i].name@, #[trigger] r[j].name@),
            forall|i: int|
                0 <= i < r.len() ==> self.environments().contains_key(#[trigger] r[i].name@)
                    && self.environments()[r[i].name@] == *r[i],
            forall|k: Seq<char>|
                #[trigger] self.environments().contains_key(k) ==> exists|i: int|
                    0 <= i < r.len() && #[trigger] r[i].name@ == k,
    {
        let mut r: Vec<&RemoteEnvironmentConfig> = Vec::new();
        let mut i: usize = 0;
        while i < self.environments.len()
            invariant
                self.wf(),
                i <= self.environments.len(),
                r.len() == i,
                forall|j: int| 0 <= j < i ==> *#[trigger] r[j] == self.environments@[j],
            decreases self.environments.len() - i,
        {
            r.push(&self.environments[i]);
            i = i + 1;
        }
        proof {
            let s = self.environments@;
            assert forall|i: int, j: int| 0 <= i < j < r.len() implies name_lt(
                #[trigger] r[i].name@,
                #[trigger] r[j].name@,
            ) by {
                assert(*r[i] == s[i] && *r[j] == s[j]);
            }
            assert forall|i: int| 0 <= i < r.len() implies self.environments().contains_key(
                #[trigger] r[i].name@,
            ) && self.environments()[r[i].name@] == *r[i] by {
                assert(*r[i] == s[i]);
                lemma_lookup_at(s, i);
            }
            assert forall|k: Seq<char>| #[trigger] self.environments().contains_key(k) implies exists|
                i: int,
            | 0 <= i < r.len() && #[trigger] r[i].name@ == k by {
                let i = choose|i: int| #[trigger] named_at(s, i, k);
                assert(*r[i] == s[i]);
            }
        }
        r
    }

    /// The name of the default environment, if one is set.
    pub fn default_environment(&self) -> (r: Option<&String>)
        ensures
            (match r {
                Some(d) => self.default_name() == Some(d@),
                None => self.default_name() is None,
            }),
    {
        self.default_environment.as_ref()
    }

    /// Makes the named environment the default; an unknown name is refused
    /// and leaves the registry as it was.
    pub fn set_default(&mut self, name: &str) -> (r: Result<(), RemoteEnvironmentError>)
        requires
            old(self).wf(),
        ensures
            final(self).wf(),
            final(self).environments() == old(self).environments(),
            old(self).environments().contains_key(name@) ==> r is Ok && final(self).default_name()
                == Some(name@),
            !old(self).environments().contains_key(name@) ==> *final(self) == *old(self),
            !old(self).environments().contains_key(name@) ==> (r matches Err(
                RemoteEnvironmentError::EnvironmentNotFound(n),
            ) && n@ == name@),
    {
        if self.get(name).is_none() {
            return Err(RemoteEnvironmentError::EnvironmentNotFound(owned(name)));
        }
        self.default_environment = Some(owned(name));
        Ok(())
    }

    /// Sets the default environment to the given name, or clears it, without
    /// checking that such an environment is registered.
    pub fn set_default_unchecked(&mut self, name: Option<String>)
        requires
            old(self).wf(),
        ensures
            final(self).wf(),
            final(self).environments() == old(self).environments(),
            final(self).default_name() == (match name {
                Some(d) => Some(d@),
                None => None::<Seq<char>>,
            }),
    {
        self.default_environment = name;
    }

    /// Resolve an origin label given an optional target environment name:
    /// the named environment, else the default environment, else the local origin.
    pub fn resolve_origin_label(&self, target_env: Option<&str>) -> (r: Result<
        String,
        RemoteEnvironmentError,
    >)
        requires
            self.wf(),
        ensures
            (match resolve_outcome(
                self.environments(),
                self.default_name(),
                match target_env {
                    Some(t) => Some(t@),
                    None => None,
                },
            ) {
                Ok(label) => r matches Ok(s) && s@ == label,
                Err(missing) => r matches Err(RemoteEnvironmentError::EnvironmentNotFound(n))
                    && n@ == missing,
            }),
            (match target_env {
                Some(t) => if self.environments().contains_key(t@) {
                    r matches Ok(label) && label@ == "remote:"@ + t@
                } else {
                    r matches Err(RemoteEnvironmentError::EnvironmentNotFound(n)) && n@ == t@
                },
                None => true,
            }),
            target_env is None && self.default_name() is None ==> (r matches Ok(label) && label@
                == "local"@),
            (match (target_env, self.default_name()) {
                (None, Some(d)) => if self.environments().contains_key(d) {
                    r matches Ok(label) && label@ == "remote:"@ + d
                } else {
                    r matches Err(RemoteEnvironmentError::EnvironmentNotFound(n)) && n@ == d
                },
                _ => true,
            }),
    {
        match target_env {
            Some(name) => {
                match self.get(name) {
                    Some(env) => Ok(env.origin_label()),
                    None => Err(RemoteEnvironmentError::EnvironmentNotFound(owned(name))),
                }
            },
            None => match &self.default_environment {
                Some(def) => {
                    match self.get(def.as_str()) {
                        Some(env) => Ok(env.origin_label()),
                        None => Err(RemoteEnvironmentError::EnvironmentNotFound(def.clone())),
                    }
                },
                None => Ok(SessionOrigin::Local.origin_label()),
            },
        }
    }
}

impl Clone for RemoteEnvironmentRegistry {
    /// A copy of the registry: the same default, and under each name a copy
    /// of the registered environment.
    fn clone(&self) -> (r: Self)
        ensures
            r.default_name() == self.default_name(),
            self.wf() ==> r.wf(),
            self.wf() ==> r.environments().dom() == self.environments().dom(),
            self.wf() ==> forall|k: Seq<char>|
                #[trigger] self.environments().contains_key(k) ==> is_copy_of(
                    self.environments()[k],
                    r.environments()[k],
                ),
    {
        let r = RemoteEnvironmentRegistry {
            environments: self.environments.clone(),
            default_environment: copy_opt_text(&self.default_environment),
        };
        proof {
            let s = self.environments@;
            let t = r.environments@;
            assert(forall|i: int| 0 <= i < s.len() ==> is_copy_of(#[trigger] s[i], t[i]));
            if self.wf() {
                assert(sorted_by_name(t)) by {
                    assert forall|i: int, j: int| 0 <= i < j < t.len() implies name_lt(
                        #[trigger] t[i].name@,
                        #[trigger] t[j].name@,
                    ) by {
                        assert(is_copy_of(s[i], t[i]) && is_copy_of(s[j], t[j]));
                        assert(name_lt(s[i].name@, s[j].name@));
                    }
                }
                assert forall|k: Seq<char>| #[trigger] lookup(t, k) is Some == lookup(s, k) is Some
                    && (lookup(s, k) is Some ==> is_copy_of(lookup(s, k)->0, lookup(t, k)->0)) by {
                    if exists|i: int| #[trigger] named_at(s, i, k) {
                        let i = choose|i: int| #[trigger] named_at(s, i, k);
                        assert(is_copy_of(s[i], t[i]));
                        assert(named_at(t, i, k));
                        lemma_lookup_at(s, i);
                        lemma_lookup_at(t, i);
                    } else {
                        assert forall|j: int| !#[trigger] named_at(t, j, k) by {
                            if named_at(t, j, k) {
                                assert(is_copy_of(s[j], t[j]));
                                assert(named_at(s, j, k));
                            }
                        }
                        lemma_lookup_none(s, k);
                        lemma_lookup_none(t, k);
                    }
                }
                assert(r.environments().dom() =~= self.environments().dom());
            }
        }
        r
    }
}

impl Default for RemoteEnvironmentRegistry {
    /// An empty registry with no default environment.
    fn default() -> (r: Self)
        ensures
            r.wf(),
            r.environments() == Map::<Seq<char>, RemoteEnvironmentConfig>::empty(),
            r.default_name() is None,
    {
        RemoteEnvironmentRegistry::new()
    }
}

/// What resolving an origin label gives: the label, or the name of the
/// environment that is not registered.
pub open spec fn resolve_outcome(
    envs: Map<Seq<char>, RemoteEnvironmentConfig>,
    default: Option<Seq<char>>,
    target: Option<Seq<char>>,
) -> Result<Seq<char>, Seq<char>> {
    let wanted = match target {
        Some(t) => Some(t),
        None => default,
    };
    match wanted {
        Some(n) => if envs.contains_key(n) {
            Ok("remote:"@ + n)
        } else {
            Err(n)
        },
        None => Ok(origin_label_spec(SessionOrigin::Local)),
    }
}

/// Law: after registering an environment, looking its name up gives it.
pub proof fn lemma_get_after_register(
    envs: Map<Seq<char>, RemoteEnvironmentConfig>,
    env: RemoteEnvironmentConfig,
)
    ensures
        envs.insert(env.name@, env).contains_key(env.name@),
        envs.insert(env.name@, env)[env.name@] == env,
        forall|k: Seq<char>|
            k != env.name@ ==> (#[trigger] envs.insert(env.name@, env).contains_key(k)
                == envs.contains_key(k)),
{
}

/// Law: a registered environment resolves to its remote label, whether
/// named or set as the default.
pub proof fn lemma_registered_resolves(
    envs: Map<Seq<char>, RemoteEnvironmentConfig>,
    default: Option<Seq<char>>,
    name: Seq<char>,
)
    requires
        envs.contains_key(name),
    ensures
        resolve_outcome(envs, default, Some(name)) == Ok::<Seq<char>, Seq<char>>("remote:"@ + name),
        resolve_outcome(envs, Some(name), None) == Ok::<Seq<char>, Seq<char>>("remote:"@ + name),
{
}

/// Law: naming an environment that is not registered is refused with
/// `EnvironmentNotFound` for that name, whatever the default is.
pub proof fn lemma_unregistered_target_not_found(
    envs: Map<Seq<char>, RemoteEnvironmentConfig>,
    default: Option<Seq<char>>,
    target: Seq<char>,
)
    requires
        !envs.contains_key(target),
    ensures
        resolve_outcome(envs, default, Some(target)) == Err::<Seq<char>, Seq<char>>(target),
{
}

/// Law: with no target, a default that is not registered is refused with
/// `EnvironmentNotFound` for the default's name.
pub proof fn lemma_unregistered_default_not_found(
    envs: Map<Seq<char>, RemoteEnvironmentConfig>,
    default: Seq<char>,
)
    requires
        !envs.contains_key(default),
    ensures
        resolve_outcome(envs, Some(default), None) == Err::<Seq<char>, Seq<char>>(default),
{
}

/// Law: a resolved label is `local` only where neither a target nor a
/// default is given, and otherwise `remote:` followed by a registered name;
/// a refusal names the target, or the default where there is no target.
pub proof fn lemma_resolve_outcomes(
    envs: Map<Seq<char>, RemoteEnvironmentConfig>,
    default: Option<Seq<char>>,
    target: Option<Seq<char>>,
)
    ensures
        (match resolve_outcome(envs, default, target) {
            Ok(label) => (target is None && default is None && label == "local"@) || exists|
                n: Seq<char>,
            |
                #![trigger envs.contains_key(n)]
                envs.contains_key(n) && label == "remote:"@ + n && (target == Some(n) || (
                target is None && default == Some(n))),
            Err(missing) => !envs.contains_key(missing) && (target == Some(missing) || (
                target is None && default == Some(missing))),
        }),
{
}

/// Law: with no target and no default, the origin is local.
pub proof fn lemma_no_default_is_local(envs: Map<Seq<char>, RemoteEnvironmentConfig>)
    ensures
        resolve_outcome(envs, None, None) == Ok::<Seq<char>, Seq<char>>("local"@),
{
}

/// Law: registering never unregisters; a default that resolved before
/// still resolves after another registration.
pub proof fn lemma_register_keeps_default(
    envs: Map<Seq<char>, RemoteEnvironmentConfig>,
    default: Seq<char>,
    env: RemoteEnvironmentConfig,
)
    requires
        resolve_outcome(envs, Some(default), None) is Ok,
    ensures
        resolve_outcome(envs.insert(env.name@, env), Some(default), None) is Ok,
{
}

proof fn lemma_replaced(
    old_s: Seq<RemoteEnvironmentConfig>,
    s: Seq<RemoteEnvironmentConfig>,
    p: int,
    e: RemoteEnvironmentConfig,
)
    requires
        sorted_by_name(old_s),
        0 <= p < old_s.len(),
        old_s[p].name@ == e.name@,
        s == old_s.update(p, e),
    ensures
        sorted_by_name(s),
        env_map(s) == env_map(old_s).insert(e.name@, e),
{
    let k = e.name@;
    assert(sorted_by_name(s)) by {
        assert forall|i: int, j: int| 0 <= i < j < s.len() implies name_lt(
            #[trigger] s[i].name@,
            #[trigger] s[j].name@,
        ) by {
            assert(name_lt(old_s[i].name@, old_s[j].name@));
        }
    }
    lemma_lookup_at(s, p);
    assert forall|x: Seq<char>| x != k implies #[trigger] lookup(s, x) == lookup(old_s, x) by {
        if exists|i: int| #[trigger] named_at(old_s, i, x) {
            let i = choose|i: int| #[trigger] named_at(old_s, i, x);
            assert(i != p);
            assert(named_at(s, i, x));
            lemma_lookup_at(s, i);
            lemma_lookup_at(old_s, i);
        } else {
            assert forall|j: int| !#[trigger] named_at(s, j, x) by {
                if named_at(s, j, x) {
                    assert(j != p);
                    assert(named_at(old_s, j, x));
                }
            }
            lemma_lookup_none(s, x);
            lemma_lookup_none(old_s, x);
        }
    }
    lemma_env_map_insert(old_s, s, k, e);
}

proof fn lemma_inserted(
    old_s: Seq<RemoteEnvironmentConfig>,
    s: Seq<RemoteEnvironmentConfig>,
    p: int,
    e: RemoteEnvironmentConfig,
)
    requires
        sorted_by_name(old_s),
        0 <= p <= old_s.len(),
        forall|j: int| 0 <= j < p ==> name_lt(#[trigger] old_s[j].name@, e.name@),
        p < old_s.len() ==> name_lt(e.name@, old_s[p].name@),
        s == old_s.insert(p, e),
    ensures
        sorted_by_name(s),
        env_map(s) == env_map(old_s).insert(e.name@, e),
{
    let k = e.name@;
    assert forall|j: int| p <= j < old_s.len() implies name_lt(k, #[trigger] old_s[j].name@) by {
        if j > p {
            assert(name_lt(old_s[p].name@, old_s[j].name@));
            lemma_name_lt_transitive(k, old_s[p].name@, old_s[j].name@);
        }
    }
    assert(sorted_by_name(s)) by {
        assert forall|i: int, j: int| 0 <= i < j < s.len() implies name_lt(
            #[trigger] s[i].name@,
            #[trigger] s[j].name@,
        ) by {
            if j < p {
                assert(name_lt(old_s[i].name@, old_s[j].name@));
            } else if j == p {
            } else if i < p {
                assert(s[j] == old_s[j - 1]);
                assert(name_lt(k, old_s[j - 1].name@));
                lemma_name_lt_transitive(old_s[i].name@, k, old_s[j - 1].name@);
            } else if i == p {
                assert(s[j] == old_s[j - 1]);
            } else {
                assert(name_lt(old_s[i - 1].name@, old_s[j - 1].name@));
            }
        }
    }
    assert(s[p] == e);
    lemma_lookup_at(s, p);
    assert forall|x: Seq<char>| x != k implies #[trigger] lookup(s, x) == lookup(old_s, x) by {
        if exists|i: int| #[trigger] named_at(old_s, i, x) {
            let i = choose|i: int| #[trigger] named_at(old_s, i, x);
            lemma_lookup_at(old_s, i);
            if i < p {
                assert(named_at(s, i, x));
                lemma_lookup_at(s, i);
            } else {
                assert(s[i + 1] == old_s[i]);
                assert(named_at(s, i + 1, x));
                lemma_lookup_at(s, i + 1);
            }
        } else {
            assert forall|j: int| !#[trigger] named_at(s, j, x) by {
                if named_at(s, j, x) {
                    assert(j != p);
                    if j < p {
                        assert(named_at(old_s, j, x));
                    } else {
                        assert(named_at(old_s, j - 1, x));
                    }
                }
            }
            lemma_lookup_none(s, x);
            lemma_lookup_none(old_s, x);
        }
    }
    lemma_env_map_insert(old_s, s, k, e);
}

} // verus!
