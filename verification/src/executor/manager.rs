//! Routing of scripts to executors by file extension.

use vstd::prelude::*;
use std::sync::Arc;
use super::error::ExecutionError;
use super::traits::{Executor, str_views};
use super::types::{ExecuteRequest, ResourceLimits, ScriptInfo, same_limits};
use super::deno::DenoConfig;
use super::docker::DockerConfig;
use super::wasmtime::WasmtimeConfig;
use crate::config::ExecutionConfig;
use crate::ordered_map::OrderedMap;
use crate::sys::{extension_of, lowercase_of, parent_of, path_extension, path_parent, to_lowercase};
use crate::text::{concat, str_eq};

verus! {

/// A map keyed by lowercased extension after registering `v` for `exts`:
/// each extension, lowercased, now maps to `v`; the other keys keep their
/// values. The manager keeps two such maps, of executor names and of
/// executors.
pub open spec fn spec_register<T>(m: Map<Seq<char>, T>, v: T, exts: Seq<Seq<char>>) -> Map<Seq<char>, T>
    decreases exts.len(),
{
    if exts.len() == 0 {
        m
    } else {
        spec_register(m, v, exts.drop_last()).insert(lowercase_of(exts.last()), v)
    }
}

/// The executors that an execution section starts, in the order in which they
/// are registered (a later one takes over the extensions it shares with an
/// earlier one), and the manager's default limits.
pub struct ExecutorStartPlan {
    pub limits: ResourceLimits,
    /// Deno always starts: with its section, or with the defaults.
    pub deno: DenoConfig,
    /// Docker starts when it has a section.
    pub docker: Option<DockerConfig>,
    /// Wasmtime starts when it has a section that enables it.
    pub wasmtime: Option<WasmtimeConfig>,
}

/// Whether `d` is the Deno configuration used when none is given.
pub open spec fn is_default_deno_config(d: DenoConfig) -> bool {
    &&& d.deno_path@ == "deno"@
    &&& !d.allow_net
    &&& !d.allow_env
    &&& !d.allow_hrtime
    &&& !d.unstable
    &&& d.v8_flags@.len() == 0
    &&& d.cache
    &&& d.cache_dir is None
}

/// Which executors start for an execution section, and with what.
pub fn start_plan(config: ExecutionConfig) -> (r: ExecutorStartPlan)
    ensures
        r.limits == config.limits,
        config.deno matches Some(d) ==> r.deno == d,
        config.deno is None ==> is_default_deno_config(r.deno),
        r.docker == config.docker,
        r.wasmtime == (match config.wasmtime {
            Some(w) => if w.enabled { Some(w) } else { None },
            None => None,
        }),
{
    let deno = match config.deno {
        Some(d) => d,
        None => DenoConfig::default(),
    };
    let wasmtime = match config.wasmtime {
        Some(w) => if w.enabled { Some(w) } else { None },
        None => None,
    };
    ExecutorStartPlan { limits: config.limits, deno, docker: config.docker, wasmtime }
}

/// The extension→executor-name map of an extension→(name, executor) map.
pub open spec fn names_of<E>(m: Map<Seq<char>, (String, Arc<E>)>) -> Map<Seq<char>, Seq<char>> {
    m.map_values(|p: (String, Arc<E>)| p.0@)
}

/// The extension→executor map of an extension→(name, executor) map.
pub open spec fn handlers_of<E>(m: Map<Seq<char>, (String, Arc<E>)>) -> Map<Seq<char>, Arc<E>> {
    m.map_values(|p: (String, Arc<E>)| p.1)
}

/// Routes scripts to registered executors by lowercased file extension.
pub struct ScriptExecutorManager<E> {
    executors: OrderedMap<(String, Arc<E>)>,
    default_limits: ResourceLimits,
}

impl<E: Executor> ScriptExecutorManager<E> {
    /// Which executor (by name) handles each lowercased extension.
    pub closed spec fn routes(&self) -> Map<Seq<char>, Seq<char>> {
        names_of(self.executors@)
    }

    /// Which executor handles each lowercased extension.
    pub closed spec fn executors(&self) -> Map<Seq<char>, Arc<E>> {
        handlers_of(self.executors@)
    }

    /// The limits used when a run names none.
    pub closed spec fn spec_default_limits(&self) -> ResourceLimits {
        self.default_limits
    }

    /// A manager with no executor.
    pub fn new(default_limits: ResourceLimits) -> (r: Self)
        ensures
            r.routes() == Map::<Seq<char>, Seq<char>>::empty(),
            r.executors() == Map::<Seq<char>, Arc<E>>::empty(),
            r.spec_default_limits() == default_limits,
    {
        let r = ScriptExecutorManager { executors: OrderedMap::new(), default_limits };
        assert(r.routes() =~= Map::<Seq<char>, Seq<char>>::empty());
        assert(r.executors() =~= Map::<Seq<char>, Arc<E>>::empty());
        r
    }

    /// Routes each of `extensions`, lowercased, to `executor`, under `name`.
    /// An extension already routed goes to the new executor.
    pub fn register_named(&mut self, name: &str, extensions: &Vec<&str>, executor: Arc<E>)
        ensures
            final(self).routes() == spec_register(old(self).routes(), name@, str_views(extensions@)),
            final(self).executors() == spec_register(old(self).executors(), executor, str_views(extensions@)),
            final(self).spec_default_limits() == old(self).spec_default_limits(),
    {
        let ghost xs = str_views(extensions@);
        let mut i: usize = 0;
        while i < extensions.len()
            invariant
                i <= extensions@.len(),
                xs == str_views(extensions@),
                self.routes() == spec_register(old(self).routes(), name@, xs.take(i as int)),
                self.executors() == spec_register(old(self).executors(), executor, xs.take(i as int)),
                self.spec_default_limits() == old(self).spec_default_limits(),
            decreases extensions@.len() - i,
        {
            let key = to_lowercase(extensions[i]);
            let ghost before = self.routes();
            let ghost before_x = self.executors();
            let handle = executor.clone();
            assert(handle == executor);
            self.executors.insert(key, (String::from_str(name), handle));
            proof {
                assert(xs.take(i + 1).drop_last() =~= xs.take(i as int));
                assert(xs.take(i + 1).last() == extensions@[i as int]@);
                assert(self.routes() =~= before.insert(lowercase_of(extensions@[i as int]@), name@));
                assert(self.executors() =~= before_x.insert(lowercase_of(extensions@[i as int]@), executor));
            }
            i = i + 1;
        }
        assert(xs.take(extensions@.len() as int) =~= xs);
    }

    /// Registers `executor` for every extension it supports, under its name:
    /// each of its extensions, lowercased, then goes to it (a later
    /// registration takes over a shared extension), and the other extensions
    /// keep their executors. For an executor that does not state its name and
    /// extensions as text, the same holds of whatever they are.
    pub fn register(&mut self, executor: Arc<E>)
        ensures
            (*executor).obeys_executor_spec() ==> final(self).routes()
                == spec_register(old(self).routes(), (*executor).spec_name(), (*executor).spec_supported_extensions()),
            (*executor).obeys_executor_spec() ==> final(self).executors()
                == spec_register(old(self).executors(), executor, (*executor).spec_supported_extensions()),
            (*executor).obeys_executor_spec() ==> forall|i: int| 0 <= i < (*executor).spec_supported_extensions().len()
                ==> final(self).executors().contains_key(lowercase_of(#[trigger] (*executor).spec_supported_extensions()[i]))
                && final(self).executors()[lowercase_of((*executor).spec_supported_extensions()[i])] == executor,
            (*executor).obeys_executor_spec() ==> forall|k: Seq<char>|
                (forall|i: int| 0 <= i < (*executor).spec_supported_extensions().len()
                    ==> lowercase_of(#[trigger] (*executor).spec_supported_extensions()[i]) != k)
                ==> (#[trigger] final(self).executors().contains_key(k) == old(self).executors().contains_key(k)
                    && (old(self).executors().contains_key(k) ==> final(self).executors()[k] == old(self).executors()[k])),
            exists|n: Seq<char>, xs: Seq<Seq<char>>|
                final(self).routes() == spec_register(old(self).routes(), n, xs)
                && final(self).executors() == spec_register(old(self).executors(), executor, xs),
            final(self).spec_default_limits() == old(self).spec_default_limits(),
    {
        let ghost before = self.executors();
        let handle = executor.clone();
        assert(handle == executor);
        let name = String::from_str((*handle).name());
        let extensions = (*handle).supported_extensions();
        self.register_named(name.as_str(), &extensions, executor);
        proof {
            let xs = (*handle).spec_supported_extensions();
            if (*handle).obeys_executor_spec() {
                assert forall|i: int| 0 <= i < xs.len() implies self.executors().contains_key(lowercase_of(#[trigger] xs[i]))
                    && self.executors()[lowercase_of(xs[i])] == handle by {
                    crate::laws::law_registered_extensions_route_to_executor(before, handle, xs, lowercase_of(xs[i]));
                }
                assert forall|k: Seq<char>| (forall|i: int| 0 <= i < xs.len() ==> lowercase_of(#[trigger] xs[i]) != k)
                    implies (#[trigger] self.executors().contains_key(k) == before.contains_key(k)
                        && (before.contains_key(k) ==> self.executors()[k] == before[k])) by {
                    crate::laws::law_registered_extensions_route_to_executor(before, handle, xs, k);
                }
            }
        }
    }

    /// Removes the route of `extension` (any case), returning its executor.
    pub fn unregister(&mut self, extension: &str) -> (r: Option<Arc<E>>)
        ensures
            final(self).routes() == old(self).routes().remove(lowercase_of(extension@)),
            final(self).executors() == old(self).executors().remove(lowercase_of(extension@)),
            r is Some == old(self).routes().contains_key(lowercase_of(extension@)),
            r matches Some(x) ==> x == old(self).executors()[lowercase_of(extension@)],
            final(self).spec_default_limits() == old(self).spec_default_limits(),
    {
        let key = to_lowercase(extension);
        let removed = self.executors.remove(key.as_str());
        proof {
            assert(self.routes() =~= old(self).routes().remove(lowercase_of(extension@)));
            assert(self.executors() =~= old(self).executors().remove(lowercase_of(extension@)));
        }
        match removed {
            Some(p) => Some(p.1),
            None => None,
        }
    }

    /// The executor routed for `extension` (any case).
    pub fn get_executor(&self, extension: &str) -> (r: Option<&Arc<E>>)
        ensures
            r is Some == self.routes().contains_key(lowercase_of(extension@)),
            r is Some == self.executors().contains_key(lowercase_of(extension@)),
            r matches Some(x) ==> *x == self.executors()[lowercase_of(extension@)],
    {
        let key = to_lowercase(extension);
        match self.executors.get(key.as_str()) {
            Some(p) => Some(&p.1),
            None => None,
        }
    }

    /// The name of the executor routed for `extension` (any case).
    pub fn executor_name(&self, extension: &str) -> (r: Option<String>)
        ensures
            r matches Some(n) ==> self.routes().contains_key(lowercase_of(extension@))
                && self.routes()[lowercase_of(extension@)] == n@,
            r is None ==> !self.routes().contains_key(lowercase_of(extension@)),
    {
        let key = to_lowercase(extension);
        match self.executors.get(key.as_str()) {
            Some(p) => Some(p.0.clone()),
            None => None,
        }
    }

    /// Whether an executor is routed for `extension` (any case).
    pub fn supports(&self, extension: &str) -> (r: bool)
        ensures
            r == self.routes().contains_key(lowercase_of(extension@)),
    {
        let key = to_lowercase(extension);
        self.executors.contains_key(key.as_str())
    }

    /// The routed extensions, each once.
    pub fn supported_extensions(&self) -> (r: Vec<String>)
        ensures
            crate::text::views(r@).to_set() == self.routes().dom(),
            crate::text::views(r@).no_duplicates(),
    {
        let r = self.executors.keys();
        assert(self.routes().dom() =~= self.executors@.dom());
        r
    }

    /// How many distinct executors (by name) are routed.
    pub fn executor_count(&self) -> (r: usize)
        ensures
            r == self.routes().values().len(),
    {
        let ks = self.executors.keys();
        let ghost keys = self.executors.spec_keys();
        let ghost routes = self.routes();
        let mut seen: Vec<String> = Vec::new();
        let mut i: usize = 0;
        while i < ks.len()
            invariant
                i <= ks@.len(),
                crate::text::views(ks@) == keys,
                keys == self.executors.spec_keys(),
                keys.to_set() == self.executors@.dom(),
                keys.no_duplicates(),
                keys.len() == ks@.len(),
                routes == self.routes(),
                crate::text::views(seen@).no_duplicates(),
                crate::text::views(seen@).to_set() == Set::new(|n: Seq<char>| exists|j: int| 0 <= j < i && routes[keys[j]] == n),
            decreases ks@.len() - i,
        {
            let (k, v) = self.executors.entry_at(i);
            let name = &v.0;
            let ghost before = crate::text::views(seen@);
            proof {
                assert(keys[i as int] == k@);
                assert(routes.contains_key(k@));
                assert(routes[k@] == name@);
            }
            let mut found = false;
            let mut j: usize = 0;
            while j < seen.len()
                invariant
                    j <= seen@.len(),
                    found == exists|t: int| 0 <= t < j && seen@[t]@ == name@,
                decreases seen@.len() - j,
            {
                if str_eq(seen[j].as_str(), name.as_str()) {
                    found = true;
                }
                j = j + 1;
            }
            if !found {
                seen.push(name.clone());
                proof {
                    assert(crate::text::views(seen@) =~= before.push(name@));
                    assert forall|a: int, b: int| 0 <= a < b < crate::text::views(seen@).len() implies crate::text::views(seen@)[a] != crate::text::views(seen@)[b] by {
                        if b == before.len() {
                            assert(crate::text::views(seen@)[a] == seen@[a]@);
                        }
                    }
                }
            }
            proof {
                let s_new = Set::new(|n: Seq<char>| exists|t: int| 0 <= t < i + 1 && routes[keys[t]] == n);
                let s_old = Set::new(|n: Seq<char>| exists|t: int| 0 <= t < i && routes[keys[t]] == n);
                assert forall|n: Seq<char>| crate::text::views(seen@).to_set().contains(n) == s_new.contains(n) by {
                    if s_new.contains(n) {
                        let t = choose|t: int| 0 <= t < i + 1 && routes[keys[t]] == n;
                        if t < i {
                            assert(s_old.contains(n));
                            assert(before.to_set().contains(n));
                            let u = choose|u: int| 0 <= u < before.len() && before[u] == n;
                            assert(crate::text::views(seen@)[u] == n);
                        } else {
                            assert(n == name@);
                            if found {
                                let u = choose|u: int| 0 <= u < seen@.len() && seen@[u]@ == name@;
                                assert(crate::text::views(seen@)[u] == n);
                            } else {
                                assert(crate::text::views(seen@)[before.len() as int] == n);
                            }
                        }
                    }
                    if crate::text::views(seen@).to_set().contains(n) {
                        let u = choose|u: int| 0 <= u < crate::text::views(seen@).len() && crate::text::views(seen@)[u] == n;
                        if u < before.len() {
                            assert(before[u] == n);
                            assert(before.to_set().contains(n));
                            assert(s_old.contains(n));
                            let t = choose|t: int| 0 <= t < i && routes[keys[t]] == n;
                            assert(s_new.contains(n));
                        } else {
                            assert(n == name@);
                            assert(routes[keys[i as int]] == n);
                            assert(s_new.contains(n));
                        }
                    }
                }
                assert(crate::text::views(seen@).to_set() =~= s_new);
            }
            i = i + 1;
        }
        proof {
            let s_all = Set::new(|n: Seq<char>| exists|j: int| 0 <= j < keys.len() && routes[keys[j]] == n);
            assert forall|n: Seq<char>| s_all.contains(n) == routes.values().contains(n) by {
                if s_all.contains(n) {
                    let j = choose|j: int| 0 <= j < keys.len() && routes[keys[j]] == n;
                    assert(keys.to_set().contains(keys[j]));
                    assert(routes.contains_key(keys[j]));
                }
                if routes.values().contains(n) {
                    let k = choose|k: Seq<char>| routes.contains_key(k) && routes[k] == n;
                    assert(keys.to_set().contains(k));
                    let j = choose|j: int| 0 <= j < keys.len() && keys[j] == k;
                    assert(s_all.contains(n));
                }
            }
            assert(routes.values() =~= s_all);
            crate::text::views(seen@).unique_seq_to_set();
        }
        seen.len()
    }

    /// Picks the executor for `script` and builds the request it will run:
    /// the script's directory as working directory, and `limits` or else the
    /// manager's defaults.
    ///
    /// Fails with `UnsupportedScript` when the path has no extension, and with
    /// `NoExecutorFound` when no executor is routed for it.
    pub fn prepare_execution(
        &self,
        script: &ScriptInfo,
        args: Vec<String>,
        env: OrderedMap<String>,
        limits: Option<ResourceLimits>,
    ) -> (r: Result<(&Arc<E>, ExecuteRequest), ExecutionError>)
        ensures
            extension_of(script.path@) is None ==> (r matches Err(ExecutionError::UnsupportedScript(m))
                && m@ == "no extension: "@ + script.path@),
            extension_of(script.path@) matches Some(e) ==> if self.routes().contains_key(lowercase_of(e)) {
                r matches Ok((x, _)) && *x == self.executors()[lowercase_of(e)]
            } else {
                r matches Err(ExecutionError::NoExecutorFound(x)) && x@ == e
            },
            r matches Ok((_, req)) ==> {
                &&& req.script == *script
                &&& req.args == args
                &&& req.env == env
                &&& (limits matches Some(l) ==> req.limits == l)
                &&& (limits is None ==> same_limits(self.spec_default_limits(), req.limits))
                &&& (req.working_dir matches Some(w) ==> parent_of(script.path@) == Some(w@))
                &&& (req.working_dir is None ==> parent_of(script.path@) is None)
                &&& req.stdin is None
            },
    {
        let ext = match path_extension(script.path.as_str()) {
            Some(e) => e,
            None => {
                return Err(ExecutionError::UnsupportedScript(concat("no extension: ", script.path.as_str())));
            },
        };
        let key = to_lowercase(ext.as_str());
        let executor = match self.executors.get(key.as_str()) {
            Some(p) => &p.1,
            None => {
                return Err(ExecutionError::NoExecutorFound(ext));
            },
        };
        let limits = match limits {
            Some(l) => l,
            None => self.default_limits.clone(),
        };
        let request = ExecuteRequest {
            script: script.clone(),
            args,
            env,
            limits,
            working_dir: path_parent(script.path.as_str()),
            stdin: None,
        };
        Ok((executor, request))
    }
}

impl<E: Executor> Default for ScriptExecutorManager<E> {
    /// A manager with no executor and the default limits.
    fn default() -> (r: Self)
        ensures
            r.routes() == Map::<Seq<char>, Seq<char>>::empty(),
            r.spec_default_limits().max_memory_bytes == 256 * 1024 * 1024,
            r.spec_default_limits().timeout == crate::sys::duration_of_secs(30),
            r.spec_default_limits().max_output_bytes == 1024 * 1024,
            !r.spec_default_limits().network_access,
            r.spec_default_limits().filesystem_access is NoAccess,
    {
        Self::new(ResourceLimits::default())
    }
}

} // verus!
