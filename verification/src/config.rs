//! Connection contexts: the named endpoints the dashboard can talk to, and
//! the one that is in use.

use vstd::prelude::*;
use vstd::string::*;
use crate::text::str_eq;

verus! {

/// One connection context: where the service is, and how many runs to ask
/// it for.
#[derive(Debug)]
pub struct ContextConfig {
    pub url: String,
    pub runs_limit: Option<usize>,
}

/// A connection context as a mathematical value.
pub struct ContextModel {
    pub url: Seq<char>,
    pub runs_limit: Option<usize>,
}

impl View for ContextConfig {
    type V = ContextModel;

    open spec fn view(&self) -> ContextModel {
        ContextModel { url: self.url@, runs_limit: self.runs_limit }
    }
}

impl DeepView for ContextConfig {
    type V = ContextModel;

    open spec fn deep_view(&self) -> ContextModel {
        self@
    }
}

impl Clone for ContextConfig {
    fn clone(&self) -> (r: Self)
        ensures
            r@ == self@,
    {
        ContextConfig { url: self.url.clone(), runs_limit: self.runs_limit }
    }
}

/// The context that is used when nothing else is configured.
pub open spec fn default_context() -> ContextModel {
    ContextModel { url: "http://localhost:3000/graphql"@, runs_limit: Some(20usize) }
}

impl Default for ContextConfig {
    fn default() -> (r: Self)
        ensures
            r@ == default_context(),
    {
        ContextConfig {
            url: String::from_str("http://localhost:3000/graphql"),
            runs_limit: Some(20),
        }
    }
}

/// The named contexts as a mathematical value: names with their contexts,
/// in the order in which they are listed.
pub type ContextsModel = Seq<(Seq<char>, ContextModel)>;

/// No name occurs twice.
pub open spec fn distinct_names(t: ContextsModel) -> bool {
    forall|i: int, j: int| 0 <= i < j < t.len() ==> (#[trigger] t[i]).0 != (#[trigger] t[j]).0
}

/// Whether a context of this name exists.
pub open spec fn has_name(t: ContextsModel, name: Seq<char>) -> bool {
    exists|i: int| 0 <= i < t.len() && (#[trigger] t[i]).0 == name
}

/// The place of the context of this name.
pub open spec fn index_of(t: ContextsModel, name: Seq<char>) -> int {
    choose|i: int| 0 <= i < t.len() && (#[trigger] t[i]).0 == name
}

/// The named contexts. No name occurs twice.
#[derive(Debug)]
pub struct ContextTable {
    entries: Vec<(String, ContextConfig)>,
}

impl View for ContextTable {
    type V = ContextsModel;

    closed spec fn view(&self) -> ContextsModel {
        Seq::new(self.entries@.len(), |i: int| (self.entries@[i].0@, self.entries@[i].1@))
    }
}

impl ContextTable {
    #[verifier::type_invariant]
    spec fn well_formed(self) -> bool {
        distinct_names(self@)
    }

    /// The table without any context.
    pub fn new() -> (r: Self)
        ensures
            r@.len() == 0,
    {
        ContextTable { entries: Vec::new() }
    }

    /// The number of contexts.
    pub fn len(&self) -> (r: usize)
        ensures
            r == self@.len(),
            distinct_names(self@),
    {
        proof {
            use_type_invariant(self);
        }
        self.entries.len()
    }

    /// The name of the context at place `i`.
    pub fn name_at(&self, i: usize) -> (r: &String)
        requires
            i < self@.len(),
        ensures
            r@ == self@[i as int].0,
    {
        &self.entries[i].0
    }

    /// The context at place `i`.
    pub fn context_at(&self, i: usize) -> (r: &ContextConfig)
        requires
            i < self@.len(),
        ensures
            r@ == self@[i as int].1,
    {
        &self.entries[i].1
    }

    /// The place of the context called `name`, if there is one.
    pub fn position(&self, name: &str) -> (r: Option<usize>)
        ensures
            r is Some <==> has_name(self@, name@),
            r is Some ==> r->0 == index_of(self@, name@) && r->0 < self@.len()
                && self@[r->0 as int].0 == name@,
    {
        proof {
            use_type_invariant(self);
        }
        let mut i: usize = 0;
        while i < self.entries.len()
            invariant
                i <= self.entries.len(),
                self.entries.len() == self@.len(),
                distinct_names(self@),
                forall|k: int| 0 <= k < i ==> (#[trigger] self@[k]).0 != name@,
            decreases self.entries.len() - i,
        {
            if str_eq(self.entries[i].0.as_str(), name) {
                assert(self@[i as int].0 == name@);
                let ghost j = index_of(self@, name@);
                assert(j == i) by {
                    if j < i {
                        assert(self@[j].0 != self@[i as int].0);
                    } else if j > i {
                        assert(self@[i as int].0 != self@[j].0);
                    }
                }
                return Some(i);
            }
            i += 1;
        }
        None
    }

    /// Whether a context called `name` exists.
    pub fn contains_key(&self, name: &str) -> (r: bool)
        ensures
            r == has_name(self@, name@),
    {
        self.position(name).is_some()
    }

    /// The context called `name`, if there is one.
    pub fn get(&self, name: &str) -> (r: Option<&ContextConfig>)
        ensures
            r is Some <==> has_name(self@, name@),
            r is Some ==> r->0@ == self@[index_of(self@, name@)].1,
    {
        match self.position(name) {
            Some(i) => Some(&self.entries[i].1),
            None => None,
        }
    }

    /// Sets the context called `name`: in its place if the name exists, at
    /// the end if it does not.
    pub fn insert(&mut self, name: String, config: ContextConfig)
        ensures
            has_name(old(self)@, name@) ==> final(self)@ == old(self)@.update(
                index_of(old(self)@, name@),
                (name@, config@),
            ),
            !has_name(old(self)@, name@) ==> final(self)@ == old(self)@.push((name@, config@)),
    {
        proof {
            use_type_invariant(&*self);
        }
        let ghost before = self@;
        let found = self.position(name.as_str());
        let mut entries: Vec<(String, ContextConfig)> = Vec::new();
        core::mem::swap(&mut self.entries, &mut entries);
        let ghost after = match found {
            Some(i) => before.update(i as int, (name@, config@)),
            None => before.push((name@, config@)),
        };
        match found {
            Some(i) => {
                entries[i] = (name, config);
            },
            None => {
                entries.push((name, config));
            },
        }
        proof {
            let now = Seq::new(entries@.len(), |i: int| (entries@[i].0@, entries@[i].1@));
            assert(now =~= after);
            assert forall|i: int, j: int| 0 <= i < j < now.len() implies (#[trigger] now[i]).0 != (
            #[trigger] now[j]).0 by {
                if i < before.len() && j < before.len() {
                    assert(before[i].0 != before[j].0);
                }
                if found is None {
                    if j == before.len() {
                        assert(before[i].0 != name@);
                    }
                }
            }
        }
        self.entries = entries;
    }

    /// Takes out the context called `name`; says whether there was one.
    pub fn remove(&mut self, name: &str) -> (r: bool)
        ensures
            r == has_name(old(self)@, name@),
            r ==> final(self)@ == old(self)@.remove(index_of(old(self)@, name@)),
            !r ==> final(self)@ == old(self)@,
    {
        proof {
            use_type_invariant(&*self);
        }
        let ghost before = self@;
        match self.position(name) {
            Some(i) => {
                let mut entries: Vec<(String, ContextConfig)> = Vec::new();
                core::mem::swap(&mut self.entries, &mut entries);
                let _ = entries.remove(i);
                proof {
                    let now = Seq::new(entries@.len(), |k: int| (entries@[k].0@, entries@[k].1@));
                    assert(now =~= before.remove(i as int));
                    assert forall|a: int, b: int| 0 <= a < b < now.len() implies (
                    #[trigger] now[a]).0 != (#[trigger] now[b]).0 by {
                        let x = if a < i { a } else { a + 1 };
                        let y = if b < i { b } else { b + 1 };
                        assert(before[x].0 != before[y].0);
                    }
                }
                self.entries = entries;
                true
            },
            None => false,
        }
    }
}

/// Why a change of the contexts was refused.
#[derive(Debug)]
pub enum ConfigError {
    /// No context has the name that was given; the variant holds the name.
    NotFound(String),
    /// The context called `default` cannot be removed.
    CannotRemoveDefault,
}

impl ConfigError {
    /// Whether the error says that no context is called `name`.
    pub open spec fn is_not_found(&self, name: Seq<char>) -> bool {
        match self {
            ConfigError::NotFound(n) => n@ == name,
            ConfigError::CannotRemoveDefault => false,
        }
    }

    /// The text that describes the error.
    pub open spec fn text(&self) -> Seq<char> {
        match self {
            ConfigError::NotFound(name) => "Context '"@ + name@ + "' not found"@,
            ConfigError::CannotRemoveDefault => "Cannot remove default context"@,
        }
    }

    /// The text that describes the error.
    pub fn message(&self) -> (r: String)
        ensures
            r@ == self.text(),
    {
        match self {
            ConfigError::NotFound(name) => {
                String::from_str("Context '").concat(name.as_str()).concat("' not found")
            },
            ConfigError::CannotRemoveDefault => String::from_str("Cannot remove default context"),
        }
    }
}

/// The contexts and the name of the one in use.
#[derive(Debug)]
pub struct Config {
    /// The name of the context that was used last.
    pub last_context: String,
    pub contexts: ContextTable,
}

/// A configuration as a mathematical value.
pub struct ConfigModel {
    pub last_context: Seq<char>,
    pub contexts: ContextsModel,
}

impl ConfigModel {
    /// The context in use: the one that was used last; if that is gone, the
    /// one called `default`; if that is gone too, the built-in default.
    pub open spec fn current_context(self) -> ContextModel {
        if has_name(self.contexts, self.last_context) {
            self.contexts[index_of(self.contexts, self.last_context)].1
        } else if has_name(self.contexts, "default"@) {
            self.contexts[index_of(self.contexts, "default"@)].1
        } else {
            default_context()
        }
    }

    /// The configuration after the context `name` was set to `context`.
    pub open spec fn with_context(self, name: Seq<char>, context: ContextModel) -> ConfigModel {
        ConfigModel {
            contexts: if has_name(self.contexts, name) {
                self.contexts.update(index_of(self.contexts, name), (name, context))
            } else {
                self.contexts.push((name, context))
            },
            ..self
        }
    }

    /// The configuration after the context `name` was removed.
    pub open spec fn without_context(self, name: Seq<char>) -> ConfigModel {
        ConfigModel {
            contexts: self.contexts.remove(index_of(self.contexts, name)),
            last_context: if self.last_context == name {
                "default"@
            } else {
                self.last_context
            },
        }
    }
}

impl View for Config {
    type V = ConfigModel;

    open spec fn view(&self) -> ConfigModel {
        ConfigModel { last_context: self.last_context@, contexts: self.contexts@ }
    }
}

impl Default for Config {
    /// The configuration with the one context `default`.
    fn default() -> (r: Self)
        ensures
            r@ == (ConfigModel {
                last_context: "default"@,
                contexts: seq![("default"@, default_context())],
            }),
    {
        let mut contexts = ContextTable::new();
        assert(contexts@ =~= Seq::empty());
        contexts.insert(String::from_str("default"), ContextConfig::default());
        assert(contexts@ =~= seq![("default"@, default_context())]);
        Config { last_context: String::from_str("default"), contexts }
    }
}

impl Config {
    /// The context in use.
    pub fn get_current_context(&self) -> (r: ContextConfig)
        ensures
            r@ == self@.current_context(),
    {
        if let Some(context) = self.contexts.get(self.last_context.as_str()) {
            return context.clone();
        }
        if let Some(context) = self.contexts.get("default") {
            return context.clone();
        }
        ContextConfig::default()
    }

    /// Makes the context called `name` the one in use. Fails, and changes
    /// nothing, when no context has that name.
    pub fn set_context(&mut self, name: &str) -> (r: Result<(), ConfigError>)
        ensures
            r is Ok <==> has_name(old(self)@.contexts, name@),
            r is Ok ==> final(self)@ == (ConfigModel { last_context: name@, ..old(self)@ }),
            r is Err ==> final(self)@ == old(self)@ && r->Err_0.is_not_found(name@),
    {
        if !self.contexts.contains_key(name) {
            return Err(ConfigError::NotFound(name.to_owned()));
        }
        self.last_context = name.to_owned();
        Ok(())
    }

    /// Sets the context called `name`, new or not.
    pub fn add_context(&mut self, name: &str, config: ContextConfig)
        ensures
            final(self)@ == old(self)@.with_context(name@, config@),
    {
        self.contexts.insert(name.to_owned(), config);
    }

    /// Removes the context called `name`. The context called `default`
    /// cannot be removed, nor one that does not exist. When the context in
    /// use is removed, `default` is in use afterwards.
    pub fn remove_context(&mut self, name: &str) -> (r: Result<(), ConfigError>)
        ensures
            r is Ok <==> name@ != "default"@ && has_name(old(self)@.contexts, name@),
            r is Ok ==> final(self)@ == old(self)@.without_context(name@),
            r is Err ==> final(self)@ == old(self)@,
            name@ == "default"@ ==> r == Err::<(), ConfigError>(ConfigError::CannotRemoveDefault),
            r is Err && name@ != "default"@ ==> r->Err_0.is_not_found(name@),
    {
        if str_eq(name, "default") {
            return Err(ConfigError::CannotRemoveDefault);
        }
        if !self.contexts.remove(name) {
            return Err(ConfigError::NotFound(name.to_owned()));
        }
        if str_eq(self.last_context.as_str(), name) {
            self.last_context = String::from_str("default");
        }
        Ok(())
    }
}

} // verus!
