//! The provider configuration store.
//!
//! A `Config` owns the list of providers and the name of the currently
//! selected one.  Its well-formedness invariant says that provider names are
//! unique and that the selection, when set, names an existing provider.  Each
//! mutating operation is specified exactly by `StoreOp::apply`, and the
//! invariant is proved to survive any sequence of operations.

use vstd::prelude::*;
use crate::strutil::str_eq;

verus! {

/// One named service profile: endpoint, secret token, optional model override.
pub struct Provider {
    pub name: String,
    pub api_url: String,
    pub token: String,
    pub model: Option<String>,
}

/// Ghost image of a `Provider`: every field as a sequence of characters.
pub struct ProviderView {
    pub name: Seq<char>,
    pub api_url: Seq<char>,
    pub token: Seq<char>,
    pub model: Option<Seq<char>>,
}

impl View for Provider {
    type V = ProviderView;

    open spec fn view(&self) -> ProviderView {
        ProviderView {
            name: self.name@,
            api_url: self.api_url@,
            token: self.token@,
            model: self.model.deep_view(),
        }
    }
}

impl DeepView for Provider {
    type V = ProviderView;

    open spec fn deep_view(&self) -> ProviderView {
        self.view()
    }
}

impl Clone for Provider {
    fn clone(&self) -> (r: Self)
        ensures
            r == *self,
    {
        Provider {
            name: self.name.clone(),
            api_url: self.api_url.clone(),
            token: self.token.clone(),
            model: match &self.model {
                Some(m) => Some(m.clone()),
                None => None,
            },
        }
    }
}

/// The store: all providers plus the name of the selected one, if any.
pub struct Config {
    pub providers: Vec<Provider>,
    pub current_provider: Option<String>,
}

/// Ghost image of a `Config`.
pub struct ConfigView {
    pub providers: Seq<ProviderView>,
    pub current_provider: Option<Seq<char>>,
}

impl View for Config {
    type V = ConfigView;

    open spec fn view(&self) -> ConfigView {
        ConfigView {
            providers: self.providers.deep_view(),
            current_provider: self.current_provider.deep_view(),
        }
    }
}

/// Index of the first provider called `name`, or -1 if there is none.
pub open spec fn first_index_of(s: Seq<ProviderView>, name: Seq<char>) -> int
    decreases s.len(),
{
    if s.len() == 0 {
        -1
    } else if s[0].name == name {
        0
    } else {
        let r = first_index_of(s.subrange(1, s.len() as int), name);
        if r == -1 {
            -1
        } else {
            r + 1
        }
    }
}

pub proof fn lemma_first_index_of(s: Seq<ProviderView>, name: Seq<char>)
    ensures
        first_index_of(s, name) == -1 <==> (forall|i: int|
            0 <= i < s.len() ==> s[i].name != name),
        first_index_of(s, name) != -1 ==> {
            let k = first_index_of(s, name);
            &&& 0 <= k < s.len()
            &&& s[k].name == name
            &&& forall|j: int| 0 <= j < k ==> s[j].name != name
        },
    decreases s.len(),
{
    if s.len() != 0 && s[0].name != name {
        let t = s.subrange(1, s.len() as int);
        lemma_first_index_of(t, name);
        assert(forall|i: int| 0 <= i < t.len() ==> t[i] == s[i + 1]);
        let r = first_index_of(t, name);
        if r == -1 {
            assert forall|i: int| 0 <= i < s.len() implies s[i].name != name by {
                if i >= 1 {
                    assert(t[i - 1] == s[i]);
                }
            }
        } else {
            assert(first_index_of(s, name) == r + 1);
            assert(s[r + 1].name == name);
            assert forall|j: int| 0 <= j < r + 1 implies s[j].name != name by {
                if j >= 1 {
                    assert(t[j - 1] == s[j]);
                }
            }
        }
    }
}

impl ConfigView {
    /// Whether some provider carries this name.
    pub open spec fn contains_name(self, name: Seq<char>) -> bool {
        exists|i: int| 0 <= i < self.providers.len() && self.providers[i].name == name
    }

    /// No two providers carry the same name.
    pub open spec fn names_unique(self) -> bool {
        forall|i: int, j: int|
            0 <= i < j < self.providers.len() ==> self.providers[i].name
                != self.providers[j].name
    }

    /// The selection, when set, names an existing provider.
    pub open spec fn selection_valid(self) -> bool {
        match self.current_provider {
            Some(n) => self.contains_name(n),
            None => true,
        }
    }

    /// The store's invariant.
    pub open spec fn wf(self) -> bool {
        self.names_unique() && self.selection_valid()
    }

    /// The provider the selection points at, if it exists.
    pub open spec fn selected(self) -> Option<ProviderView> {
        match self.current_provider {
            Some(n) => {
                let k = first_index_of(self.providers, n);
                if k == -1 {
                    None
                } else {
                    Some(self.providers[k])
                }
            },
            None => None,
        }
    }
}

/// One mutating operation on the store, at the ghost level.
pub enum StoreOp {
    Add { name: Seq<char>, api_url: Seq<char>, token: Seq<char>, model: Option<Seq<char>> },
    Remove { name: Seq<char> },
    Select { name: Seq<char> },
    Deselect,
}

impl StoreOp {
    /// Exact semantics of each operation; the executable methods are proved
    /// to realize it.
    pub open spec fn apply(self, c: ConfigView) -> ConfigView {
        match self {
            StoreOp::Add { name, api_url, token, model } => {
                let p = ProviderView { name, api_url, token, model };
                let k = first_index_of(c.providers, name);
                ConfigView {
                    providers: if k == -1 {
                        c.providers.push(p)
                    } else {
                        c.providers.update(k, p)
                    },
                    current_provider: c.current_provider,
                }
            },
            StoreOp::Remove { name } => {
                let k = first_index_of(c.providers, name);
                ConfigView {
                    providers: if k == -1 {
                        c.providers
                    } else {
                        c.providers.remove(k)
                    },
                    current_provider: if c.current_provider == Some(name) {
                        None
                    } else {
                        c.current_provider
                    },
                }
            },
            StoreOp::Select { name } => {
                ConfigView {
                    providers: c.providers,
                    current_provider: if c.contains_name(name) {
                        Some(name)
                    } else {
                        c.current_provider
                    },
                }
            },
            StoreOp::Deselect => {
                ConfigView { providers: c.providers, current_provider: None }
            },
        }
    }
}

/// The ghost configuration after a whole sequence of operations.
pub open spec fn apply_ops(c: ConfigView, ops: Seq<StoreOp>) -> ConfigView
    decreases ops.len(),
{
    if ops.len() == 0 {
        c
    } else {
        apply_ops(ops[0].apply(c), ops.subrange(1, ops.len() as int))
    }
}

/// Every single operation keeps the store well-formed.
pub proof fn lemma_op_preserves_wf(c: ConfigView, op: StoreOp)
    requires
        c.wf(),
    ensures
        op.apply(c).wf(),
{
    match op {
        StoreOp::Add { name, api_url, token, model } => {
            lemma_first_index_of(c.providers, name);
            let d = op.apply(c);
            let k = first_index_of(c.providers, name);
            if k == -1 {
                assert(forall|i: int|
                    0 <= i < c.providers.len() ==> d.providers[i] == c.providers[i]);
                match c.current_provider {
                    Some(n) => {
                        let w = choose|i: int|
                            0 <= i < c.providers.len() && c.providers[i].name == n;
                        assert(d.providers[w].name == n);
                    },
                    None => {},
                }
            } else {
                assert(forall|i: int|
                    0 <= i < c.providers.len() && i != k ==> d.providers[i] == c.providers[i]);
                assert(d.providers[k].name == name);
                match c.current_provider {
                    Some(n) => {
                        let w = choose|i: int|
                            0 <= i < c.providers.len() && c.providers[i].name == n;
                        assert(d.providers[w].name == n);
                    },
                    None => {},
                }
            }
        },
        StoreOp::Remove { name } => {
            lemma_first_index_of(c.providers, name);
            let d = op.apply(c);
            let k = first_index_of(c.providers, name);
            if k != -1 {
                assert(forall|i: int| 0 <= i < k ==> d.providers[i] == c.providers[i]);
                assert(forall|i: int|
                    k <= i < d.providers.len() ==> d.providers[i] == c.providers[i + 1]);
                match c.current_provider {
                    Some(n) => {
                        if n != name {
                            let w = choose|i: int|
                                0 <= i < c.providers.len() && c.providers[i].name == n;
                            assert(c.providers[k].name == name);
                            assert(w != k);
                            if w < k {
                                assert(d.providers[w].name == n);
                            } else {
                                assert(d.providers[w - 1].name == n);
                            }
                        }
                    },
                    None => {},
                }
            }
        },
        StoreOp::Select { name } => {},
        StoreOp::Deselect => {},
    }
}

/// Removing the selected name clears the selection as part of the same
/// mutation; removing any other name leaves the selection untouched.
pub proof fn lemma_remove_selection(c: ConfigView, name: Seq<char>)
    ensures
        (StoreOp::Remove { name }).apply(c).current_provider == (if c.current_provider == Some(
            name,
        ) {
            Option::<Seq<char>>::None
        } else {
            c.current_provider
        }),
{
}

/// Clearing the selection is idempotent: one clearing leaves nothing
/// selected, and a second one changes nothing at all.
pub proof fn lemma_clear_idempotent(c: ConfigView)
    ensures
        StoreOp::Deselect.apply(c).current_provider is None,
        StoreOp::Deselect.apply(StoreOp::Deselect.apply(c)) == StoreOp::Deselect.apply(c),
{
}

/// After any sequence of store operations on a well-formed configuration, the
/// selection still names an existing provider: the invariant is inductive.
pub proof fn lemma_ops_preserve_wf(c: ConfigView, ops: Seq<StoreOp>)
    requires
        c.wf(),
    ensures
        apply_ops(c, ops).wf(),
    decreases ops.len(),
{
    if ops.len() != 0 {
        lemma_op_preserves_wf(c, ops[0]);
        lemma_ops_preserve_wf(ops[0].apply(c), ops.subrange(1, ops.len() as int));
    }
}

impl Config {
    /// A fresh store: no providers, nothing selected.
    pub fn empty() -> (r: Config)
        ensures
            r@.providers.len() == 0,
            r@.current_provider is None,
            r@.wf(),
    {
        Config { providers: Vec::new(), current_provider: None }
    }

    /// Position of the first provider called `name`, if there is one.
    fn find_index(&self, name: &str) -> (r: Option<usize>)
        ensures
            match r {
                Some(i) => i as int == first_index_of(self@.providers, name@),
                None => first_index_of(self@.providers, name@) == -1,
            },
    {
        proof {
            lemma_first_index_of(self@.providers, name@);
        }
        let n = self.providers.len();
        let mut i: usize = 0;
        while i < n
            invariant
                i <= n,
                n == self@.providers.len(),
                forall|j: int| 0 <= j < i ==> self@.providers[j].name != name@,
            decreases n - i,
        {
            if str_eq(self.providers[i].name.as_str(), name) {
                proof {
                    lemma_first_index_unique(self@.providers, name@, i as int);
                }
                return Some(i);
            }
            i += 1;
        }
        None
    }

    /// Whether some provider carries this name.
    pub fn contains_provider(&self, name: &str) -> (r: bool)
        ensures
            r == self@.contains_name(name@),
    {
        proof {
            lemma_first_index_of(self@.providers, name@);
        }
        self.find_index(name).is_some()
    }

    /// Inserts the record, or replaces the one already carrying this name.
    pub fn add_provider(&mut self, name: String, api_url: String, token: String, model: Option<
        String,
    >)
        ensures
            final(self)@ == (StoreOp::Add {
                name: name@,
                api_url: api_url@,
                token: token@,
                model: model.deep_view(),
            }).apply(old(self)@),
    {
        let ghost pv = ProviderView {
            name: name@,
            api_url: api_url@,
            token: token@,
            model: model.deep_view(),
        };
        let ghost op = StoreOp::Add {
            name: name@,
            api_url: api_url@,
            token: token@,
            model: model.deep_view(),
        };
        let p = Provider { name, api_url, token, model };
        proof {
            assert(p@ == pv);
            lemma_first_index_of(self@.providers, pv.name);
        }
        match self.find_index(p.name.as_str()) {
            Some(i) => {
                self.providers.set(i, p);
            },
            None => {
                self.providers.push(p);
            },
        }
        proof {
            assert(self@.providers =~= op.apply(old(self)@).providers);
        }
    }

    /// Removes the record carrying this name and reports whether it existed;
    /// a selection pointing at this name is cleared by the same mutation.
    pub fn remove_provider(&mut self, name: &str) -> (r: bool)
        ensures
            final(self)@ == (StoreOp::Remove { name: name@ }).apply(old(self)@),
            r == old(self)@.contains_name(name@),
    {
        proof {
            lemma_first_index_of(self@.providers, name@);
        }
        let clear_selection = match &self.current_provider {
            Some(current) => str_eq(current.as_str(), name),
            None => false,
        };
        if clear_selection {
            self.current_provider = None;
        }
        match self.find_index(name) {
            Some(i) => {
                self.providers.remove(i);
                proof {
                    assert(self@.providers =~= (StoreOp::Remove {
                        name: name@,
                    }).apply(old(self)@).providers);
                }
                true
            },
            None => false,
        }
    }

    /// Selects this name if it exists; reports whether it did.
    pub fn set_current_provider(&mut self, name: &str) -> (r: bool)
        ensures
            final(self)@ == (StoreOp::Select { name: name@ }).apply(old(self)@),
            r == old(self)@.contains_name(name@),
    {
        proof {
            lemma_first_index_of(self@.providers, name@);
        }
        if self.contains_provider(name) {
            self.current_provider = Some(name.to_owned());
            true
        } else {
            false
        }
    }

    /// Drops the selection; nothing happens when none is set.
    pub fn clear_current_provider(&mut self)
        ensures
            final(self)@ == StoreOp::Deselect.apply(old(self)@),
    {
        self.current_provider = None;
    }

    /// The selected provider's record, if the selection names an existing one.
    pub fn get_current_provider(&self) -> (r: Option<&Provider>)
        ensures
            match r {
                Some(p) => self@.selected() == Some(p@),
                None => self@.selected() is None,
            },
    {
        match &self.current_provider {
            Some(n) => {
                proof {
                    lemma_first_index_of(self@.providers, n@);
                }
                match self.find_index(n.as_str()) {
                    Some(i) => Some(&self.providers[i]),
                    None => None,
                }
            },
            None => None,
        }
    }
}

proof fn lemma_first_index_unique(s: Seq<ProviderView>, name: Seq<char>, i: int)
    requires
        0 <= i < s.len(),
        s[i].name == name,
        forall|j: int| 0 <= j < i ==> s[j].name != name,
    ensures
        first_index_of(s, name) == i,
{
    lemma_first_index_of(s, name);
}

} // verus!
