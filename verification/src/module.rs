//! The module registry: three resolution tiers and the one-time global
//! attachment.
//!
//! Tier one is the statically named built-in units configured when the
//! runtime is built; a `node:`-style namespace prefix is stripped before
//! matching them. Tier two is the preloaded additional modules supplied at
//! runtime construction. Tier three is the dynamic module store, written at
//! any time after construction. Resolution tries the tiers in that fixed
//! order, and a miss in an earlier tier falls through to the next; only when
//! every tier misses is the failure surfaced.

use vstd::prelude::*;
use vstd::string::StringExecFns;
use vstd::string::StrSliceExecFns;
use crate::error::JsError;
use crate::text::str_eq;

verus! {

/// The views of a sequence of strings.
pub open spec fn str_views(s: Seq<String>) -> Seq<Seq<char>>
    decreases s,
{
    if s.len() == 0 {
        Seq::empty()
    } else {
        seq![s[0]@] + str_views(s.drop_first())
    }
}

/// `str_views` preserves length.
pub proof fn lemma_str_views_len(s: Seq<String>)
    ensures
        str_views(s).len() == s.len(),
    decreases s.len(),
{
    if s.len() > 0 {
        lemma_str_views_len(s.drop_first());
    }
}

/// `str_views` indexes pointwise.
pub proof fn lemma_str_views_index(s: Seq<String>, i: int)
    requires
        0 <= i < s.len(),
    ensures
        str_views(s).len() == s.len(),
        str_views(s)[i] == s[i]@,
    decreases s.len(),
{
    lemma_str_views_len(s);
    lemma_str_views_len(s.drop_first());
    if i > 0 {
        lemma_str_views_index(s.drop_first(), i - 1);
    }
}

/// Membership of a text in a sequence of texts.
pub open spec fn contains_text(s: Seq<Seq<char>>, t: Seq<char>) -> bool {
    exists|i: int| 0 <= i < s.len() && s[i] == t
}

/// Looks a name up in a list of strings.
fn find_name(list: &Vec<String>, name: &str) -> (r: Option<usize>)
    ensures
        match r {
            Some(i) => i < list@.len() && list@[i as int]@ == name@,
            None => !contains_text(str_views(list@), name@),
        },
{
    let mut i: usize = 0;
    while i < list.len()
        invariant
            i <= list@.len(),
            forall|j: int| 0 <= j < i ==> (#[trigger] list@[j])@ != name@,
        decreases list@.len() - i,
    {
        if str_eq(list[i].as_str(), name) {
            return Some(i);
        }
        i = i + 1;
    }
    proof {
        lemma_str_views_len(list@);
        assert forall|j: int| 0 <= j < str_views(list@).len() implies #[trigger] str_views(list@)[j]
            != name@ by {
            lemma_str_views_index(list@, j);
        }
    }
    None
}

/// The set of module names attached to a context, kept as context-local
/// state so resolvers running inside the engine can consult it.
#[derive(Debug)]
pub struct ModuleNames {
    list: Vec<String>,
}

impl View for ModuleNames {
    type V = Seq<Seq<char>>;

    closed spec fn view(&self) -> Seq<Seq<char>> {
        str_views(self.list@)
    }
}

impl ModuleNames {
    /// Builds the name set from a list of names.
    pub fn new(names: Vec<String>) -> (r: ModuleNames)
        ensures
            r@ == str_views(names@),
    {
        ModuleNames { list: names }
    }

    /// A copy of the name list.
    pub fn get_list(&self) -> (r: Vec<String>)
        ensures
            str_views(r@) == self@,
    {
        let mut out: Vec<String> = Vec::new();
        let mut i: usize = 0;
        while i < self.list.len()
            invariant
                i <= self.list@.len(),
                out@.len() == i,
                forall|j: int| 0 <= j < i ==> (#[trigger] out@[j])@ == self.list@[j]@,
            decreases self.list@.len() - i,
        {
            out.push(self.list[i].clone());
            i = i + 1;
        }
        proof {
            lemma_str_views_len(out@);
            lemma_str_views_len(self.list@);
            assert forall|j: int| 0 <= j < out@.len() implies #[trigger] str_views(out@)[j]
                == str_views(self.list@)[j] by {
                lemma_str_views_index(out@, j);
                lemma_str_views_index(self.list@, j);
            }
            assert(str_views(out@) =~= str_views(self.list@));
        }
        out
    }
}

/// The result of stripping every leading `node:` namespace prefix from a
/// module specifier.
pub open spec fn strip_node_prefix(s: Seq<char>) -> Seq<char>
    decreases s.len(),
{
    if has_node_prefix(s) {
        strip_node_prefix(s.skip(5))
    } else {
        s
    }
}

/// True when the specifier starts with the `node:` namespace prefix.
pub open spec fn has_node_prefix(s: Seq<char>) -> bool {
    s.len() >= 5 && s[0] == 'n' && s[1] == 'o' && s[2] == 'd' && s[3] == 'e' && s[4] == ':'
}

/// Strips every leading `node:` namespace prefix from a specifier.
#[verifier::loop_isolation(false)]
fn strip_node_prefix_exec(name: &str) -> (r: String)
    ensures
        r@ == strip_node_prefix(name@),
{
    let n = name.unicode_len();
    let mut start: usize = 0;
    proof {
        assert(name@.skip(0) =~= name@);
    }
    while n - start >= 5 && name.get_char(start) == 'n' && name.get_char(start + 1) == 'o'
        && name.get_char(start + 2) == 'd' && name.get_char(start + 3) == 'e' && name.get_char(
        start + 4,
    ) == ':'
        invariant
            start <= n,
            n == name@.len(),
            strip_node_prefix(name@) == strip_node_prefix(name@.skip(start as int)),
        decreases n - start,
    {
        proof {
            assert(has_node_prefix(name@.skip(start as int)));
            assert(name@.skip(start as int).skip(5) =~= name@.skip(start as int + 5));
        }
        start = start + 5;
    }
    proof {
        assert(!has_node_prefix(name@.skip(start as int)));
    }
    let tail = name.substring_char(start, n);
    proof {
        assert(tail@ =~= name@.skip(start as int));
    }
    tail.to_owned()
}

/// The tier-one resolver: statically named built-in units. A specifier
/// matches after its `node:` namespace prefix is stripped.
#[derive(Debug, Default)]
pub struct ModuleResolver {
    modules: Vec<String>,
}

impl View for ModuleResolver {
    type V = Seq<Seq<char>>;

    closed spec fn view(&self) -> Seq<Seq<char>> {
        str_views(self.modules@)
    }
}

impl ModuleResolver {
    /// Builds an empty resolver.
    pub fn new() -> (r: ModuleResolver)
        ensures
            r@ == Seq::<Seq<char>>::empty(),
    {
        ModuleResolver { modules: Vec::new() }
    }

    /// Adds a module name.
    #[must_use]
    pub fn add_name(self, path: String) -> (r: ModuleResolver)
        ensures
            r@ == self@.push(path@),
    {
        let mut modules = self.modules;
        proof {
            lemma_str_views_push(modules@, path);
        }
        let ghost before = modules@;
        modules.push(path);
        proof {
            assert(modules@ =~= before.push(modules@[before.len() as int]));
            lemma_str_views_push_eq(before, modules@);
        }
        ModuleResolver { modules }
    }

    /// True exactly when the stripped specifier names a registered unit.
    pub fn can_resolve(&self, name: &str) -> (r: bool)
        ensures
            r == contains_text(self@, strip_node_prefix(name@)),
    {
        let stripped = strip_node_prefix_exec(name);
        match find_name(&self.modules, stripped.as_str()) {
            Some(i) => {
                proof {
                    lemma_str_views_index(self.modules@, i as int);
                }
                true
            },
            None => false,
        }
    }

    /// Resolves a specifier: strips the `node:` namespace prefix, then
    /// succeeds exactly when the result names a registered unit. A miss is
    /// reported as a `Module` error naming the specifier.
    pub fn resolve(&self, base: &str, name: &str) -> (r: Result<String, JsError>)
        ensures
            match r {
                Ok(s) => s@ == strip_node_prefix(name@) && contains_text(
                    self@,
                    strip_node_prefix(name@),
                ),
                Err(e) => !contains_text(self@, strip_node_prefix(name@)) && (e matches
                    JsError::Module { module, method, message } && module matches Some(mn)
                    && mn@ == name@ && method is None && message@
                    == "failed to resolve module"@),
            },
    {
        let stripped = strip_node_prefix_exec(name);
        match find_name(&self.modules, stripped.as_str()) {
            Some(i) => {
                proof {
                    lemma_str_views_index(self.modules@, i as int);
                }
                Ok(stripped)
            },
            None => Err(
                JsError::Module {
                    module: Some(name.to_owned()),
                    method: None,
                    message: String::from_str("failed to resolve module"),
                },
            ),
        }
    }
}

/// Pushing a string extends the views by its view (helper shape one).
proof fn lemma_str_views_push(s: Seq<String>, x: String)
    ensures
        str_views(s.push(x)) == str_views(s).push(x@),
    decreases s.len(),
{
    if s.len() == 0 {
        assert(s.push(x).drop_first() =~= s);
        assert(str_views(s.push(x)) =~= str_views(s).push(x@));
    } else {
        assert(s.push(x).drop_first() =~= s.drop_first().push(x));
        lemma_str_views_push(s.drop_first(), x);
        assert(str_views(s.push(x)) =~= str_views(s).push(x@));
    }
}

/// Pushing a string extends the views by its view (helper shape two, stated
/// on the extended sequence).
proof fn lemma_str_views_push_eq(before: Seq<String>, after: Seq<String>)
    requires
        after.len() == before.len() + 1,
        after =~= before.push(after[before.len() as int]),
    ensures
        str_views(after) == str_views(before).push(after[before.len() as int]@),
{
    lemma_str_views_push(before, after[before.len() as int]);
}

/// The views of a sequence of name/bytes entries.
pub open spec fn entry_views(s: Seq<(String, Vec<u8>)>) -> Seq<(Seq<char>, Seq<u8>)>
    decreases s,
{
    if s.len() == 0 {
        Seq::empty()
    } else {
        seq![(s[0].0@, s[0].1@)] + entry_views(s.drop_first())
    }
}

/// `entry_views` preserves length.
pub proof fn lemma_entry_views_len(s: Seq<(String, Vec<u8>)>)
    ensures
        entry_views(s).len() == s.len(),
    decreases s.len(),
{
    if s.len() > 0 {
        lemma_entry_views_len(s.drop_first());
    }
}

/// `entry_views` indexes pointwise.
pub proof fn lemma_entry_views_index(s: Seq<(String, Vec<u8>)>, i: int)
    requires
        0 <= i < s.len(),
    ensures
        entry_views(s).len() == s.len(),
        entry_views(s)[i] == (s[i].0@, s[i].1@),
    decreases s.len(),
{
    lemma_entry_views_len(s);
    lemma_entry_views_len(s.drop_first());
    if i > 0 {
        lemma_entry_views_index(s.drop_first(), i - 1);
    }
}

/// The first entry with the given key, scanning from the front.
pub open spec fn lookup_text(s: Seq<(Seq<char>, Seq<u8>)>, k: Seq<char>) -> Option<Seq<u8>>
    decreases s,
{
    if s.len() == 0 {
        None
    } else if s[0].0 == k {
        Some(s[0].1)
    } else {
        lookup_text(s.drop_first(), k)
    }
}

/// A key is found exactly when some entry carries it.
pub proof fn lemma_lookup_membership(s: Seq<(Seq<char>, Seq<u8>)>, k: Seq<char>)
    ensures
        lookup_text(s, k) is Some <==> exists|i: int| 0 <= i < s.len() && (#[trigger] s[i]).0 == k,
    decreases s,
{
    if s.len() > 0 {
        lemma_lookup_membership(s.drop_first(), k);
        if s[0].0 != k {
            if lookup_text(s, k) is Some {
                let i = choose|i: int|
                    0 <= i < s.drop_first().len() && (#[trigger] s.drop_first()[i]).0 == k;
                assert(s[i + 1].0 == k);
            }
            if exists|i: int| 0 <= i < s.len() && (#[trigger] s[i]).0 == k {
                let i = choose|i: int| 0 <= i < s.len() && (#[trigger] s[i]).0 == k;
                assert(s.drop_first()[i - 1].0 == k);
            }
        }
    }
}

/// Looking up after appending an entry: an existing key shadows the new
/// entry; the new entry answers only for its own, previously absent key.
pub proof fn lemma_lookup_push(s: Seq<(Seq<char>, Seq<u8>)>, e: (Seq<char>, Seq<u8>), k: Seq<char>)
    ensures
        lookup_text(s.push(e), k) == (if lookup_text(s, k) is Some {
            lookup_text(s, k)
        } else if e.0 == k {
            Some(e.1)
        } else {
            None::<Seq<u8>>
        }),
    decreases s,
{
    if s.len() == 0 {
        assert(s.push(e).drop_first() =~= Seq::<(Seq<char>, Seq<u8>)>::empty());
    } else {
        assert(s.push(e).drop_first() =~= s.drop_first().push(e));
        lemma_lookup_push(s.drop_first(), e, k);
    }
}

/// Looking up after removing the only entry with key `s[i].0`: that key is
/// gone; every other key is untouched.
pub proof fn lemma_lookup_remove(s: Seq<(Seq<char>, Seq<u8>)>, i: int, k: Seq<char>)
    requires
        0 <= i < s.len(),
        forall|a: int, b: int| 0 <= a < b < s.len() ==> (#[trigger] s[a]).0 != (#[trigger] s[b]).0,
    ensures
        lookup_text(s.remove(i), k) == (if k == s[i].0 {
            None::<Seq<u8>>
        } else {
            lookup_text(s, k)
        }),
    decreases i,
{
    if i == 0 {
        assert(s.remove(0) =~= s.drop_first());
        if k == s[0].0 {
            lemma_lookup_membership(s.drop_first(), k);
            if lookup_text(s.drop_first(), k) is Some {
                let j = choose|j: int|
                    0 <= j < s.drop_first().len() && (#[trigger] s.drop_first()[j]).0 == k;
                assert(s[0].0 == s[j + 1].0);
            }
        }
    } else {
        assert(s.remove(i).drop_first() =~= s.drop_first().remove(i - 1));
        assert(forall|a: int, b: int|
            0 <= a < b < s.drop_first().len() ==> (#[trigger] s.drop_first()[a]).0 != (
            #[trigger] s.drop_first()[b]).0);
        lemma_lookup_remove(s.drop_first(), i - 1, k);
    }
}

/// Looks a key up in a list of entries.
fn find_entry(list: &Vec<(String, Vec<u8>)>, name: &str) -> (r: Option<usize>)
    ensures
        match r {
            Some(i) => i < list@.len() && list@[i as int].0@ == name@ && (forall|j: int|
                0 <= j < i ==> (#[trigger] list@[j]).0@ != name@),
            None => forall|j: int| 0 <= j < list@.len() ==> (#[trigger] list@[j]).0@ != name@,
        },
{
    let mut i: usize = 0;
    while i < list.len()
        invariant
            i <= list@.len(),
            forall|j: int| 0 <= j < i ==> (#[trigger] list@[j]).0@ != name@,
        decreases list@.len() - i,
    {
        if str_eq(list[i].0.as_str(), name) {
            return Some(i);
        }
        i = i + 1;
    }
    None
}

/// The dynamic module store: the third resolution tier, a name-to-source
/// mapping scoped to one context and written at any time after the context
/// is built. Entries are only ever replaced whole.
#[derive(Debug)]
pub struct DynamicModuleStore {
    entries: Vec<(String, Vec<u8>)>,
}

impl View for DynamicModuleStore {
    type V = Map<Seq<char>, Seq<u8>>;

    closed spec fn view(&self) -> Map<Seq<char>, Seq<u8>> {
        Map::new(
            |k: Seq<char>| lookup_text(entry_views(self.entries@), k) is Some,
            |k: Seq<char>| lookup_text(entry_views(self.entries@), k)->Some_0,
        )
    }
}

impl DynamicModuleStore {
    /// No two entries share a name.
    pub closed spec fn wf(&self) -> bool {
        forall|a: int, b: int|
            0 <= a < b < entry_views(self.entries@).len() ==> (#[trigger] entry_views(
                self.entries@,
            )[a]).0 != (#[trigger] entry_views(self.entries@)[b]).0
    }

    /// Builds an empty store.
    pub fn new() -> (r: DynamicModuleStore)
        ensures
            r.wf(),
            r@ == Map::<Seq<char>, Seq<u8>>::empty(),
    {
        let r = DynamicModuleStore { entries: Vec::new() };
        proof {
            assert(r@ =~= Map::<Seq<char>, Seq<u8>>::empty());
        }
        r
    }

    /// True exactly when `name` is declared.
    pub fn contains(&self, name: &str) -> (r: bool)
        ensures
            r == self@.dom().contains(name@),
    {
        match find_entry(&self.entries, name) {
            Some(i) => {
                proof {
                    lemma_entry_views_index(self.entries@, i as int);
                    lemma_lookup_membership(entry_views(self.entries@), name@);
                }
                true
            },
            None => {
                proof {
                    lemma_entry_views_len(self.entries@);
                    assert forall|j: int| 0 <= j < entry_views(self.entries@).len() implies (
                    #[trigger] entry_views(self.entries@)[j]).0 != name@ by {
                        lemma_entry_views_index(self.entries@, j);
                    }
                    lemma_lookup_membership(entry_views(self.entries@), name@);
                }
                false
            },
        }
    }

    /// The source declared under `name`, if any.
    pub fn get(&self, name: &str) -> (r: Option<&Vec<u8>>)
        ensures
            match r {
                Some(b) => self@.dom().contains(name@) && self@[name@] == b@,
                None => !self@.dom().contains(name@),
            },
    {
        match find_entry(&self.entries, name) {
            Some(i) => {
                proof {
                    lemma_entry_views_index(self.entries@, i as int);
                    lemma_lookup_membership(entry_views(self.entries@), name@);
                    assert forall|j: int| 0 <= j < i implies (#[trigger] entry_views(
                        self.entries@,
                    )[j]).0 != name@ by {
                        lemma_entry_views_index(self.entries@, j);
                    }
                    lemma_lookup_first_match(entry_views(self.entries@), i as int, name@);
                }
                Some(&self.entries[i].1)
            },
            None => {
                proof {
                    lemma_entry_views_len(self.entries@);
                    assert forall|j: int| 0 <= j < entry_views(self.entries@).len() implies (
                    #[trigger] entry_views(self.entries@)[j]).0 != name@ by {
                        lemma_entry_views_index(self.entries@, j);
                    }
                    lemma_lookup_membership(entry_views(self.entries@), name@);
                }
                None
            },
        }
    }

    /// Declares `name` with `source`, replacing any previous declaration
    /// whole.
    pub fn insert(&mut self, name: String, source: Vec<u8>)
        requires
            old(self).wf(),
        ensures
            final(self).wf(),
            final(self)@ == old(self)@.insert(name@, source@),
    {
        let found = find_entry(&self.entries, name.as_str());
        let ghost before = entry_views(self.entries@);
        if let Some(i) = found {
            proof {
                lemma_entry_views_len(self.entries@);
            }
            self.entries.remove(i);
            proof {
                lemma_entry_views_len(self.entries@);
                assert forall|j: int| 0 <= j < entry_views(self.entries@).len() implies
                    #[trigger] entry_views(self.entries@)[j] == before.remove(i as int)[j] by {
                    lemma_entry_views_index(self.entries@, j);
                    if j < i {
                        lemma_entry_views_index(old(self).entries@, j);
                    } else {
                        lemma_entry_views_index(old(self).entries@, j + 1);
                    }
                }
                assert(entry_views(self.entries@) =~= before.remove(i as int));
            }
        }
        let ghost mid_entries = self.entries@;
        let ghost mid = entry_views(self.entries@);
        proof {
            lemma_entry_views_len(self.entries@);
            if found is None {
                assert forall|j: int| 0 <= j < mid.len() implies (#[trigger] mid[j]).0 != name@ by {
                    lemma_entry_views_index(self.entries@, j);
                }
            } else {
                let i = found->Some_0 as int;
                lemma_entry_views_index(old(self).entries@, i);
                assert forall|j: int| 0 <= j < mid.len() implies (#[trigger] mid[j]).0 != name@ by {
                    if j < i {
                        lemma_entry_views_index(old(self).entries@, j);
                    } else {
                        lemma_entry_views_index(old(self).entries@, j + 1);
                    }
                }
            }
            lemma_lookup_membership(mid, name@);
        }
        let ghost pushed = (name@, source@);
        self.entries.push((name, source));
        proof {
            let after = entry_views(self.entries@);
            lemma_entry_views_len(self.entries@);
            assert forall|j: int| 0 <= j < after.len() implies #[trigger] after[j] == mid.push(
                pushed,
            )[j] by {
                lemma_entry_views_index(self.entries@, j);
                if j < mid.len() {
                    lemma_entry_views_index(mid_entries, j);
                    assert(self.entries@[j] == mid_entries[j]);
                }
            }
            assert(after =~= mid.push(pushed));
            assert(final(self).wf()) by {
                assert forall|a: int, b: int|
                    0 <= a < b < after.len() implies (#[trigger] after[a]).0 != (
                #[trigger] after[b]).0 by {
                    if b == after.len() - 1 {
                        assert(after[b].0 == name@);
                    }
                }
            }
            assert forall|k: Seq<char>| true implies #[trigger] lookup_text(after, k) == (if k
                == name@ {
                Some(source@)
            } else {
                lookup_text(before, k)
            }) by {
                lemma_lookup_push(mid, pushed, k);
                if found is Some {
                    lemma_lookup_remove(before, found->Some_0 as int, k);
                }
                lemma_lookup_membership(mid, k);
            }
            assert(final(self)@ =~= old(self)@.insert(name@, source@));
        }
    }

    /// Removes every declaration.
    pub fn clear(&mut self)
        ensures
            final(self).wf(),
            final(self)@ == Map::<Seq<char>, Seq<u8>>::empty(),
    {
        self.entries = Vec::new();
        proof {
            assert(self@ =~= Map::<Seq<char>, Seq<u8>>::empty());
        }
    }

    /// The declared names, each exactly once.
    pub fn names(&self) -> (r: Vec<String>)
        requires
            self.wf(),
        ensures
            forall|i: int| 0 <= i < r@.len() ==> self@.dom().contains((#[trigger] r@[i])@),
            forall|k: Seq<char>| self@.dom().contains(k) ==> contains_text(str_views(r@), k),
            forall|a: int, b: int| 0 <= a < b < r@.len() ==> (#[trigger] r@[a])@ != (
                #[trigger] r@[b])@,
    {
        let mut out: Vec<String> = Vec::new();
        let mut i: usize = 0;
        while i < self.entries.len()
            invariant
                i <= self.entries@.len(),
                out@.len() == i,
                forall|j: int| 0 <= j < i ==> (#[trigger] out@[j])@ == self.entries@[j].0@,
            decreases self.entries@.len() - i,
        {
            out.push(self.entries[i].0.clone());
            i = i + 1;
        }
        proof {
            let ev = entry_views(self.entries@);
            lemma_entry_views_len(self.entries@);
            assert forall|j: int| 0 <= j < out@.len() implies self@.dom().contains(
                (#[trigger] out@[j])@,
            ) by {
                lemma_entry_views_index(self.entries@, j);
                lemma_lookup_membership(ev, out@[j]@);
            }
            assert forall|k: Seq<char>| self@.dom().contains(k) implies contains_text(
                str_views(out@),
                k,
            ) by {
                lemma_lookup_membership(ev, k);
                let j = choose|j: int| 0 <= j < ev.len() && (#[trigger] ev[j]).0 == k;
                lemma_entry_views_index(self.entries@, j);
                lemma_str_views_index(out@, j);
                assert(str_views(out@)[j] == k);
            }
            assert forall|a: int, b: int| 0 <= a < b < out@.len() implies (#[trigger] out@[a])@
                != (#[trigger] out@[b])@ by {
                lemma_entry_views_index(self.entries@, a);
                lemma_entry_views_index(self.entries@, b);
            }
        }
        out
    }
}

/// The entry at the first matching index is the lookup result.
pub proof fn lemma_lookup_first_match(s: Seq<(Seq<char>, Seq<u8>)>, i: int, k: Seq<char>)
    requires
        0 <= i < s.len(),
        s[i].0 == k,
        forall|j: int| 0 <= j < i ==> (#[trigger] s[j]).0 != k,
    ensures
        lookup_text(s, k) == Some(s[i].1),
    decreases i,
{
    if i > 0 {
        lemma_lookup_first_match(s.drop_first(), i - 1, k);
    }
}

/// The tier-three resolver: answers for a specifier exactly when the
/// context's dynamic store declares it, and otherwise falls through so a
/// later resolver may try.
#[derive(Debug, Default)]
pub struct DynamicModuleResolver {}

impl DynamicModuleResolver {
    /// Resolves against the dynamic store. `None` means "not mine": the
    /// miss falls through instead of raising.
    pub fn resolve(&self, store: Option<&DynamicModuleStore>, base: &str, name: &str) -> (r:
        Option<String>)
        ensures
            r is Some <==> (store matches Some(st) && st@.dom().contains(name@)),
            r matches Some(s) ==> s@ == name@,
    {
        let _ = base;
        match store {
            Some(st) => {
                if st.contains(name) {
                    Some(name.to_owned())
                } else {
                    None
                }
            },
            None => None,
        }
    }
}

/// The tier-three loader: hands out the stored source of a dynamically
/// declared module, and otherwise falls through.
#[derive(Debug, Default)]
pub struct DynamicModuleLoader {}

impl DynamicModuleLoader {
    /// Loads from the dynamic store. `None` means "not mine": the miss
    /// falls through instead of raising.
    pub fn load(&self, store: Option<&DynamicModuleStore>, name: &str) -> (r: Option<Vec<u8>>)
        ensures
            r is Some <==> (store matches Some(st) && st@.dom().contains(name@)),
            r matches Some(b) ==> (store matches Some(st) && b@ == st@[name@]),
    {
        match store {
            Some(st) => match st.get(name) {
                Some(bytes) => Some(bytes.clone()),
                None => None,
            },
            None => None,
        }
    }
}

/// Per-context state the engine carries as context-local data: whether the
/// one-time global attachment has run, the attached module names, and the
/// context's dynamic module store.
#[derive(Debug)]
pub struct ContextLocals {
    /// Whether the global attachment's initializers have run.
    pub attached: bool,
    /// The module names the attachment recorded, once attached.
    pub module_names: Option<ModuleNames>,
    /// The context's dynamic module store, created with the context.
    pub store: Option<DynamicModuleStore>,
}

impl ContextLocals {
    /// Fresh context state without a dynamic store.
    pub fn new() -> (r: ContextLocals)
        ensures
            !r.attached,
            r.module_names is None,
            r.store is None,
    {
        ContextLocals { attached: false, module_names: None, store: None }
    }

    /// Fresh context state with an empty dynamic store, as a context is
    /// built.
    pub fn with_store() -> (r: ContextLocals)
        ensures
            !r.attached,
            r.module_names is None,
            r.store matches Some(st) && st.wf() && st@ == Map::<Seq<char>, Seq<u8>>::empty(),
    {
        ContextLocals { attached: false, module_names: None, store: Some(DynamicModuleStore::new()) }
    }
}

/// An immutable bundle of module names and initializer callbacks, attached
/// to each context at most once. The callbacks themselves live at the
/// engine boundary; here each is only counted, and [`GlobalAttachment::attach`]
/// says whether the caller must run them now.
#[derive(Debug)]
pub struct GlobalAttachment {
    names: Vec<String>,
    initializers: usize,
}

impl GlobalAttachment {
    /// The attached module names.
    pub closed spec fn names_view(&self) -> Seq<Seq<char>> {
        str_views(self.names@)
    }

    /// How many initializer callbacks are registered.
    pub closed spec fn initializer_count(&self) -> int {
        self.initializers as int
    }

    /// Builds an empty attachment.
    pub fn new() -> (r: GlobalAttachment)
        ensures
            r.names_view() == Seq::<Seq<char>>::empty(),
            r.initializer_count() == 0,
    {
        GlobalAttachment { names: Vec::new(), initializers: 0 }
    }

    /// Registers one more initializer callback; the caller keeps the
    /// callable itself beside this bundle.
    #[must_use]
    pub fn add_function(self) -> (r: GlobalAttachment)
        requires
            self.initializer_count() < usize::MAX,
        ensures
            r.names_view() == self.names_view(),
            r.initializer_count() == self.initializer_count() + 1,
    {
        GlobalAttachment { names: self.names, initializers: self.initializers + 1 }
    }

    /// Adds a module name to the attachment.
    #[must_use]
    pub fn add_name(self, path: String) -> (r: GlobalAttachment)
        ensures
            r.names_view() == self.names_view().push(path@),
            r.initializer_count() == self.initializer_count(),
    {
        let mut names = self.names;
        let ghost before = names@;
        proof {
            lemma_str_views_push(names@, path);
        }
        names.push(path);
        proof {
            assert(names@ =~= before.push(names@[before.len() as int]));
            lemma_str_views_push_eq(before, names@);
        }
        GlobalAttachment { names, initializers: self.initializers }
    }

    /// Attaches to a context: a no-op when the context is already attached,
    /// and otherwise marks it attached and records the module names. The
    /// result says whether the caller must now run each registered
    /// initializer, exactly once; so the initializers run at most once per
    /// context however often this is called.
    pub fn attach(&self, locals: &mut ContextLocals) -> (run: bool)
        ensures
            run == !old(locals).attached,
            final(locals).attached,
            final(locals).store == old(locals).store,
            !run ==> *final(locals) == *old(locals),
            run ==> (if self.names_view().len() == 0 {
                final(locals).module_names == old(locals).module_names
            } else {
                final(locals).module_names matches Some(m) && m@ == self.names_view()
            }),
    {
        if locals.attached {
            return false;
        }
        locals.attached = true;
        if self.names.len() > 0 {
            let mut copy: Vec<String> = Vec::new();
            let mut i: usize = 0;
            while i < self.names.len()
                invariant
                    i <= self.names@.len(),
                    copy@.len() == i,
                    forall|j: int| 0 <= j < i ==> (#[trigger] copy@[j])@ == self.names@[j]@,
                decreases self.names@.len() - i,
            {
                copy.push(self.names[i].clone());
                i = i + 1;
            }
            proof {
                lemma_str_views_len(copy@);
                lemma_str_views_len(self.names@);
                assert forall|j: int| 0 <= j < copy@.len() implies #[trigger] str_views(copy@)[j]
                    == str_views(self.names@)[j] by {
                    lemma_str_views_index(copy@, j);
                    lemma_str_views_index(self.names@, j);
                }
                assert(str_views(copy@) =~= str_views(self.names@));
            }
            locals.module_names = Some(ModuleNames::new(copy));
        } else {
            proof {
                lemma_str_views_len(self.names@);
            }
        }
        true
    }
}

/// The set of built-in units the engine-side loader serves, by name. The
/// units' code lives at the engine boundary; the registry tracks which
/// names it may claim.
#[derive(Debug)]
pub struct ModuleUnits {
    names: Vec<String>,
}

impl View for ModuleUnits {
    type V = Seq<Seq<char>>;

    closed spec fn view(&self) -> Seq<Seq<char>> {
        str_views(self.names@)
    }
}

impl ModuleUnits {
    /// Builds an empty unit set.
    pub fn new() -> (r: ModuleUnits)
        ensures
            r@ == Seq::<Seq<char>>::empty(),
    {
        ModuleUnits { names: Vec::new() }
    }

    /// Registers a unit name.
    #[must_use]
    pub fn add(self, name: String) -> (r: ModuleUnits)
        ensures
            r@ == self@.push(name@),
    {
        let mut names = self.names;
        let ghost before = names@;
        proof {
            lemma_str_views_push(names@, name);
        }
        names.push(name);
        proof {
            assert(names@ =~= before.push(names@[before.len() as int]));
            lemma_str_views_push_eq(before, names@);
        }
        ModuleUnits { names }
    }

    /// True exactly when a unit of this exact name is registered.
    pub fn has(&self, name: &str) -> (r: bool)
        ensures
            r == contains_text(self@, name@),
    {
        match find_name(&self.names, name) {
            Some(i) => {
                proof {
                    lemma_str_views_index(self.names@, i as int);
                }
                true
            },
            None => false,
        }
    }
}

/// True when a unit flag is switched on.
pub open spec fn spec_flag_on(o: Option<bool>) -> bool {
    o == Some(true)
}


/// Assembles a runtime's module configuration: the tier-one resolver, the
/// engine-side unit set it names, and the global attachment.
#[derive(Debug)]
pub struct ModuleBuilder {
    module_resolver: ModuleResolver,
    module_loader: ModuleUnits,
    global_attachment: GlobalAttachment,
}

impl ModuleBuilder {
    /// The names the tier-one resolver will claim.
    pub closed spec fn resolver_names(&self) -> Seq<Seq<char>> {
        self.module_resolver@
    }

    /// The names the engine-side unit loader will serve.
    pub closed spec fn unit_names(&self) -> Seq<Seq<char>> {
        self.module_loader@
    }

    /// The names the global attachment will record per context.
    pub closed spec fn attachment_names(&self) -> Seq<Seq<char>> {
        self.global_attachment.names_view()
    }

    /// How many global initializers are registered.
    pub closed spec fn global_count(&self) -> int {
        self.global_attachment.initializer_count()
    }

    /// Builds an empty configuration.
    pub fn new() -> (r: ModuleBuilder)
        ensures
            r.resolver_names() == Seq::<Seq<char>>::empty(),
            r.unit_names() == Seq::<Seq<char>>::empty(),
            r.attachment_names() == Seq::<Seq<char>>::empty(),
            r.global_count() == 0,
    {
        ModuleBuilder {
            module_resolver: ModuleResolver::new(),
            module_loader: ModuleUnits::new(),
            global_attachment: GlobalAttachment::new(),
        }
    }

    /// Registers one built-in unit: the resolver claims its name, the unit
    /// set serves it, and the attachment records it.
    #[must_use]
    pub fn with_module(self, name: String) -> (r: ModuleBuilder)
        ensures
            r.resolver_names() == self.resolver_names().push(name@),
            r.unit_names() == self.unit_names().push(name@),
            r.attachment_names() == self.attachment_names().push(name@),
            r.global_count() == self.global_count(),
    {
        let name2 = name.clone();
        let name3 = name.clone();
        ModuleBuilder {
            module_resolver: self.module_resolver.add_name(name2),
            module_loader: self.module_loader.add(name3),
            global_attachment: self.global_attachment.add_name(name),
        }
    }

    /// Registers one global initializer; the caller keeps the callable
    /// itself beside the built configuration.
    #[must_use]
    pub fn with_global(self) -> (r: ModuleBuilder)
        requires
            self.global_count() < usize::MAX,
        ensures
            r.resolver_names() == self.resolver_names(),
            r.unit_names() == self.unit_names(),
            r.attachment_names() == self.attachment_names(),
            r.global_count() == self.global_count() + 1,
    {
        ModuleBuilder {
            module_resolver: self.module_resolver,
            module_loader: self.module_loader,
            global_attachment: self.global_attachment.add_function(),
        }
    }

    /// Hands the finished configuration out.
    pub fn build(self) -> (r: (ModuleResolver, ModuleUnits, GlobalAttachment))
        ensures
            r.0@ == self.resolver_names(),
            r.1@ == self.unit_names(),
            r.2.names_view() == self.attachment_names(),
            r.2.initializer_count() == self.global_count(),
    {
        (self.module_resolver, self.module_loader, self.global_attachment)
    }
}

/// The unit names this group of flags contributes, appended to `s`.
pub open spec fn spec_units_core(o: crate::source::JsBuiltinOptions, s: Seq<Seq<char>>) -> Seq<
    Seq<char>,
> {
    let s = if spec_flag_on(o.assert) {
        s.push("assert"@)
    } else {
        s
    };
    let s = if spec_flag_on(o.async_hooks) {
        s.push("async_hooks"@)
    } else {
        s
    };
    let s = if spec_flag_on(o.buffer) {
        s.push("buffer"@)
    } else {
        s
    };
    let s = if spec_flag_on(o.child_process) {
        s.push("child_process"@)
    } else {
        s
    };
    let s = if spec_flag_on(o.console) {
        s.push("console"@)
    } else {
        s
    };
    let s = if spec_flag_on(o.crypto) {
        s.push("crypto"@)
    } else {
        s
    };
    s
}

/// How many global initializers this group of flags contributes, added to
/// `n`.
pub open spec fn spec_globals_core(o: crate::source::JsBuiltinOptions, n: int) -> int {
    let n = if spec_flag_on(o.abort) {
        n + 1
    } else {
        n
    };
    let n = if spec_flag_on(o.async_hooks) {
        n + 1
    } else {
        n
    };
    let n = if spec_flag_on(o.buffer) {
        n + 1
    } else {
        n
    };
    let n = if spec_flag_on(o.console) {
        n + 1
    } else {
        n
    };
    let n = if spec_flag_on(o.crypto) {
        n + 1
    } else {
        n
    };
    n
}

/// The unit names this group of flags contributes, appended to `s`.
pub open spec fn spec_units_platform(o: crate::source::JsBuiltinOptions, s: Seq<Seq<char>>) -> Seq<
    Seq<char>,
> {
    let s = if spec_flag_on(o.dns) {
        s.push("dns"@)
    } else {
        s
    };
    let s = if spec_flag_on(o.events) {
        s.push("events"@)
    } else {
        s
    };
    let s = if spec_flag_on(o.fs) {
        s.push("fs/promises"@).push("fs"@)
    } else {
        s
    };
    let s = if spec_flag_on(o.net) {
        s.push("net"@)
    } else {
        s
    };
    s
}

/// How many global initializers this group of flags contributes, added to
/// `n`.
pub open spec fn spec_globals_platform(o: crate::source::JsBuiltinOptions, n: int) -> int {
    let n = if spec_flag_on(o.events) {
        n + 1
    } else {
        n
    };
    let n = if spec_flag_on(o.exceptions) {
        n + 1
    } else {
        n
    };
    let n = if spec_flag_on(o.fetch) {
        n + 1
    } else {
        n
    };
    let n = if spec_flag_on(o.navigator) {
        n + 1
    } else {
        n
    };
    n
}

/// The unit names this group of flags contributes, appended to `s`.
pub open spec fn spec_units_system(o: crate::source::JsBuiltinOptions, s: Seq<Seq<char>>) -> Seq<
    Seq<char>,
> {
    let s = if spec_flag_on(o.os) {
        s.push("os"@)
    } else {
        s
    };
    let s = if spec_flag_on(o.path) {
        s.push("path"@)
    } else {
        s
    };
    let s = if spec_flag_on(o.perf_hooks) {
        s.push("perf_hooks"@)
    } else {
        s
    };
    let s = if spec_flag_on(o.process) {
        s.push("process"@)
    } else {
        s
    };
    let s = if spec_flag_on(o.stream_web) {
        s.push("stream_web"@)
    } else {
        s
    };
    let s = if spec_flag_on(o.string_decoder) {
        s.push("string_decoder"@)
    } else {
        s
    };
    s
}

/// How many global initializers this group of flags contributes, added to
/// `n`.
pub open spec fn spec_globals_system(o: crate::source::JsBuiltinOptions, n: int) -> int {
    let n = if spec_flag_on(o.perf_hooks) {
        n + 1
    } else {
        n
    };
    let n = if spec_flag_on(o.process) {
        n + 1
    } else {
        n
    };
    let n = if spec_flag_on(o.stream_web) {
        n + 1
    } else {
        n
    };
    n
}

/// The unit names this group of flags contributes, appended to `s`.
pub open spec fn spec_units_web(o: crate::source::JsBuiltinOptions, s: Seq<Seq<char>>) -> Seq<
    Seq<char>,
> {
    let s = if spec_flag_on(o.timers) {
        s.push("timers"@)
    } else {
        s
    };
    let s = if spec_flag_on(o.tty) {
        s.push("tty"@)
    } else {
        s
    };
    let s = if spec_flag_on(o.url) {
        s.push("url"@)
    } else {
        s
    };
    let s = if spec_flag_on(o.util) {
        s.push("util"@)
    } else {
        s
    };
    let s = if spec_flag_on(o.zlib) {
        s.push("zlib"@)
    } else {
        s
    };
    s
}

/// How many global initializers this group of flags contributes, added to
/// `n`.
pub open spec fn spec_globals_web(o: crate::source::JsBuiltinOptions, n: int) -> int {
    let n = if spec_flag_on(o.timers) {
        n + 1
    } else {
        n
    };
    let n = if spec_flag_on(o.url) {
        n + 1
    } else {
        n
    };
    let n = if spec_flag_on(o.util) {
        n + 1
    } else {
        n
    };
    let n = if spec_flag_on(o.json) {
        n + 1
    } else {
        n
    };
    n
}

/// The built-in unit names a set of options enables, in registration order.
pub open spec fn spec_builtin_unit_names(o: crate::source::JsBuiltinOptions) -> Seq<Seq<char>> {
    spec_units_web(o, spec_units_system(o, spec_units_platform(o, spec_units_core(o, Seq::empty()))))
}

/// How many global initializers a set of options enables.
pub open spec fn spec_builtin_global_count(o: crate::source::JsBuiltinOptions) -> int {
    spec_globals_web(o, spec_globals_system(o, spec_globals_platform(o, spec_globals_core(o, 0))))
}

/// Registers this group of built-in units on the builder.
fn builtin_group_core(o: &crate::source::JsBuiltinOptions, b: ModuleBuilder) -> (r:
    ModuleBuilder)
    requires
        b.global_count() + 16 < usize::MAX,
    ensures
        r.unit_names() == spec_units_core(*o, b.unit_names()),
        r.resolver_names() == spec_units_core(*o, b.resolver_names()),
        r.attachment_names() == spec_units_core(*o, b.attachment_names()),
        r.global_count() == spec_globals_core(*o, b.global_count()),
        r.global_count() <= b.global_count() + 16,
{
    let mut b = b;
    if o.abort.unwrap_or(false) {
        b = b.with_global();
    }
    if o.assert.unwrap_or(false) {
        b = b.with_module(String::from_str("assert"));
    }
    if o.async_hooks.unwrap_or(false) {
        b = b.with_global();
        b = b.with_module(String::from_str("async_hooks"));
    }
    if o.buffer.unwrap_or(false) {
        b = b.with_global();
        b = b.with_module(String::from_str("buffer"));
    }
    if o.child_process.unwrap_or(false) {
        b = b.with_module(String::from_str("child_process"));
    }
    if o.console.unwrap_or(false) {
        b = b.with_global();
        b = b.with_module(String::from_str("console"));
    }
    if o.crypto.unwrap_or(false) {
        b = b.with_global();
        b = b.with_module(String::from_str("crypto"));
    }
    b
}

/// Registers this group of built-in units on the builder.
fn builtin_group_platform(o: &crate::source::JsBuiltinOptions, b: ModuleBuilder) -> (r:
    ModuleBuilder)
    requires
        b.global_count() + 16 < usize::MAX,
    ensures
        r.unit_names() == spec_units_platform(*o, b.unit_names()),
        r.resolver_names() == spec_units_platform(*o, b.resolver_names()),
        r.attachment_names() == spec_units_platform(*o, b.attachment_names()),
        r.global_count() == spec_globals_platform(*o, b.global_count()),
        r.global_count() <= b.global_count() + 16,
{
    let mut b = b;
    if o.dns.unwrap_or(false) {
        b = b.with_module(String::from_str("dns"));
    }
    if o.events.unwrap_or(false) {
        b = b.with_global();
        b = b.with_module(String::from_str("events"));
    }
    if o.exceptions.unwrap_or(false) {
        b = b.with_global();
    }
    if o.fetch.unwrap_or(false) {
        b = b.with_global();
    }
    if o.fs.unwrap_or(false) {
        b = b.with_module(String::from_str("fs/promises"));
        b = b.with_module(String::from_str("fs"));
    }
    if o.navigator.unwrap_or(false) {
        b = b.with_global();
    }
    if o.net.unwrap_or(false) {
        b = b.with_module(String::from_str("net"));
    }
    b
}

/// Registers this group of built-in units on the builder.
fn builtin_group_system(o: &crate::source::JsBuiltinOptions, b: ModuleBuilder) -> (r:
    ModuleBuilder)
    requires
        b.global_count() + 16 < usize::MAX,
    ensures
        r.unit_names() == spec_units_system(*o, b.unit_names()),
        r.resolver_names() == spec_units_system(*o, b.resolver_names()),
        r.attachment_names() == spec_units_system(*o, b.attachment_names()),
        r.global_count() == spec_globals_system(*o, b.global_count()),
        r.global_count() <= b.global_count() + 16,
{
    let mut b = b;
    if o.os.unwrap_or(false) {
        b = b.with_module(String::from_str("os"));
    }
    if o.path.unwrap_or(false) {
        b = b.with_module(String::from_str("path"));
    }
    if o.perf_hooks.unwrap_or(false) {
        b = b.with_global();
        b = b.with_module(String::from_str("perf_hooks"));
    }
    if o.process.unwrap_or(false) {
        b = b.with_global();
        b = b.with_module(String::from_str("process"));
    }
    if o.stream_web.unwrap_or(false) {
        b = b.with_global();
        b = b.with_module(String::from_str("stream_web"));
    }
    if o.string_decoder.unwrap_or(false) {
        b = b.with_module(String::from_str("string_decoder"));
    }
    b
}

/// Registers this group of built-in units on the builder.
fn builtin_group_web(o: &crate::source::JsBuiltinOptions, b: ModuleBuilder) -> (r:
    ModuleBuilder)
    requires
        b.global_count() + 16 < usize::MAX,
    ensures
        r.unit_names() == spec_units_web(*o, b.unit_names()),
        r.resolver_names() == spec_units_web(*o, b.resolver_names()),
        r.attachment_names() == spec_units_web(*o, b.attachment_names()),
        r.global_count() == spec_globals_web(*o, b.global_count()),
        r.global_count() <= b.global_count() + 16,
{
    let mut b = b;
    if o.timers.unwrap_or(false) {
        b = b.with_global();
        b = b.with_module(String::from_str("timers"));
    }
    if o.tty.unwrap_or(false) {
        b = b.with_module(String::from_str("tty"));
    }
    if o.url.unwrap_or(false) {
        b = b.with_global();
        b = b.with_module(String::from_str("url"));
    }
    if o.util.unwrap_or(false) {
        b = b.with_global();
        b = b.with_module(String::from_str("util"));
    }
    if o.zlib.unwrap_or(false) {
        b = b.with_module(String::from_str("zlib"));
    }
    if o.json.unwrap_or(false) {
        b = b.with_global();
    }
    b
}

impl crate::source::JsBuiltinOptions {
    /// Turns the unit flags into a module configuration: each enabled unit
    /// is registered under its names, in a fixed order, and each enabled
    /// global contributes one initializer.
    pub fn to_module_builder(&self) -> (r: ModuleBuilder)
        ensures
            r.resolver_names() == spec_builtin_unit_names(*self),
            r.unit_names() == spec_builtin_unit_names(*self),
            r.attachment_names() == spec_builtin_unit_names(*self),
            r.global_count() == spec_builtin_global_count(*self),
    {
        let b = ModuleBuilder::new();
        let b = builtin_group_core(self, b);
        let b = builtin_group_platform(self, b);
        let b = builtin_group_system(self, b);
        let b = builtin_group_web(self, b);
        b
    }
}

/// The composed module registry: the tier-one resolver and unit set, the
/// tier-two preloaded additional modules, and — per call — the consulting
/// context's tier-three dynamic store.
#[derive(Debug)]
pub struct ModuleRegistry {
    /// The tier-one resolver over built-in unit names.
    pub builtin: ModuleResolver,
    /// The engine-side units the tier-one loader serves.
    pub units: ModuleUnits,
    /// The tier-two preloaded modules, resolved once at startup.
    pub additional: DynamicModuleStore,
}

/// What loading a canonical module name yields: an engine-native unit, or
/// source text to declare.
#[derive(Debug)]
pub enum ModuleSource {
    /// The module is an engine-native built-in unit; the engine loads it by
    /// name.
    Native,
    /// The module is source text.
    Text(Vec<u8>),
}

impl ModuleRegistry {
    /// Resolves a specifier through the tiers in order: built-in units
    /// (after stripping the `node:` prefix), then preloaded additional
    /// modules, then the context's dynamic store. Only when every tier
    /// misses does resolution fail, as a `Module` error naming the
    /// specifier.
    pub fn resolve(&self, store: Option<&DynamicModuleStore>, base: &str, name: &str) -> (r:
        Result<String, JsError>)
        ensures
            contains_text(self.builtin@, strip_node_prefix(name@)) ==> (r matches Ok(s) && s@
                == strip_node_prefix(name@)),
            (!contains_text(self.builtin@, strip_node_prefix(name@)) && self.additional@.dom()
                .contains(name@)) ==> (r matches Ok(s) && s@ == name@),
            (!contains_text(self.builtin@, strip_node_prefix(name@)) && !self.additional@.dom()
                .contains(name@) && (store matches Some(st) && st@.dom().contains(name@))) ==> (
            r matches Ok(s) && s@ == name@),
            (r is Err) <==> (!contains_text(self.builtin@, strip_node_prefix(name@))
                && !self.additional@.dom().contains(name@) && !(store matches Some(st)
                && st@.dom().contains(name@))),
            r matches Err(e) ==> (e matches JsError::Module { module, method, message } && module
                matches Some(n) && n@ == name@ && method is None && message@
                == "module not found"@),
    {
        if self.builtin.can_resolve(name) {
            match self.builtin.resolve(base, name) {
                Ok(s) => Ok(s),
                Err(e) => Err(e),
            }
        } else if self.additional.contains(name) {
            Ok(name.to_owned())
        } else {
            let dynamic = DynamicModuleResolver {  };
            match dynamic.resolve(store, base, name) {
                Some(s) => Ok(s),
                None => Err(
                    JsError::Module {
                        module: Some(name.to_owned()),
                        method: None,
                        message: String::from_str("module not found"),
                    },
                ),
            }
        }
    }

    /// Loads a canonical module name through the tiers in order: an
    /// engine-native unit, then a preloaded additional module, then the
    /// context's dynamic store. Only when every tier misses does loading
    /// fail, as a `Module` error naming the module.
    pub fn load(&self, store: Option<&DynamicModuleStore>, name: &str) -> (r: Result<
        ModuleSource,
        JsError,
    >)
        ensures
            contains_text(self.units@, name@) ==> (r matches Ok(m) && m is Native),
            (!contains_text(self.units@, name@) && self.additional@.dom().contains(name@)) ==> (
            r matches Ok(m) && m matches ModuleSource::Text(b) && b@ == self.additional@[name@]),
            (!contains_text(self.units@, name@) && !self.additional@.dom().contains(name@) && (
            store matches Some(st) && st@.dom().contains(name@))) ==> (r matches Ok(m) && (
            m matches ModuleSource::Text(b) && store matches Some(st) && b@ == st@[name@])),
            (r is Err) <==> (!contains_text(self.units@, name@) && !self.additional@.dom()
                .contains(name@) && !(store matches Some(st) && st@.dom().contains(name@))),
            r matches Err(e) ==> (e matches JsError::Module { module, method, message } && module
                matches Some(n) && n@ == name@ && method is None && message@
                == "module not found"@),
    {
        if self.units.has(name) {
            Ok(ModuleSource::Native)
        } else if let Some(bytes) = self.additional.get(name) {
            Ok(ModuleSource::Text(bytes.clone()))
        } else {
            let dynamic = DynamicModuleLoader {  };
            match dynamic.load(store, name) {
                Some(bytes) => Ok(ModuleSource::Text(bytes)),
                None => Err(
                    JsError::Module {
                        module: Some(name.to_owned()),
                        method: None,
                        message: String::from_str("module not found"),
                    },
                ),
            }
        }
    }
}

/// Module lifecycle law: declaring a module makes its name declared with
/// its source; declaring the same name twice keeps the second source; after
/// clearing, no name is declared. The store operations realise these
/// transitions on their map view.
pub proof fn lemma_module_lifecycle(
    m: Map<Seq<char>, Seq<u8>>,
    name: Seq<char>,
    src1: Seq<u8>,
    src2: Seq<u8>,
)
    ensures
        m.insert(name, src1).dom().contains(name),
        m.insert(name, src1)[name] == src1,
        m.insert(name, src1).insert(name, src2) == m.insert(name, src2),
        forall|k: Seq<char>| !(#[trigger] Map::<Seq<char>, Seq<u8>>::empty().dom().contains(k)),
{
    assert(m.insert(name, src1).insert(name, src2) =~= m.insert(name, src2));
}

} // verus!
