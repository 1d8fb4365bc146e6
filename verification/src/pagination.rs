//! Hierarchical pagination policy: a tree keyed by command-path segment.
//! Resolution walks the requested path and yields the most specific non-auto
//! decision, treating `auto` nodes as transparent pass-through.

use vstd::prelude::*;

use crate::choice::PaginationChoice;
use crate::config::{CommandError, ConfigField, ConfigValue, UiConfig, value_wf};

verus! {

/// A pagination policy node: its own default choice and the overriding
/// policies of child commands, keyed by command name.
#[derive(Debug)]
pub struct Pagination {
    pub default: PaginationChoice,
    pub commands: Vec<(String, Pagination)>,
}

/// The policy bound to `key` in `cmds`: the first binding wins.
pub open spec fn assoc_find(cmds: Seq<(String, Pagination)>, key: Seq<char>) -> Option<Pagination>
    decreases cmds.len(),
{
    if cmds.len() == 0 {
        None
    } else if cmds[0].0@ == key {
        Some(cmds[0].1)
    } else {
        assoc_find(cmds.drop_first(), key)
    }
}

/// One resolution walk, carrying the best decision found so far: a child
/// whose own default is `auto` is transparent, a non-auto child overrides,
/// and the walk stops where no child matches the next segment.
pub open spec fn resolve_from(
    node: Pagination,
    path: Seq<String>,
    best: PaginationChoice,
) -> PaginationChoice
    decreases path.len(),
{
    if path.len() == 0 {
        best
    } else {
        match assoc_find(node.commands@, path[0]@) {
            None => best,
            Some(child) => {
                let next_best = if child.default is Auto {
                    best
                } else {
                    child.default
                };
                resolve_from(child, path.drop_first(), next_best)
            },
        }
    }
}

/// The decision the policy tree `root` yields for a command path.
pub open spec fn resolved_choice(root: Pagination, path: Seq<String>) -> PaginationChoice {
    resolve_from(root, path, root.default)
}

/// The node reached by descending along the whole of `path`, if every
/// segment has a matching child.
pub open spec fn walk(node: Pagination, path: Seq<String>) -> Option<Pagination>
    decreases path.len(),
{
    if path.len() == 0 {
        Some(node)
    } else {
        match assoc_find(node.commands@, path[0]@) {
            None => None,
            Some(child) => walk(child, path.drop_first()),
        }
    }
}

/// Every node of the tree, the root included, has the `auto` default.
pub open spec fn all_auto(p: Pagination) -> bool
    decreases p,
{
    &&& p.default is Auto
    &&& forall|i: int|
        0 <= i < p.commands@.len() ==> all_auto(#[trigger] p.commands@[i].1)
}

/// A policy found by `assoc_find` is one of the bindings of the list, under
/// the key that was looked up.
pub proof fn lemma_assoc_find_mem(cmds: Seq<(String, Pagination)>, key: Seq<char>)
    requires
        assoc_find(cmds, key) is Some,
    ensures
        exists|i: int|
            0 <= i < cmds.len() && (#[trigger] cmds[i]).0@ == key && cmds[i].1 == assoc_find(
                cmds,
                key,
            )->Some_0,
    decreases cmds.len(),
{
    if cmds.len() > 0 && cmds[0].0@ != key {
        lemma_assoc_find_mem(cmds.drop_first(), key);
        let j = choose|j: int|
            0 <= j < cmds.drop_first().len() && (#[trigger] cmds.drop_first()[j]).0@ == key
                && cmds.drop_first()[j].1 == assoc_find(cmds.drop_first(), key)->Some_0;
        assert(cmds[j + 1].0@ == key && cmds[j + 1].1 == assoc_find(cmds, key)->Some_0);
    } else {
        assert(cmds[0].0@ == key && cmds[0].1 == assoc_find(cmds, key)->Some_0);
    }
}

/// In an entirely-`auto` tree the carried decision is never changed.
proof fn lemma_resolve_from_all_auto(
    node: Pagination,
    path: Seq<String>,
    best: PaginationChoice,
)
    requires
        all_auto(node),
    ensures
        resolve_from(node, path, best) == best,
    decreases path.len(),
{
    if path.len() > 0 {
        match assoc_find(node.commands@, path[0]@) {
            None => {},
            Some(child) => {
                lemma_assoc_find_mem(node.commands@, path[0]@);
                assert(all_auto(child));
                lemma_resolve_from_all_auto(child, path.drop_first(), best);
            },
        }
    }
}

/// Law: for every command path, resolution over an entirely-`auto` tree
/// yields the root's own default.
pub proof fn lemma_all_auto_yields_root_default(root: Pagination, path: Seq<String>)
    requires
        all_auto(root),
    ensures
        resolved_choice(root, path) == root.default,
{
    lemma_resolve_from_all_auto(root, path, root.default);
}

/// Composing one walked step: where the first segment matches a child,
/// walking a prefix from the node is walking the shorter prefix from that
/// child.
proof fn lemma_walk_step(node: Pagination, path: Seq<String>, j: int)
    requires
        1 <= j <= path.len(),
        assoc_find(node.commands@, path[0]@) is Some,
    ensures
        walk(node, path.take(j)) == walk(
            assoc_find(node.commands@, path[0]@)->Some_0,
            path.drop_first().take(j - 1),
        ),
{
    assert(path.take(j)[0] == path[0]);
    assert(path.take(j).drop_first() =~= path.drop_first().take(j - 1));
}

/// Where every matched node strictly below carries the `auto` default, the
/// carried decision is the answer.
proof fn lemma_matched_all_auto(node: Pagination, path: Seq<String>, best: PaginationChoice)
    requires
        forall|j: int|
            1 <= j <= path.len() && (#[trigger] walk(node, path.take(j))) is Some ==> (walk(
                node,
                path.take(j),
            )->Some_0).default is Auto,
    ensures
        resolve_from(node, path, best) == best,
    decreases path.len(),
{
    if path.len() > 0 {
        match assoc_find(node.commands@, path[0]@) {
            None => {},
            Some(child) => {
                let rest = path.drop_first();
                assert(path.take(1)[0] == path[0]);
                assert(path.take(1).drop_first() =~= rest.take(0));
                assert(rest.take(0).len() == 0);
                assert(walk(child, rest.take(0)) == Some(child));
                assert(walk(node, path.take(1)) == Some(child));
                assert(child.default is Auto);
                assert forall|j: int|
                    1 <= j <= rest.len() && (#[trigger] walk(child, rest.take(j))) is Some implies (
                walk(child, rest.take(j))->Some_0).default is Auto by {
                    lemma_walk_step(node, path, j + 1);
                }
                lemma_matched_all_auto(child, rest, best);
            },
        }
    }
}

/// The carried decision is overridden exactly by the deepest matched node
/// whose own default is not `auto`.
proof fn lemma_resolve_from_deepest(
    node: Pagination,
    path: Seq<String>,
    best: PaginationChoice,
    k: int,
)
    requires
        0 <= k <= path.len(),
        walk(node, path.take(k)) is Some,
        !((walk(node, path.take(k))->Some_0).default is Auto),
        forall|j: int|
            k < j <= path.len() && (#[trigger] walk(node, path.take(j))) is Some ==> (walk(
                node,
                path.take(j),
            )->Some_0).default is Auto,
        k == 0 ==> best == node.default,
    ensures
        resolve_from(node, path, best) == (walk(node, path.take(k))->Some_0).default,
    decreases path.len(),
{
    if k == 0 {
        assert(path.take(0).len() == 0);
        assert(walk(node, path.take(0)) == Some(node));
        lemma_matched_all_auto(node, path, best);
    } else {
        assert(path.take(k)[0] == path[0]);
        match assoc_find(node.commands@, path[0]@) {
            None => {
                assert(walk(node, path.take(k)) is None);
            },
            Some(child) => {
                let next_best = if child.default is Auto {
                    best
                } else {
                    child.default
                };
                let rest = path.drop_first();
                lemma_walk_step(node, path, k);
                assert forall|j: int|
                    k - 1 < j <= rest.len() && (#[trigger] walk(child, rest.take(j))) is Some implies (
                walk(child, rest.take(j))->Some_0).default is Auto by {
                    lemma_walk_step(node, path, j + 1);
                }
                if k == 1 {
                    assert(rest.take(0).len() == 0);
                    assert(walk(child, rest.take(0)) == Some(child));
                }
                lemma_resolve_from_deepest(child, rest, next_best, k - 1);
            },
        }
    }
}

/// Law: the deepest matched node that carries a non-auto default decides
/// the outcome: every matched node below it is `auto` and so transparent,
/// and no default of a shallower ancestor, auto or not, can override it.
pub proof fn lemma_deepest_matched_override_wins(root: Pagination, path: Seq<String>, k: int)
    requires
        0 <= k <= path.len(),
        walk(root, path.take(k)) is Some,
        !((walk(root, path.take(k))->Some_0).default is Auto),
        forall|j: int|
            k < j <= path.len() && (#[trigger] walk(root, path.take(j))) is Some ==> (walk(
                root,
                path.take(j),
            )->Some_0).default is Auto,
    ensures
        resolved_choice(root, path) == (walk(root, path.take(k))->Some_0).default,
{
    lemma_resolve_from_deepest(root, path, root.default, k);
}

/// Law: where the whole path is present in the tree and the node it ends at
/// carries a non-auto default, that deepest override decides the outcome,
/// whatever defaults its ancestors carry at shallower depth.
pub proof fn lemma_leaf_override_wins(root: Pagination, path: Seq<String>)
    requires
        walk(root, path) is Some,
        !((walk(root, path)->Some_0).default is Auto),
    ensures
        resolved_choice(root, path) == (walk(root, path)->Some_0).default,
{
    assert(path.take(path.len() as int) =~= path);
    lemma_deepest_matched_override_wins(root, path, path.len() as int);
}


/// Whether a string spells a pagination choice.
pub open spec fn is_choice_str(s: Seq<char>) -> bool {
    s == "always"@ || s == "never"@ || s == "auto"@
}

/// The pagination choice a string spells.
pub open spec fn choice_of_str(s: Seq<char>) -> PaginationChoice {
    if s == "always"@ {
        PaginationChoice::Always
    } else if s == "never"@ {
        PaginationChoice::Never
    } else {
        PaginationChoice::Auto
    }
}

/// Whether one binding of a pagination mapping is valid: the reserved
/// `default` key takes a choice string, any other key a nested policy.
pub open spec fn pagination_entry_ok(e: (String, ConfigValue)) -> bool
    decreases e,
{
    if e.0@ == "default"@ {
        e.1 matches ConfigValue::Str(s) && is_choice_str(s@)
    } else {
        pagination_value_ok(e.1)
    }
}

/// Whether a configuration value is a valid pagination policy: a choice
/// string, or a mapping of command names to nested policies.
pub open spec fn pagination_value_ok(v: ConfigValue) -> bool
    decreases v,
{
    match v {
        ConfigValue::Str(s) => is_choice_str(s@),
        ConfigValue::Table(entries) => forall|i: int|
            0 <= i < entries@.len() ==> pagination_entry_ok(#[trigger] entries@[i]),
        _ => false,
    }
}

/// Whether the policy tree `p` is the one the configuration value `v`
/// describes.
pub open spec fn represents(p: Pagination, v: ConfigValue) -> bool
    decreases v,
{
    match v {
        ConfigValue::Str(s) => p.default == choice_of_str(s@) && p.commands@.len() == 0,
        ConfigValue::Table(entries) => {
            &&& if exists|i: int|
                0 <= i < entries@.len() && (#[trigger] entries@[i]).0@ == "default"@ {
                exists|i: int|
                    0 <= i < entries@.len() && (#[trigger] entries@[i]).0@ == "default"@
                        && (entries@[i].1 matches ConfigValue::Str(s) && p.default
                        == choice_of_str(s@))
            } else {
                p.default is Auto
            }
            &&& forall|i: int|
                0 <= i < entries@.len() && (#[trigger] entries@[i]).0@ != "default"@
                    ==> (assoc_find(p.commands@, entries@[i].0@) matches Some(c) && represents(
                    c,
                    entries@[i].1,
                ))
            &&& forall|j: int|
                0 <= j < p.commands@.len() ==> exists|i: int|
                    0 <= i < entries@.len() && entries@[i].0@ == (
                    #[trigger] p.commands@[j]).0@ && entries@[i].0@ != "default"@
            &&& forall|j1: int, j2: int|
                #![trigger p.commands@[j1].0, p.commands@[j2].0]
                0 <= j1 < j2 < p.commands@.len() ==> p.commands@[j1].0@ != p.commands@[j2].0@
        },
        _ => false,
    }
}

/// Appending a binding leaves every bound key's policy in place; only a key
/// bound for the first time gains the new policy.
pub proof fn lemma_assoc_find_push(
    cmds: Seq<(String, Pagination)>,
    key: Seq<char>,
    pair: (String, Pagination),
)
    ensures
        assoc_find(cmds.push(pair), key) == (if assoc_find(cmds, key) is Some {
            assoc_find(cmds, key)
        } else if pair.0@ == key {
            Some(pair.1)
        } else {
            None::<Pagination>
        }),
    decreases cmds.len(),
{
    let pushed = cmds.push(pair);
    assert(pushed.len() == cmds.len() + 1);
    if cmds.len() == 0 {
        assert(pushed[0] == pair);
        assert(pushed.drop_first() =~= Seq::<(String, Pagination)>::empty());
        if pair.0@ == key {
            assert(assoc_find(pushed, key) == Some(pair.1));
        } else {
            assert(assoc_find(pushed, key) == assoc_find(pushed.drop_first(), key));
            assert(assoc_find(pushed, key) is None);
        }
        assert(assoc_find(cmds, key) is None);
    } else {
        assert(pushed[0] == cmds[0]);
        assert(pushed.drop_first() =~= cmds.drop_first().push(pair));
        lemma_assoc_find_push(cmds.drop_first(), key, pair);
        if cmds[0].0@ == key {
            assert(assoc_find(pushed, key) == Some(cmds[0].1));
            assert(assoc_find(cmds, key) == Some(cmds[0].1));
        } else {
            assert(assoc_find(pushed, key) == assoc_find(cmds.drop_first().push(pair), key));
            assert(assoc_find(cmds, key) == assoc_find(cmds.drop_first(), key));
        }
    }
}

impl Default for Pagination {
    /// The policy that leaves every decision to the caller's context.
    fn default() -> (r: Pagination)
        ensures
            r.default is Auto,
            r.commands@.len() == 0,
    {
        Pagination { default: PaginationChoice::Auto, commands: Vec::new() }
    }
}

impl Pagination {
    /// The child policy bound to `name`, if one is.
    pub fn find_command(&self, name: &String) -> (r: Option<&Pagination>)
        ensures
            match assoc_find(self.commands@, name@) {
                None => r is None,
                Some(c) => r matches Some(found) && *found == c,
            },
    {
        let n = self.commands.len();
        let mut i: usize = 0;
        proof {
            assert(self.commands@.skip(0) =~= self.commands@);
        }
        while i < n
            invariant
                n == self.commands@.len(),
                0 <= i <= n,
                assoc_find(self.commands@.skip(i as int), name@) == assoc_find(
                    self.commands@,
                    name@,
                ),
            decreases n - i,
        {
            let pair = &self.commands[i];
            if pair.0 == *name {
                assert(self.commands@.skip(i as int)[0] == self.commands@[i as int]);
                return Some(&pair.1);
            }
            proof {
                let s = self.commands@.skip(i as int);
                assert(s[0] == self.commands@[i as int]);
                assert(s.drop_first() =~= self.commands@.skip(i as int + 1));
            }
            i = i + 1;
        }
        proof {
            assert(self.commands@.skip(n as int).len() == 0);
        }
        None
    }

    /// Resolves the policy for `path`, most specific non-auto node winning.
    pub fn resolve(&self, path: &Vec<String>) -> (r: PaginationChoice)
        ensures
            r == resolved_choice(*self, path@),
    {
        let mut current: &Pagination = self;
        let mut best = self.default;
        let n = path.len();
        let mut i: usize = 0;
        proof {
            assert(path@.skip(0) =~= path@);
        }
        while i < n
            invariant
                n == path@.len(),
                0 <= i <= n,
                resolve_from(*current, path@.skip(i as int), best) == resolved_choice(
                    *self,
                    path@,
                ),
            decreases n - i,
        {
            proof {
                assert(path@.skip(i as int)[0] == path@[i as int]);
                assert(path@.skip(i as int).drop_first() =~= path@.skip(i as int + 1));
            }
            match current.find_command(&path[i]) {
                None => {
                    return best;
                },
                Some(child) => {
                    if !matches!(child.default, PaginationChoice::Auto) {
                        best = child.default;
                    }
                    current = child;
                },
            }
            i = i + 1;
        }
        proof {
            assert(path@.skip(n as int).len() == 0);
        }
        best
    }
}


impl Pagination {
    /// Builds the policy tree a configuration value describes: either a bare
    /// choice string, or a mapping whose reserved `default` key sets this
    /// node's own choice and whose other keys name child commands.
    pub fn from_value(v: &ConfigValue) -> (r: Result<Pagination, CommandError>)
        requires
            value_wf(*v),
        ensures
            r is Ok <==> pagination_value_ok(*v),
            r matches Ok(p) ==> represents(p, *v),
            r is Err ==> r == Err::<Pagination, CommandError>(
                CommandError::ConfigError(ConfigField::Paginate),
            ),
        decreases *v,
    {
        match v {
            ConfigValue::Str(s) => {
                proof {
                    crate::choice::lemma_choice_strings_distinct();
                }
                match PaginationChoice::from_str(s.as_str()) {
                    Ok(c) => Ok(Pagination { default: c, commands: Vec::new() }),
                    Err(_) => Err(CommandError::ConfigError(ConfigField::Paginate)),
                }
            },
            ConfigValue::Table(entries) => {
                let default_key = "default".to_owned();
                let mut result = Pagination { default: PaginationChoice::Auto, commands: Vec::new() };
                let n = entries.len();
                let mut idx: usize = 0;
                while idx < n
                    invariant
                        *v == ConfigValue::Table(*entries),
                        forall|i: int, j: int|
                            #![trigger entries@[i].0, entries@[j].0]
                            0 <= i < j < entries@.len() ==> entries@[i].0@ != entries@[j].0@,
                        forall|i: int| 0 <= i < entries@.len() ==> value_wf(#[trigger] entries@[i].1),
                        default_key@ == "default"@,
                        n == entries@.len(),
                        0 <= idx <= n,
                        forall|i: int| 0 <= i < idx ==> pagination_entry_ok(#[trigger] entries@[i]),
                        (exists|i: int|
                            0 <= i < idx && (#[trigger] entries@[i]).0@ == "default"@) ==> exists|
                            i: int,
                        |
                            0 <= i < idx && (#[trigger] entries@[i]).0@ == "default"@ && (
                            entries@[i].1 matches ConfigValue::Str(s) && result.default
                                == choice_of_str(s@)),
                        (forall|i: int|
                            0 <= i < idx ==> (#[trigger] entries@[i]).0@ != "default"@)
                            ==> result.default is Auto,
                        forall|i: int|
                            0 <= i < idx && (#[trigger] entries@[i]).0@ != "default"@ ==> (
                            assoc_find(result.commands@, entries@[i].0@) matches Some(c)
                                && represents(c, entries@[i].1)),
                        forall|j: int| #![trigger result.commands@[j]]
                            0 <= j < result.commands@.len() ==> exists|i: int|
                                0 <= i < idx && (#[trigger] entries@[i]).0@
                                    == result.commands@[j].0@ && entries@[i].0@ != "default"@,
                        forall|j1: int, j2: int|
                            #![trigger result.commands@[j1].0, result.commands@[j2].0]
                            0 <= j1 < j2 < result.commands@.len() ==> result.commands@[j1].0@
                                != result.commands@[j2].0@,
                    decreases n - idx,
                {
                    let pair = &entries[idx];
                    if pair.0 == default_key {
                        match &pair.1 {
                            ConfigValue::Str(s) => {
                                proof {
                                    crate::choice::lemma_choice_strings_distinct();
                                }
                                match PaginationChoice::from_str(s.as_str()) {
                                    Ok(c) => {
                                        result.default = c;
                                        proof {
                                            assert(pagination_entry_ok(entries@[idx as int]));
                                        }
                                    },
                                    Err(_) => {
                                        proof {
                                            assert(!pagination_entry_ok(entries@[idx as int]));
                                            assert(exists|i: int|
                                                0 <= i < entries@.len() && !pagination_entry_ok(
                                                    #[trigger] entries@[i],
                                                ));
                                            assert(*v is Table);
                                            assert(v->Table_0 == *entries);
                                            assert(!pagination_value_ok(*v));
                                        }
                                        return Err(
                                            CommandError::ConfigError(ConfigField::Paginate),
                                        );
                                    },
                                }
                            },
                            _ => {
                                proof {
                                    assert(!pagination_entry_ok(entries@[idx as int]));
                                    assert(exists|i: int|
                                        0 <= i < entries@.len() && !pagination_entry_ok(
                                            #[trigger] entries@[i],
                                        ));
                                    assert(*v is Table);
                                    assert(v->Table_0 == *entries);
                                    assert(!pagination_value_ok(*v));
                                }
                                return Err(CommandError::ConfigError(ConfigField::Paginate));
                            },
                        }
                    } else {
                        proof {
                            assert(value_wf(entries@[idx as int].1));
                            assert(v->Table_0 == *entries);
                            assert(decreases_to!(*v => v->Table_0));
                            assert(decreases_to!(*entries => (*entries)[idx as int]));
                            assert(decreases_to!(*v => entries@[idx as int].1));
                        }
                        match Self::from_value(&pair.1) {
                            Ok(child) => {
                                proof {
                                    if assoc_find(result.commands@, pair.0@) is Some {
                                        lemma_assoc_find_mem(result.commands@, pair.0@);
                                        assert(false);
                                    }
                                }
                                let ghost prev = result.commands@;
                                let ghost pushed_pair = (entries@[idx as int].0, child);
                                result.commands.push((pair.0.clone(), child));
                                proof {
                                    assert(result.commands@ =~= prev.push(pushed_pair));
                                    assert forall|i: int|
                                        0 <= i < idx + 1 && (#[trigger] entries@[i]).0@
                                            != "default"@ implies (assoc_find(
                                        result.commands@,
                                        entries@[i].0@,
                                    ) matches Some(c) && represents(c, entries@[i].1)) by {
                                        lemma_assoc_find_push(prev, entries@[i].0@, pushed_pair);
                                    }
                                    assert forall|j: int| #![trigger result.commands@[j]]
                                        0 <= j < result.commands@.len() implies exists|i: int|
                                        #![trigger entries@[i]]
                                        0 <= i < idx + 1 && (#[trigger] entries@[i]).0@
                                            == result.commands@[j].0@ && entries@[i].0@
                                            != "default"@ by {
                                        if j < prev.len() as int {
                                            assert(result.commands@[j] == prev[j]);
                                        } else {
                                            assert(result.commands@[j] == pushed_pair);
                                            assert((entries@[idx as int]).0@
                                                == result.commands@[j].0@ && entries@[idx as int].0@
                                                != "default"@);
                                        }
                                    }
                                }
                            },
                            Err(_) => {
                                proof {
                                    assert(!pagination_entry_ok(entries@[idx as int]));
                                    assert(exists|i: int|
                                        0 <= i < entries@.len() && !pagination_entry_ok(
                                            #[trigger] entries@[i],
                                        ));
                                    assert(*v is Table);
                                    assert(v->Table_0 == *entries);
                                    assert(!pagination_value_ok(*v));
                                }
                                return Err(CommandError::ConfigError(ConfigField::Paginate));
                            },
                        }
                    }
                    idx = idx + 1;
                }
                proof {
                    assert(pagination_value_ok(*v));
                    assert(represents(result, *v));
                }
                Ok(result)
            },
            _ => Err(CommandError::ConfigError(ConfigField::Paginate)),
        }
    }
}

/// Whether the configuration carries a usable pagination policy.
pub open spec fn spec_paginate_ok(cfg: UiConfig) -> bool {
    cfg.paginate matches Some(v) && pagination_value_ok(v)
}

/// Reads the pagination policy; a missing or malformed value is a fatal
/// configuration error.
pub fn pagination_setting(cfg: &UiConfig) -> (r: Result<Pagination, CommandError>)
    requires
        crate::config::ui_config_wf(*cfg),
    ensures
        r is Ok <==> spec_paginate_ok(*cfg),
        r matches Ok(p) ==> represents(p, cfg.paginate->0),
        r is Err ==> r == Err::<Pagination, CommandError>(
            CommandError::ConfigError(ConfigField::Paginate),
        ),
{
    match &cfg.paginate {
        Some(v) => Pagination::from_value(v),
        None => Err(CommandError::ConfigError(ConfigField::Paginate)),
    }
}

} // verus!
