//! The hook registry: which hook answers to which request path.

use crate::config::{Hook, HookDefinition};
use vstd::prelude::*;

verus! {

/// Whether two strings hold the same text.
pub fn same_text(a: &str, b: &str) -> (same: bool)
    ensures
        same == (a@ == b@),
{
    let x = a.as_bytes();
    let y = b.as_bytes();
    proof {
        vstd::utf8::encode_utf8_decode_utf8(a@);
        vstd::utf8::encode_utf8_decode_utf8(b@);
    }
    if x.len() != y.len() {
        return false;
    }
    let n = x.len();
    let mut i: usize = 0;
    while i < n
        invariant
            i <= n,
            n == x@.len(),
            n == y@.len(),
            forall|j: int| 0 <= j < i ==> x@[j] == y@[j],
            x@ == y@ ==> a@ == b@,
            a@ == b@ ==> x@ == y@,
        decreases n - i,
    {
        if x[i] != y[i] {
            return false;
        }
        i += 1;
    }
    assert(x@ =~= y@);
    true
}

/// One registered hook and the path it answers to.
struct Entry {
    path: String,
    hook: Hook,
}

/// Whether no two of `entries` share a path.
spec fn distinct_paths(entries: Seq<Entry>) -> bool {
    forall|i: int, j: int|
        0 <= i < j < entries.len() ==> (#[trigger] entries[i]).path@ != (
        #[trigger] entries[j]).path@
}

/// Whether `entries[i]` answers to `path`.
spec fn answers(entries: Seq<Entry>, i: int, path: Seq<char>) -> bool {
    0 <= i < entries.len() && entries[i].path@ == path
}

/// The mapping that `entries` spell out. Where no two share a path, each
/// path has the hook of the one entry that carries it.
spec fn entries_map(entries: Seq<Entry>) -> Map<Seq<char>, Hook> {
    Map::new(
        |path: Seq<char>| exists|i: int| answers(entries, i, path),
        |path: Seq<char>| entries[choose|i: int| answers(entries, i, path)].hook,
    )
}

/// The mapping that a list of definitions describes: each definition is
/// entered in turn, and one that repeats a path replaces the earlier hook.
pub open spec fn definitions_map(definitions: Seq<HookDefinition>) -> Map<Seq<char>, Hook>
    decreases definitions.len(),
{
    if definitions.len() == 0 {
        Map::empty()
    } else {
        definitions_map(definitions.drop_last()).insert(
            definitions.last().location@,
            definitions.last().hook(),
        )
    }
}

/// Of the definitions that name a path, the last one decides: a definition
/// that no later one repeats the path of is the one its path maps to.
pub proof fn lemma_last_definition_wins(definitions: Seq<HookDefinition>, i: int)
    requires
        0 <= i < definitions.len(),
        forall|j: int|
            i < j < definitions.len() ==> definitions[j].location@ != definitions[i].location@,
    ensures
        definitions_map(definitions).contains_key(definitions[i].location@),
        definitions_map(definitions)[definitions[i].location@] == definitions[i].hook(),
    decreases definitions.len(),
{
    if i < definitions.len() - 1 {
        let earlier = definitions.drop_last();
        assert(earlier[i] == definitions[i]);
        assert forall|j: int| i < j < earlier.len() implies earlier[j].location@
            != earlier[i].location@ by {
            assert(earlier[j] == definitions[j]);
        }
        lemma_last_definition_wins(earlier, i);
    }
}

/// A path that no definition names maps to nothing.
pub proof fn lemma_unnamed_path_unmapped(definitions: Seq<HookDefinition>, path: Seq<char>)
    requires
        forall|i: int| 0 <= i < definitions.len() ==> definitions[i].location@ != path,
    ensures
        !definitions_map(definitions).contains_key(path),
    decreases definitions.len(),
{
    if definitions.len() > 0 {
        let earlier = definitions.drop_last();
        assert forall|i: int| 0 <= i < earlier.len() implies earlier[i].location@ != path by {
            assert(earlier[i] == definitions[i]);
        }
        lemma_unnamed_path_unmapped(earlier, path);
    }
}

/// In a list without repeated paths, the entry at `i` is the one its path maps to.
proof fn lemma_entry_is_mapped(entries: Seq<Entry>, i: int)
    requires
        distinct_paths(entries),
        0 <= i < entries.len(),
    ensures
        entries_map(entries).contains_key(entries[i].path@),
        entries_map(entries)[entries[i].path@] == entries[i].hook,
{
    let path = entries[i].path@;
    assert(answers(entries, i, path));
    let k = choose|k: int| answers(entries, k, path);
    assert(answers(entries, k, path));
    if k < i {
        assert(entries[k].path@ != entries[i].path@);
    }
    if i < k {
        assert(entries[i].path@ != entries[k].path@);
    }
}

/// Adding an entry under a path that is not yet taken enters it in the mapping.
proof fn lemma_push_enters(entries: Seq<Entry>, entry: Entry)
    requires
        distinct_paths(entries),
        !entries_map(entries).contains_key(entry.path@),
    ensures
        distinct_paths(entries.push(entry)),
        entries_map(entries.push(entry)) == entries_map(entries).insert(entry.path@, entry.hook),
{
    let longer = entries.push(entry);
    assert forall|i: int, j: int| 0 <= i < j < longer.len() implies (#[trigger] longer[i]).path@
        != (#[trigger] longer[j]).path@ by {
        if j == entries.len() {
            assert(longer[i] == entries[i]);
            assert(answers(entries, i, entries[i].path@));
        } else {
            assert(longer[i] == entries[i] && longer[j] == entries[j]);
        }
    }
    let grown = entries_map(entries).insert(entry.path@, entry.hook);
    assert forall|path: Seq<char>| #[trigger]
        entries_map(longer).dom().contains(path) == grown.dom().contains(path) by {
        if entries_map(longer).dom().contains(path) {
            let k = choose|k: int| answers(longer, k, path);
            assert(answers(longer, k, path));
            if k < entries.len() {
                assert(answers(entries, k, path));
            }
        }
        if grown.dom().contains(path) && path != entry.path@ {
            let k = choose|k: int| answers(entries, k, path);
            assert(answers(entries, k, path));
            assert(answers(longer, k, path));
        }
        if path == entry.path@ {
            assert(answers(longer, entries.len() as int, path));
        }
    }
    assert forall|path: Seq<char>| #[trigger]
        grown.dom().contains(path) implies entries_map(longer)[path] == grown[path] by {
        if path == entry.path@ {
            lemma_entry_is_mapped(longer, entries.len() as int);
        } else {
            let k = choose|k: int| answers(entries, k, path);
            assert(answers(entries, k, path));
            assert(longer[k] == entries[k]);
            lemma_entry_is_mapped(longer, k);
            lemma_entry_is_mapped(entries, k);
        }
    }
    assert(entries_map(longer).dom() =~= grown.dom());
    assert(entries_map(longer) =~= grown);
}

/// The hooks of the server, by request path. Built once and read from then on.
pub struct HookRegistry {
    entries: Vec<Entry>,
}

impl View for HookRegistry {
    type V = Map<Seq<char>, Hook>;

    closed spec fn view(&self) -> Map<Seq<char>, Hook> {
        entries_map(self.entries@)
    }
}

/// The index in `entries` of the entry that answers to `path`, if there is one.
fn position(entries: &Vec<Entry>, path: &str) -> (found: Option<usize>)
    ensures
        match found {
            Some(i) => answers(entries@, i as int, path@),
            None => !entries_map(entries@).contains_key(path@),
        },
{
    let n = entries.len();
    let mut i: usize = 0;
    while i < n
        invariant
            i <= n,
            n == entries@.len(),
            forall|j: int| 0 <= j < i ==> !answers(entries@, j, path@),
        decreases n - i,
    {
        if same_text(entries[i].path.as_str(), path) {
            return Some(i);
        }
        i += 1;
    }
    None
}

impl HookRegistry {
    #[verifier::type_invariant]
    spec fn paths_are_distinct(&self) -> bool {
        distinct_paths(self.entries@)
    }

    /// Builds the registry that a list of definitions describes. Where two
    /// definitions name the same path, the later one wins.
    pub fn from_definitions(definitions: Vec<HookDefinition>) -> (registry: HookRegistry)
        ensures
            registry@ == definitions_map(definitions@),
    {
        let ghost all = definitions@;
        let mut rest = definitions;
        let mut entries: Vec<Entry> = Vec::new();
        assert(entries_map(entries@) =~= Map::<Seq<char>, Hook>::empty());
        assert(definitions_map(all) =~= definitions_map(rest@).union_prefer_right(
            entries_map(entries@),
        ));
        while rest.len() > 0
            invariant
                distinct_paths(entries@),
                definitions_map(all) == definitions_map(rest@).union_prefer_right(
                    entries_map(entries@),
                ),
            decreases rest.len(),
        {
            let ghost before = rest@;
            let ghost taken = entries_map(entries@);
            let definition = rest.pop().unwrap();
            assert(rest@ =~= before.drop_last());
            assert(definition == before.last());
            if position(&entries, definition.location.as_str()).is_none() {
                let entry = Entry {
                    path: definition.location,
                    hook: Hook {
                        program: definition.program,
                        args: definition.args,
                        secret: definition.secret,
                    },
                };
                proof {
                    lemma_push_enters(entries@, entry);
                }
                entries.push(entry);
            }
            assert(definitions_map(before).union_prefer_right(taken) =~= definitions_map(
                rest@,
            ).union_prefer_right(entries_map(entries@)));
        }
        assert(definitions_map(rest@) =~= Map::<Seq<char>, Hook>::empty());
        assert(definitions_map(all) =~= entries_map(entries@));
        HookRegistry { entries }
    }

    /// The hook that answers to exactly `path`, if there is one. Paths are
    /// matched verbatim: no prefix counts and no trailing slash is dropped.
    pub fn lookup(&self, path: &str) -> (hook: Option<&Hook>)
        ensures
            match hook {
                Some(h) => self@.contains_key(path@) && *h == self@[path@],
                None => !self@.contains_key(path@),
            },
    {
        proof {
            use_type_invariant(self);
        }
        match position(&self.entries, path) {
            Some(i) => {
                proof {
                    lemma_entry_is_mapped(self.entries@, i as int);
                }
                Some(&self.entries[i].hook)
            },
            None => None,
        }
    }

    /// How many paths have a hook.
    pub fn len(&self) -> (n: usize)
        ensures
            n == self@.dom().len(),
            self@.dom().finite(),
    {
        proof {
            use_type_invariant(self);
            lemma_domain_size(self.entries@);
        }
        self.entries.len()
    }
}

/// A list without repeated paths maps as many paths as it has entries.
proof fn lemma_domain_size(entries: Seq<Entry>)
    requires
        distinct_paths(entries),
    ensures
        entries_map(entries).dom().finite(),
        entries_map(entries).dom().len() == entries.len(),
    decreases entries.len(),
{
    if entries.len() == 0 {
        assert(entries_map(entries).dom() =~= Set::<Seq<char>>::empty());
    } else {
        let shorter = entries.drop_last();
        let entry = entries.last();
        assert(entries =~= shorter.push(entry));
        assert(distinct_paths(shorter)) by {
            assert forall|i: int, j: int| 0 <= i < j < shorter.len() implies (
            #[trigger] shorter[i]).path@ != (#[trigger] shorter[j]).path@ by {
                assert(shorter[i] == entries[i] && shorter[j] == entries[j]);
            }
        }
        lemma_domain_size(shorter);
        assert(!entries_map(shorter).contains_key(entry.path@)) by {
            if entries_map(shorter).contains_key(entry.path@) {
                let k = choose|k: int| answers(shorter, k, entry.path@);
                assert(answers(shorter, k, entry.path@));
                assert(shorter[k] == entries[k]);
                assert(entries[k].path@ != entries[entries.len() - 1].path@);
            }
        }
        lemma_push_enters(shorter, entry);
        assert(entries_map(entries).dom() =~= entries_map(shorter).dom().insert(entry.path@));
    }
}

} // verus!
