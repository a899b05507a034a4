use vstd::prelude::*;
use crate::blocks::block::{def_view, BlockDefinition, DefV};
use crate::blocks::core_catalogue::core_lookup_upto;
use crate::text::{closest_match, is_closest, none_close, str_eq, string_views};

verus! {

/// The catalogue of known blocks, keyed by name.
#[derive(Debug)]
pub struct BlockRegistry {
    blocks: Vec<BlockDefinition>,
}

/// The names of a sequence of block definitions, in order.
pub open spec fn block_names(bs: Seq<BlockDefinition>) -> Seq<Seq<char>> {
    bs.map_values(|b: BlockDefinition| b.name@)
}

impl Clone for BlockRegistry {
    /// A registry with the same definitions.
    fn clone(&self) -> (r: Self)
        ensures
            r.names() == self.names(),
            forall|n: Seq<char>| #[trigger] r.lookup_def(n) == self.lookup_def(n),
    {
        let blocks = self.blocks.clone();
        proof {
            use_type_invariant(self);
            assert forall|i: int| 0 <= i < blocks@.len() implies #[trigger] blocks@[i].name == self.blocks@[i].name
                && def_view(blocks@[i]) == def_view(self.blocks@[i]) by {
                assert(cloned::<BlockDefinition>(self.blocks[i], blocks[i]));
            }
            assert(block_names(blocks@) =~= self.names());
        }
        let r = BlockRegistry { blocks };
        proof {
            assert forall|n: Seq<char>| #[trigger] r.lookup_def(n) == self.lookup_def(n) by {
                if self.has(n) {
                    let i = self.names().index_of(n);
                    self.names().index_of_first_ensures(n);
                    assert(def_view(r.defs()[i]) == def_view(self.defs()[i]));
                }
            }
        }
        r
    }
}

impl BlockRegistry {
    /// The definitions, in registration order.
    pub closed spec fn defs(self) -> Seq<BlockDefinition> {
        self.blocks@
    }

    /// The registered names, in registration order.
    pub open spec fn names(self) -> Seq<Seq<char>> {
        block_names(self.defs())
    }

    /// No name is registered twice. Every registry keeps this.
    #[verifier::type_invariant]
    pub open spec fn wf(self) -> bool {
        self.names().no_duplicates()
    }

    /// Whether a block of this name is registered.
    pub open spec fn has(self, name: Seq<char>) -> bool {
        self.names().contains(name)
    }

    /// The definition registered under `name`.
    pub open spec fn lookup(self, name: Seq<char>) -> Option<BlockDefinition> {
        if self.has(name) {
            Some(self.defs()[self.names().index_of(name)])
        } else {
            None
        }
    }

    /// The definition registered under `name`, as a specification value.
    pub open spec fn lookup_def(self, name: Seq<char>) -> Option<DefV> {
        match self.lookup(name) {
            Some(d) => Some(def_view(d)),
            None => None,
        }
    }

    /// The registry holds exactly what registering the first `k` core catalogue
    /// entries, in order, into an empty registry gives.
    pub open spec fn holds_core_prefix(self, k: nat) -> bool {
        forall|n: Seq<char>| #[trigger] self.lookup_def(n) == core_lookup_upto(k, n)
    }

    /// An empty registry.
    pub fn new() -> (r: Self)
        ensures
            r.wf(),
            r.defs().len() == 0,
            r.holds_core_prefix(0),
    {
        BlockRegistry { blocks: Vec::new() }
    }

    fn position(&self, name: &str) -> (r: Option<usize>)
        ensures
            match r {
                Some(i) => i < self.defs().len() && self.names()[i as int] == name@
                    && self.names().index_of(name@) == i,
                None => !self.has(name@),
            },
    {
        proof {
            use_type_invariant(self);
        }
        let ghost ns = self.names();
        for i in 0..self.blocks.len()
            invariant
                ns == self.names(),
                self.wf(),
                ns.len() == self.blocks@.len(),
                forall|k: int| 0 <= k < i ==> ns[k] != name@,
        {
            assert(ns[i as int] == self.blocks@[i as int].name@);
            if str_eq(self.blocks[i].name.as_str(), name) {
                proof {
                    ns.index_of_first_ensures(name@);
                    assert(ns.contains(name@));
                    let j = ns.index_of(name@);
                    assert(ns[j] == name@);
                    if j != i {
                        assert(ns.no_duplicates());
                    }
                }
                return Some(i);
            }
        }
        None
    }

    /// Registers a block; a block of the same name is replaced.
    pub fn register(&mut self, block: BlockDefinition)
        ensures
            final(self).wf(),
            forall|n: Seq<char>| #[trigger] final(self).lookup(n) == if n == block.name@ {
                Some(block)
            } else {
                old(self).lookup(n)
            },
            final(self).defs().len() == old(self).defs().len() + if old(self).has(block.name@) { 0int } else { 1int },
    {
        proof {
            use_type_invariant(&*self);
        }
        let ghost old_ns = self.names();
        let ghost bname = block.name@;
        let mut blocks: Vec<BlockDefinition> = Vec::new();
        match self.position(block.name.as_str()) {
            Some(i) => {
                std::mem::swap(&mut blocks, &mut self.blocks);
                blocks.set(i, block);
                proof {
                    let ns = block_names(blocks@);
                    assert(ns == old_ns.update(i as int, bname));
                    assert(ns =~= old_ns);
                }
                self.blocks = blocks;
            },
            None => {
                std::mem::swap(&mut blocks, &mut self.blocks);
                blocks.push(block);
                proof {
                    assert(block_names(blocks@) =~= old_ns.push(bname));
                }
                self.blocks = blocks;
                proof {
                    let ns = self.names();
                    assert(ns =~= old_ns.push(bname));
                    assert forall|n: Seq<char>| #[trigger] self.lookup(n) == if n == bname {
                        Some(block)
                    } else {
                        old(self).lookup(n)
                    } by {
                        if old_ns.contains(n) {
                            let j = old_ns.index_of(n);
                            old_ns.index_of_first_ensures(n);
                            ns.index_of_first_ensures(n);
                            assert(ns[j] == n);
                        }
                        if n == bname {
                            ns.index_of_first_ensures(n);
                            assert(ns[old_ns.len() as int] == n);
                        }
                    }
                }
            },
        }
    }

    /// The definition registered under `name`.
    pub fn get(&self, name: &str) -> (r: Option<&BlockDefinition>)
        ensures
            match r {
                Some(d) => self.lookup(name@) == Some(*d),
                None => self.lookup(name@) is None,
            },
    {
        match self.position(name) {
            Some(i) => Some(&self.blocks[i]),
            None => None,
        }
    }

    /// Whether a block of this name is registered.
    pub fn contains(&self, name: &str) -> (r: bool)
        ensures
            r == self.has(name@),
    {
        self.position(name).is_some()
    }

    /// All definitions, in registration order.
    pub fn iter(&self) -> (r: &Vec<BlockDefinition>)
        ensures
            r@ == self.defs(),
    {
        &self.blocks
    }

    /// The registered name closest to `query` (edit distance at most 3, earliest
    /// registration among equally close names).
    pub fn find_similar(&self, query: &str) -> (r: Option<&str>)
        ensures
            match r {
                Some(s) => exists|i: int| is_closest(query@, self.names(), i) && self.names()[i] == s@,
                None => none_close(query@, self.names()),
            },
    {
        let mut names: Vec<String> = Vec::new();
        for i in 0..self.blocks.len()
            invariant
                names@.len() == i,
                forall|k: int| 0 <= k < i ==> #[trigger] names@[k]@ == self.names()[k],
        {
            names.push(self.blocks[i].name.clone());
        }
        proof {
            assert(string_views(names@) =~= self.names());
        }
        match closest_match(query, &names) {
            Some(i) => {
                assert(self.names()[i as int] == self.blocks@[i as int].name@);
                Some(self.blocks[i].name.as_str())
            },
            None => None,
        }
    }
}

} // verus!
