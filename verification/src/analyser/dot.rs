//! An address graph written in the dot language of Graphviz.
use vstd::prelude::*;
use std::collections::BTreeSet;
use vstd::std_specs::iter::IteratorSpec;
use super::{spec_strictly_increasing, AddressGraph};
use crate::text::{ascii_string, lemma_ascii_concat, lemma_hex_ascii, push_all, push_hex, spec_chars, spec_hex, spec_is_ascii};
use crate::Address;

verus! {

broadcast use vstd::std_specs::btree::group_btree_axioms;

/// The addresses of a set in increasing order.
pub open spec fn spec_ascending(s: Set<Address>) -> Seq<Address> {
    choose|q: Seq<Address>| q.to_set() == s && spec_strictly_increasing(q)
}

/// "digraph {" and a newline.
pub open spec fn spec_dot_header() -> Seq<u8> {
    seq![100u8, 105, 103, 114, 97, 112, 104, 32, 123, 10]
}

/// "}" and a newline.
pub open spec fn spec_dot_footer() -> Seq<u8> {
    seq![125u8, 10]
}

/// The line of an edge: "  f0x", the source in hexadecimal, " -> f0x", the target in
/// hexadecimal, ";" and a newline.
pub open spec fn spec_dot_edge(from: Address, to: Address) -> Seq<u8> {
    seq![32u8, 32, 102, 48, 120] + spec_hex(from as nat) + seq![32u8, 45, 62, 32, 102, 48, 120] + spec_hex(to as nat)
        + seq![59u8, 10]
}

/// The lines of the edges from `from` to each of `tos`, in that order.
pub open spec fn spec_dot_edges(from: Address, tos: Seq<Address>) -> Seq<u8>
    decreases tos.len(),
{
    if tos.len() == 0 {
        Seq::empty()
    } else {
        spec_dot_edges(from, tos.drop_last()) + spec_dot_edge(from, tos.last())
    }
}

/// The lines of the edges from each of `froms` in turn, each source's targets in increasing
/// order.
pub open spec fn spec_dot_sources(g: Map<Address, Set<Address>>, froms: Seq<Address>) -> Seq<u8>
    decreases froms.len(),
{
    if froms.len() == 0 {
        Seq::empty()
    } else {
        spec_dot_sources(g, froms.drop_last()) + spec_dot_edges(froms.last(), spec_ascending(g[froms.last()]))
    }
}

/// A graph in the dot language: a digraph with one line per edge, by source and then by
/// target in increasing order.
pub open spec fn spec_dot(g: Map<Address, Set<Address>>) -> Seq<u8> {
    spec_dot_header() + spec_dot_sources(g, spec_ascending(g.dom())) + spec_dot_footer()
}

/// Two increasing sequences with the same addresses are the same sequence.
proof fn lemma_ascending_unique(a: Seq<Address>, b: Seq<Address>)
    requires
        a.to_set() == b.to_set(),
        spec_strictly_increasing(a),
        spec_strictly_increasing(b),
    ensures
        a == b,
    decreases a.len(),
{
    if a.len() == 0 {
        if b.len() > 0 {
            assert(b.to_set().contains(b[0]));
        }
    } else {
        assert(a.to_set().contains(a[0]));
        assert(b.len() > 0);
        assert(b.to_set().contains(b[0]));
        let i = choose|i: int| 0 <= i < b.len() && b[i] == a[0];
        let j = choose|j: int| 0 <= j < a.len() && a[j] == b[0];
        assert(a[0] == b[0]);
        let a2 = a.drop_first();
        let b2 = b.drop_first();
        assert forall|x: Address| a2.to_set().contains(x) implies b2.to_set().contains(x) by {
            let k = choose|k: int| 0 <= k < a2.len() && a2[k] == x;
            assert(a.to_set().contains(a[k + 1]));
            let m = choose|m: int| 0 <= m < b.len() && b[m] == x;
            assert(m != 0);
            assert(b2[m - 1] == x);
        }
        assert forall|x: Address| b2.to_set().contains(x) implies a2.to_set().contains(x) by {
            let k = choose|k: int| 0 <= k < b2.len() && b2[k] == x;
            assert(b.to_set().contains(b[k + 1]));
            let m = choose|m: int| 0 <= m < a.len() && a[m] == x;
            assert(m != 0);
            assert(a2[m - 1] == x);
        }
        assert(a2.to_set() =~= b2.to_set());
        lemma_ascending_unique(a2, b2);
        assert(a =~= seq![a[0]] + a2);
        assert(b =~= seq![b[0]] + b2);
    }
}

/// An increasing sequence of the addresses of a set is the set in ascending order.
proof fn lemma_is_ascending(q: Seq<Address>, s: Set<Address>)
    requires
        q.to_set() == s,
        spec_strictly_increasing(q),
    ensures
        spec_ascending(s) == q,
{
    let a = spec_ascending(s);
    assert(a.to_set() == s && spec_strictly_increasing(a));
    lemma_ascending_unique(a, q);
}

fn push_edge(out: &mut Vec<u8>, from: Address, to: Address)
    ensures
        final(out)@ == old(out)@ + spec_dot_edge(from, to),
{
    let start: [u8; 5] = [32, 32, 102, 48, 120];
    let arrow: [u8; 7] = [32, 45, 62, 32, 102, 48, 120];
    let end: [u8; 2] = [59, 10];
    push_all(out, start.as_slice());
    push_hex(out, from as u64);
    push_all(out, arrow.as_slice());
    push_hex(out, to as u64);
    push_all(out, end.as_slice());
    assert(start@ =~= seq![32u8, 32, 102, 48, 120]);
    assert(arrow@ =~= seq![32u8, 45, 62, 32, 102, 48, 120]);
    assert(end@ =~= seq![59u8, 10]);
    assert(out@ =~= old(out)@ + spec_dot_edge(from, to));
}

proof fn lemma_edges_ascii(from: Address, tos: Seq<Address>)
    ensures
        spec_is_ascii(spec_dot_edges(from, tos)),
    decreases tos.len(),
{
    if tos.len() > 0 {
        lemma_edges_ascii(from, tos.drop_last());
        let to = tos.last();
        lemma_hex_ascii(from as nat);
        lemma_hex_ascii(to as nat);
        let a = seq![32u8, 32, 102, 48, 120];
        let b = seq![32u8, 45, 62, 32, 102, 48, 120];
        let c = seq![59u8, 10];
        assert(spec_is_ascii(a));
        assert(spec_is_ascii(b));
        assert(spec_is_ascii(c));
        lemma_ascii_concat(a, spec_hex(from as nat));
        lemma_ascii_concat(a + spec_hex(from as nat), b);
        lemma_ascii_concat(a + spec_hex(from as nat) + b, spec_hex(to as nat));
        lemma_ascii_concat(a + spec_hex(from as nat) + b + spec_hex(to as nat), c);
        lemma_ascii_concat(spec_dot_edges(from, tos.drop_last()), spec_dot_edge(from, to));
    }
}

proof fn lemma_sources_ascii(g: Map<Address, Set<Address>>, froms: Seq<Address>)
    ensures
        spec_is_ascii(spec_dot_sources(g, froms)),
    decreases froms.len(),
{
    if froms.len() > 0 {
        lemma_sources_ascii(g, froms.drop_last());
        lemma_edges_ascii(froms.last(), spec_ascending(g[froms.last()]));
        lemma_ascii_concat(spec_dot_sources(g, froms.drop_last()), spec_dot_edges(froms.last(), spec_ascending(g[froms.last()])));
    }
}

/// Every byte of a dot text is ASCII.
proof fn lemma_dot_ascii(g: Map<Address, Set<Address>>)
    ensures
        spec_is_ascii(spec_dot(g)),
{
    lemma_sources_ascii(g, spec_ascending(g.dom()));
    assert(spec_is_ascii(spec_dot_header()));
    assert(spec_is_ascii(spec_dot_footer()));
    lemma_ascii_concat(spec_dot_header(), spec_dot_sources(g, spec_ascending(g.dom())));
    lemma_ascii_concat(spec_dot_header() + spec_dot_sources(g, spec_ascending(g.dom())), spec_dot_footer());
}

impl AddressGraph {
    /// The graph in the dot language of Graphviz.
    pub fn dot_string(&self) -> (r: String)
        ensures
            r@ == spec_chars(spec_dot(self@)),
    {
        let mut out: Vec<u8> = Vec::new();
        let header: [u8; 10] = [100, 105, 103, 114, 97, 112, 104, 32, 123, 10];
        push_all(&mut out, header.as_slice());
        assert(header@ =~= spec_dot_header());
        let ghost g = self@;
        let ghost m = self.0@;
        proof {
            super::lemma_addresses_are_ordered_keys();
        }
        let ghost pairs = vstd::std_specs::btree::spec_btree_map_iter(&self.0).remaining();
        let ghost keys = pairs.map_values(|kv: (&Address, &BTreeSet<Address>)| *kv.0);
        let sources = self.0.iter();
        proof {
            super::lemma_increasing_keys(keys);
        }
        for (from, tos) in it: sources
            invariant
                it.seq() == pairs,
                keys == pairs.map_values(|kv: (&Address, &BTreeSet<Address>)| *kv.0),
                spec_strictly_increasing(keys),
                g == self@,
                m == self.0@,
                pairs.len() == m.dom().len(),
                forall|j: int| 0 <= j < pairs.len() ==> #[trigger] m.contains_key(*pairs[j].0) && m[*pairs[j].0] == *pairs[j].1,
                forall|f: Address| #[trigger] m.contains_key(f) ==> pairs.contains((&f, &m[f])),
                out@ == spec_dot_header() + spec_dot_sources(g, keys.take(it.index() as int)),
        {
            let ghost j = it.index() as int;
            assert(pairs[j] == (from, tos));
            let ghost before = out@;
            let ghost targets = vstd::std_specs::btree::spec_btree_keys_iter(tos).remaining().unref();
            proof {
                super::lemma_increasing_borrowed_keys(vstd::std_specs::btree::spec_btree_keys_iter(tos).remaining());
                lemma_is_ascending(targets, tos@);
                assert(m.contains_key(*from));
                assert(g[*from] == tos@);
            }
            for to in it2: tos.iter()
                invariant
                    it2.seq().unref() == targets,
                    out@ == before + spec_dot_edges(*from, targets.take(it2.index() as int)),
            {
                push_edge(&mut out, *from, *to);
                proof {
                    let t = targets.take(it2.index() as int + 1);
                    assert(t.drop_last() =~= targets.take(it2.index() as int));
                    assert(t.last() == *to);
                }
            }
            proof {
                assert(targets.take(targets.len() as int) =~= targets);
                let k = keys.take(j + 1);
                assert(k.drop_last() =~= keys.take(j));
                assert(k.last() == *from);
                assert(out@ =~= spec_dot_header() + spec_dot_sources(g, keys.take(j + 1)));
            }
        }
        proof {
            assert(keys.take(keys.len() as int) =~= keys);
            assert forall|f: Address| keys.to_set().contains(f) <==> g.dom().contains(f) by {
                if g.dom().contains(f) {
                    assert(pairs.contains((&f, &m[f])));
                    let j = choose|j: int| 0 <= j < pairs.len() && pairs[j] == (&f, &m[f]);
                    assert(keys[j] == f);
                }
                if keys.to_set().contains(f) {
                    let j = choose|j: int| 0 <= j < keys.len() && keys[j] == f;
                    assert(m.contains_key(*pairs[j].0));
                }
            }
            assert(keys.to_set() =~= g.dom());
            lemma_is_ascending(keys, g.dom());
        }
        let footer: [u8; 2] = [125, 10];
        push_all(&mut out, footer.as_slice());
        assert(footer@ =~= spec_dot_footer());
        assert(out@ =~= spec_dot(g));
        proof {
            lemma_dot_ascii(g);
        }
        ascii_string(out)
    }
}

} // verus!
