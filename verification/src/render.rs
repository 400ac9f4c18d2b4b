//! Rendering of a context stack to human-facing text.
//!
//! The entries of a context stack are joined in reverse order of appending
//! (the entry pushed last is shown first), separated by `" -> "`; an empty
//! stack renders as the literal text `"no context"`.

use vstd::prelude::*;

verus! {

/// The fixed separator placed between two rendered context entries.
pub open spec fn separator() -> Seq<char> {
    " -> "@
}

/// The text an empty context stack renders to.
pub open spec fn empty_marker() -> Seq<char> {
    "no context"@
}

/// The entries of `entries`, joined in reverse order with [`separator`]:
/// the last entry comes first, the first entry comes last. Empty input
/// joins to the empty text.
pub open spec fn joined_reversed(entries: Seq<Seq<char>>) -> Seq<char>
    decreases entries.len(),
{
    if entries.len() == 0 {
        Seq::<char>::empty()
    } else if entries.len() == 1 {
        entries[0]
    } else {
        joined_reversed(entries.drop_first()) + separator() + entries[0]
    }
}

/// What a context stack renders to: its entries joined in reverse order of
/// appending, or [`empty_marker`] when there are none.
pub open spec fn rendered(entries: Seq<Seq<char>>) -> Seq<char> {
    if entries.len() == 0 {
        empty_marker()
    } else {
        joined_reversed(entries)
    }
}

/// A context stack holding exactly one entry renders as exactly that entry:
/// a freshly converted raw failure, whose stack is its seeded dump alone,
/// displays as that dump, with no separator around it.
pub proof fn lemma_render_single(entries: Seq<Seq<char>>)
    requires
        entries.len() == 1,
    ensures
        rendered(entries) == entries[0],
{
}

/// An empty context stack renders as exactly the text `"no context"`.
pub proof fn lemma_render_empty()
    ensures
        rendered(Seq::<Seq<char>>::empty()) == "no context"@,
{
}

/// Appending one entry to a non-empty context stack places it first in the
/// rendering, separated by `" -> "` from the rendering of the prior stack,
/// which follows unchanged.
pub proof fn lemma_render_push(entries: Seq<Seq<char>>, c: Seq<char>)
    requires
        entries.len() >= 1,
    ensures
        rendered(entries.push(c)) == c + separator() + rendered(entries),
    decreases entries.len(),
{
    if entries.len() == 1 {
        assert(entries.push(c).drop_first() =~= seq![c]);
        assert(joined_reversed(seq![c]) == c);
        assert(entries.push(c)[0] == entries[0]);
        assert(joined_reversed(entries.push(c)) == c + separator() + entries[0]);
        assert(rendered(entries) == entries[0]);
    } else {
        assert(entries.push(c).drop_first() =~= entries.drop_first().push(c));
        lemma_render_push(entries.drop_first(), c);
        assert(joined_reversed(entries.push(c)) =~= c + separator() + joined_reversed(entries));
    }
}

/// Context entries added later render strictly earlier: after two additions
/// `c1` then `c2`, the display reads `c2`, then `c1`, then the rendering of
/// the stack as it stood before, in that order.
pub proof fn lemma_render_reverse_order(entries: Seq<Seq<char>>, c1: Seq<char>, c2: Seq<char>)
    requires
        entries.len() >= 1,
    ensures
        rendered(entries.push(c1).push(c2)) == c2 + separator() + c1 + separator() + rendered(
            entries,
        ),
{
    lemma_render_push(entries, c1);
    lemma_render_push(entries.push(c1), c2);
    assert(c2 + separator() + (c1 + separator() + rendered(entries)) =~= c2 + separator() + c1
        + separator() + rendered(entries));
}

/// Renders a context stack: entries joined in reverse order of appending,
/// separated by `" -> "`, or the text `"no context"` when there are none.
pub fn render_context(entries: &Vec<String>) -> (r: String)
    ensures
        r@ == rendered(entries.deep_view()),
{
    if entries.len() == 0 {
        return "no context".to_owned();
    }
    let ghost all: Seq<Seq<char>> = entries.deep_view();
    let mut out = String::new();
    let mut i: usize = entries.len();
    while i > 0
        invariant
            i <= entries.len(),
            entries.deep_view() == all,
            out@ == joined_reversed(all.skip(i as int)),
        decreases i,
    {
        i = i - 1;
        if i + 1 < entries.len() {
            out.append(" -> ");
        }
        out.append(entries[i].as_str());
        proof {
            assert(all.skip(i as int).drop_first() =~= all.skip(i + 1));
            if i + 1 == entries.len() {
                assert(all.skip(i as int) =~= seq![all[i as int]]);
            }
        }
    }
    proof {
        assert(all.skip(0) =~= all);
    }
    out
}

} // verus!
