//! Verified helpers for assembling source text.

use vstd::prelude::*;

verus! {

/// The views of a sequence of strings.
pub open spec fn views(items: Seq<String>) -> Seq<Seq<char>> {
    items.map_values(|s: String| s@)
}

/// The pieces of `items` joined with `sep` between neighbours.
pub open spec fn spec_join(items: Seq<Seq<char>>, sep: Seq<char>) -> Seq<char>
    decreases items.len(),
{
    if items.len() == 0 {
        Seq::empty()
    } else if items.len() == 1 {
        items[0]
    } else {
        spec_join(items.drop_last(), sep) + sep + items.last()
    }
}

/// Relies on std's `String::push_str`: appends the given string slice onto
/// the end of the string.
#[verifier::external_body]
pub(crate) fn push_str(out: &mut String, piece: &str)
    ensures
        final(out)@ == old(out)@ + piece@,
{
    out.push_str(piece)
}

/// Appends clones of the items of `src` onto `dst`.
pub(crate) fn append_cloned(dst: &mut Vec<String>, src: &Vec<String>)
    ensures
        final(dst)@ == old(dst)@ + src@,
{
    let mut i: usize = 0;
    proof {
        assert(dst@ =~= old(dst)@ + src@.take(0));
    }
    while i < src.len()
        invariant
            i <= src@.len(),
            dst@ == old(dst)@ + src@.take(i as int),
        decreases src@.len() - i,
    {
        dst.push(src[i].clone());
        proof {
            assert(old(dst)@ + src@.take(i + 1) =~= (old(dst)@ + src@.take(i as int)).push(
                src@[i as int],
            ));
        }
        i += 1;
    }
    proof {
        assert(src@.take(src@.len() as int) =~= src@);
    }
}

/// Appends the items of `items`, joined with `sep`, onto `out`.
pub(crate) fn push_join(out: &mut String, items: &Vec<String>, sep: &str)
    ensures
        final(out)@ == old(out)@ + spec_join(views(items@), sep@),
{
    let mut i: usize = 0;
    proof {
        assert(out@ =~= old(out)@ + spec_join(views(items@).take(0), sep@));
    }
    while i < items.len()
        invariant
            i <= items@.len(),
            out@ == old(out)@ + spec_join(views(items@).take(i as int), sep@),
        decreases items@.len() - i,
    {
        let ghost pre = out@;
        let ghost vs = views(items@);
        if i > 0 {
            push_str(out, sep);
        }
        push_str(out, items[i].as_str());
        proof {
            lemma_join_step(vs, sep@, i as int);
            if i == 0 {
                assert(pre + vs[0] =~= old(out)@ + spec_join(vs.take(1), sep@));
            } else {
                assert((pre + sep@) + vs[i as int] =~= old(out)@ + spec_join(
                    vs.take(i + 1),
                    sep@,
                ));
            }
        }
        i += 1;
    }
    proof {
        assert(views(items@).take(items@.len() as int) =~= views(items@));
    }
}

/// Joining one more piece appends the separator (except before the first
/// piece) and the piece itself.
proof fn lemma_join_step(items: Seq<Seq<char>>, sep: Seq<char>, i: int)
    requires
        0 <= i < items.len(),
    ensures
        spec_join(items.take(i + 1), sep) == if i == 0 {
            spec_join(items.take(i), sep) + items[0]
        } else {
            spec_join(items.take(i), sep) + sep + items[i]
        },
{
    let t = items.take(i + 1);
    assert(t.drop_last() =~= items.take(i));
    assert(t.last() == items[i]);
    if i == 0 {
        assert(spec_join(items.take(0), sep) + items[0] =~= items[0]);
    }
}

} // verus!
