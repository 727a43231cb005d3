//! Small text-building helpers shared by the renderers: appending a
//! single character and joining rendered pieces with a separator.

use vstd::prelude::*;

verus! {

/// Relies on `String::push` of std: it appends the given character to the
/// end of the string, leaving everything before it unchanged.
pub assume_specification[ String::push ](s: &mut String, c: char)
    ensures
        final(s)@ == old(s)@.push(c),
;

/// The views of a list of strings, as character sequences.
pub open spec fn names_of(v: Seq<String>) -> Seq<Seq<char>> {
    v.map_values(|s: String| s@)
}

/// The pieces joined in order, with `sep` between neighbours and nothing
/// before the first or after the last piece.
pub open spec fn join_sep(parts: Seq<Seq<char>>, sep: Seq<char>) -> Seq<char>
    decreases parts.len(),
{
    if parts.len() == 0 {
        Seq::empty()
    } else if parts.len() == 1 {
        parts[0]
    } else {
        parts[0] + sep + join_sep(parts.drop_first(), sep)
    }
}

/// Joining one more piece appends a separator and the piece, unless the
/// piece is the first.
pub proof fn lemma_join_push(parts: Seq<Seq<char>>, x: Seq<char>, sep: Seq<char>)
    ensures
        join_sep(parts.push(x), sep) == if parts.len() == 0 {
            x
        } else {
            join_sep(parts, sep) + sep + x
        },
    decreases parts.len(),
{
    if parts.len() == 0 {
        assert(parts.push(x).len() == 1);
        assert(parts.push(x)[0] == x);
    } else {
        assert(parts.push(x).drop_first() =~= parts.drop_first().push(x));
        lemma_join_push(parts.drop_first(), x, sep);
        if parts.len() == 1 {
            assert(join_sep(parts, sep) == parts[0]);
            assert(parts.push(x)[0] == parts[0]);
        } else {
            assert(parts.push(x)[0] == parts[0]);
            assert(join_sep(parts, sep) + sep + x =~= parts[0] + sep + (join_sep(
                parts.drop_first(),
                sep,
            ) + sep + x));
        }
    }
}

/// Joins the pieces with the separator, as `join_sep` describes.
pub fn join_strings(parts: &Vec<String>, sep: &str) -> (r: String)
    ensures
        r@ == join_sep(parts@.map_values(|p: String| p@), sep@),
{
    let ghost view: Seq<Seq<char>> = parts@.map_values(|p: String| p@);
    let mut r = String::new();
    let mut i: usize = 0;
    while i < parts.len()
        invariant
            i <= parts.len(),
            view == parts@.map_values(|p: String| p@),
            r@ == join_sep(view.take(i as int), sep@),
        decreases parts.len() - i,
    {
        if i > 0 {
            r.append(sep);
        }
        r.append(parts[i].as_str());
        proof {
            assert(view.take(i + 1 as int) =~= view.take(i as int).push(view[i as int]));
            lemma_join_push(view.take(i as int), view[i as int], sep@);
        }
        i += 1;
    }
    proof {
        assert(view.take(parts@.len() as int) =~= view);
    }
    r
}

} // verus!
