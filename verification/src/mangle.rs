//! The name mangler: raw identifiers of the intermediate representation
//! are made safe for the target language by replacing every `'.'` with
//! `'_'` and appending one trailing `'_'`; function names additionally
//! receive an `"_f"` suffix, which keeps them apart from every mangled
//! variable or label and from the synthesized process entry point even
//! when a function is literally named `main`.

use vstd::prelude::*;

verus! {

/// The character substitution of the mangler: `'.'` becomes `'_'`,
/// everything else is kept.
pub open spec fn repl_char(c: char) -> char {
    if c == '.' {
        '_'
    } else {
        c
    }
}

/// The mangled form of a variable, label or other raw identifier.
pub open spec fn mangle_spec(s: Seq<char>) -> Seq<char> {
    s.map_values(|c: char| repl_char(c)).push('_')
}

/// The mangled form of a function name: the general mangling plus the
/// `"_f"` suffix.
pub open spec fn func_rep_spec(s: Seq<char>) -> Seq<char> {
    mangle_spec(s) + "_f"@
}

/// Mangles one raw identifier.
pub fn mangle(s: &str) -> (r: String)
    ensures
        r@ == mangle_spec(s@),
{
    let n = s.unicode_len();
    let mut r = String::new();
    let mut i: usize = 0;
    while i < n
        invariant
            i <= n,
            n == s@.len(),
            r@ == s@.take(i as int).map_values(|c: char| repl_char(c)),
        decreases n - i,
    {
        let c = s.get_char(i);
        if c == '.' {
            r.push('_');
        } else {
            r.push(c);
        }
        proof {
            assert(s@.take(i + 1 as int).map_values(|c: char| repl_char(c)) =~= s@.take(
                i as int,
            ).map_values(|c: char| repl_char(c)).push(repl_char(s@[i as int])));
        }
        i += 1;
    }
    proof {
        assert(s@.take(n as int) =~= s@);
    }
    r.push('_');
    r
}

/// Mangles one function name.
pub fn func_rep(func: String) -> (r: String)
    ensures
        r@ == func_rep_spec(func@),
{
    let m = mangle(func.as_str());
    m.concat("_f")
}

/// Mangling is injective over distinct well-formed identifiers — ones
/// that do not themselves contain `'_'` — including identifiers that
/// differ only in `'.'` characters.
pub proof fn lemma_mangle_injective(s1: Seq<char>, s2: Seq<char>)
    requires
        !s1.contains('_'),
        !s2.contains('_'),
        s1 != s2,
    ensures
        mangle_spec(s1) != mangle_spec(s2),
{
    let m1 = s1.map_values(|c: char| repl_char(c));
    let m2 = s2.map_values(|c: char| repl_char(c));
    if s1.len() == s2.len() {
        if forall|i: int| 0 <= i < s1.len() ==> s1[i] == s2[i] {
            assert(s1 =~= s2);
        }
        let i = choose|i: int| 0 <= i < s1.len() && s1[i] != s2[i];
        assert(s1[i] != '_');
        assert(s2[i] != '_');
        assert(repl_char(s1[i]) != repl_char(s2[i]));
        assert(mangle_spec(s1)[i] == m1[i]);
        assert(mangle_spec(s2)[i] == m2[i]);
        assert(mangle_spec(s1)[i] != mangle_spec(s2)[i]);
    } else {
        assert(mangle_spec(s1).len() != mangle_spec(s2).len());
    }
}

/// Function-name mangling is injective over distinct well-formed
/// identifiers as well.
pub proof fn lemma_func_rep_injective(s1: Seq<char>, s2: Seq<char>)
    requires
        !s1.contains('_'),
        !s2.contains('_'),
        s1 != s2,
    ensures
        func_rep_spec(s1) != func_rep_spec(s2),
{
    lemma_mangle_injective(s1, s2);
    let m1 = mangle_spec(s1);
    let m2 = mangle_spec(s2);
    if m1.len() == m2.len() {
        if forall|i: int| 0 <= i < m1.len() ==> m1[i] == m2[i] {
            assert(m1 =~= m2);
        }
        let i = choose|i: int| 0 <= i < m1.len() && m1[i] != m2[i];
        assert(func_rep_spec(s1)[i] == m1[i]);
        assert(func_rep_spec(s2)[i] == m2[i]);
        assert(func_rep_spec(s1)[i] != func_rep_spec(s2)[i]);
    } else {
        assert(func_rep_spec(s1).len() != func_rep_spec(s2).len());
    }
}

/// A mangled function name never collides with a mangled variable or
/// label name: the former ends in `'f'`, the latter in `'_'`.
pub proof fn lemma_func_rep_disjoint(s1: Seq<char>, s2: Seq<char>)
    ensures
        mangle_spec(s1) != func_rep_spec(s2),
{
    reveal_strlit("_f");
    assert(mangle_spec(s1).last() == '_');
    assert(func_rep_spec(s2).last() == "_f"@[1]);
    assert(func_rep_spec(s2).last() == 'f');
}

} // verus!
