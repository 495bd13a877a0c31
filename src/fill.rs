//! Placeholder substitution: a template is text holding tokens `{{NAME}}`;
//! each known token is replaced by its value, and since a value may hold
//! tokens of its own, the replacement runs again, up to a fixed number of
//! rounds.

use crate::text::{chars_of, push_char};
use vstd::prelude::*;
use vstd::string::*;

verus! {

/// The number of substitution rounds.
pub const FILL_ROUNDS: usize = 5;

/// The token that stands for `key` in a template.
pub open spec fn token(key: Seq<char>) -> Seq<char> {
    seq!['{', '{'] + key + seq!['}', '}']
}

pub open spec fn starts_at(s: Seq<char>, t: Seq<char>, i: int) -> bool {
    0 <= i && i + t.len() <= s.len() && s.subrange(i, i + t.len()) == t
}

/// Replaces, from position `i` on and from left to right, every occurrence
/// of the non-empty `needle` that does not overlap an earlier one.
pub open spec fn replace_from(s: Seq<char>, needle: Seq<char>, val: Seq<char>, i: int) -> Seq<char>
    decreases s.len() - i,
{
    if i < 0 || i >= s.len() || needle.len() == 0 {
        if 0 <= i <= s.len() {
            s.subrange(i, s.len() as int)
        } else {
            seq![]
        }
    } else if starts_at(s, needle, i) {
        val + replace_from(s, needle, val, i + needle.len())
    } else {
        seq![s[i]] + replace_from(s, needle, val, i + 1)
    }
}

pub open spec fn replace_all(s: Seq<char>, needle: Seq<char>, val: Seq<char>) -> Seq<char> {
    replace_from(s, needle, val, 0)
}

/// One round: each pair's token is replaced in turn, in the order given.
pub open spec fn apply_pairs(s: Seq<char>, pairs: Seq<(Seq<char>, Seq<char>)>) -> Seq<char>
    decreases pairs.len(),
{
    if pairs.len() == 0 {
        s
    } else {
        let out = apply_pairs(s, pairs.drop_last());
        replace_all(out, token(pairs.last().0), pairs.last().1)
    }
}

pub open spec fn fill_rounds(s: Seq<char>, pairs: Seq<(Seq<char>, Seq<char>)>, n: nat) -> Seq<char>
    decreases n,
{
    if n == 0 {
        s
    } else {
        fill_rounds(apply_pairs(s, pairs), pairs, (n - 1) as nat)
    }
}

/// What `fill` makes of a template.
pub open spec fn filled(template: Seq<char>, pairs: Seq<(Seq<char>, Seq<char>)>) -> Seq<char> {
    fill_rounds(template, pairs, FILL_ROUNDS as nat)
}

pub open spec fn pair_views(pairs: Seq<(&str, String)>) -> Seq<(Seq<char>, Seq<char>)> {
    pairs.map_values(|p: (&str, String)| (p.0@, p.1@))
}

proof fn lemma_fill_rounds_fixed(s: Seq<char>, pairs: Seq<(Seq<char>, Seq<char>)>, n: nat)
    requires
        apply_pairs(s, pairs) == s,
    ensures
        fill_rounds(s, pairs, n) == s,
    decreases n,
{
    if n > 0 {
        lemma_fill_rounds_fixed(s, pairs, (n - 1) as nat);
    }
}

fn starts_at_exec(s: &Vec<char>, t: &Vec<char>, i: usize) -> (r: bool)
    requires
        i <= s@.len(),
    ensures
        r == starts_at(s@, t@, i as int),
{
    if t.len() > s.len() - i {
        return false;
    }
    let mut k: usize = 0;
    while k < t.len()
        invariant
            i + t@.len() <= s@.len(),
            k <= t@.len(),
            forall|m: int| 0 <= m < k ==> s@[i + m] == t@[m],
        decreases t.len() - k,
    {
        assert(i + k < s.len());
        if s[i + k] != t[k] {
            assert(s@.subrange(i as int, i + t@.len())[k as int] != t@[k as int]);
            return false;
        }
        k = k + 1;
    }
    assert(s@.subrange(i as int, i + t@.len()) =~= t@);
    true
}

/// Replaces every occurrence of `needle` in `s`; also tells whether one was
/// found (when none was, the text is unchanged).
fn replace_chars(s: &Vec<char>, needle: &Vec<char>, val: &Vec<char>) -> (r: (Vec<char>, bool))
    requires
        needle@.len() > 0,
    ensures
        r.0@ == replace_all(s@, needle@, val@),
        !r.1 ==> r.0@ == s@,
{
    let mut out: Vec<char> = Vec::new();
    let mut found = false;
    let mut i: usize = 0;
    while i < s.len()
        invariant
            needle@.len() > 0,
            i <= s@.len(),
            out@ + replace_from(s@, needle@, val@, i as int) == replace_all(s@, needle@, val@),
            !found ==> out@ == s@.take(i as int),
        decreases s.len() - i,
    {
        let ghost before = out@;
        if starts_at_exec(s, needle, i) {
            let mut k: usize = 0;
            while k < val.len()
                invariant
                    k <= val@.len(),
                    out@ == before + val@.take(k as int),
                decreases val.len() - k,
            {
                out.push(val[k]);
                k = k + 1;
                assert(out@ =~= before + val@.take(k as int));
            }
            assert(val@.take(val@.len() as int) =~= val@);
            assert(out@ + replace_from(s@, needle@, val@, i + needle@.len()) =~= before + (val@ + replace_from(s@, needle@, val@, i + needle@.len())));
            found = true;
            i = i + needle.len();
        } else {
            out.push(s[i]);
            assert(out@ + replace_from(s@, needle@, val@, i + 1) =~= before + (seq![s@[i as int]] + replace_from(s@, needle@, val@, i + 1)));
            assert(!found ==> out@ =~= s@.take(i + 1));
            i = i + 1;
        }
    }
    assert(replace_from(s@, needle@, val@, i as int) =~= seq![]);
    assert(!found ==> s@.take(i as int) =~= s@);
    (out, found)
}

/// Collects characters into a `String`.
pub fn string_from_chars(v: &Vec<char>) -> (r: String)
    ensures
        r@ == v@,
{
    let mut out = String::new();
    let mut i: usize = 0;
    while i < v.len()
        invariant
            i <= v@.len(),
            out@ == v@.take(i as int),
        decreases v.len() - i,
    {
        push_char(&mut out, v[i]);
        i = i + 1;
        assert(out@ =~= v@.take(i as int));
    }
    assert(v@.take(v@.len() as int) =~= v@);
    out
}

fn token_chars(key: &str) -> (r: Vec<char>)
    ensures
        r@ == token(key@),
{
    let mut t: Vec<char> = Vec::new();
    t.push('{');
    t.push('{');
    let k = chars_of(key);
    let mut i: usize = 0;
    while i < k.len()
        invariant
            i <= k@.len(),
            k@ == key@,
            t@ == seq!['{', '{'] + k@.take(i as int),
        decreases k.len() - i,
    {
        t.push(k[i]);
        i = i + 1;
        assert(t@ =~= seq!['{', '{'] + k@.take(i as int));
    }
    t.push('}');
    t.push('}');
    assert(k@.take(k@.len() as int) =~= k@);
    assert(t@ =~= token(key@));
    t
}

/// Substitutes the pairs' values for their tokens `{{KEY}}` in `template`:
/// a round replaces each pair's token in turn, left to right, and rounds
/// repeat, at most `FILL_ROUNDS` times, until one finds no token.
pub fn fill(template: &str, pairs: &[(&str, String)]) -> (r: String)
    ensures
        r@ == filled(template@, pair_views(pairs@)),
{
    let ghost pv = pair_views(pairs@);
    let mut needles: Vec<Vec<char>> = Vec::new();
    let mut vals: Vec<Vec<char>> = Vec::new();
    let mut k: usize = 0;
    while k < pairs.len()
        invariant
            pv == pair_views(pairs@),
            k <= pairs@.len(),
            needles@.len() == k,
            vals@.len() == k,
            forall|m: int| 0 <= m < k ==> (#[trigger] needles@[m])@ == token(pv[m].0),
            forall|m: int| 0 <= m < k ==> (#[trigger] vals@[m])@ == pv[m].1,
        decreases pairs.len() - k,
    {
        needles.push(token_chars(pairs[k].0));
        vals.push(chars_of(pairs[k].1.as_str()));
        k = k + 1;
    }
    let mut out = chars_of(template);
    let mut round: usize = 0;
    while round < FILL_ROUNDS
        invariant_except_break
            filled(template@, pv) == fill_rounds(out@, pv, (FILL_ROUNDS - round) as nat),
        invariant
            pv == pair_views(pairs@),
            needles@.len() == pairs@.len(),
            vals@.len() == pairs@.len(),
            forall|m: int| 0 <= m < pairs@.len() ==> (#[trigger] needles@[m])@ == token(pv[m].0),
            forall|m: int| 0 <= m < pairs@.len() ==> (#[trigger] vals@[m])@ == pv[m].1,
            round <= FILL_ROUNDS,
        ensures
            filled(template@, pv) == out@,
        decreases FILL_ROUNDS - round,
    {
        let ghost start = out@;
        let mut changed = false;
        let mut k: usize = 0;
        while k < needles.len()
            invariant
                needles@.len() == pairs@.len(),
                vals@.len() == pairs@.len(),
                pv.len() == pairs@.len(),
                forall|m: int| 0 <= m < pairs@.len() ==> (#[trigger] needles@[m])@ == token(pv[m].0),
                forall|m: int| 0 <= m < pairs@.len() ==> (#[trigger] vals@[m])@ == pv[m].1,
                k <= needles@.len(),
                out@ == apply_pairs(start, pv.take(k as int)),
                !changed ==> out@ == start,
            decreases needles.len() - k,
        {
            let (next, found) = replace_chars(&out, &needles[k], &vals[k]);
            if found {
                changed = true;
            }
            out = next;
            assert(pv.take(k + 1).drop_last() =~= pv.take(k as int));
            k = k + 1;
        }
        assert(pv.take(pv.len() as int) =~= pv);
        round = round + 1;
        if !changed {
            proof {
                lemma_fill_rounds_fixed(start, pv, (FILL_ROUNDS - round) as nat);
                lemma_fill_rounds_fixed(start, pv, (FILL_ROUNDS - round + 1) as nat);
            }
            break;
        }
    }
    string_from_chars(&out)
}

} // verus!
