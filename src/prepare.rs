//! The export preparer: a deterministic order of the export table, the
//! label placed in linker directives, and a collision-free identifier
//! ("stub") for each export.

use crate::dll::{ExportEntry, ExportEntryView};
use crate::text::{
    chars_of, decimal, lemma_decimal_digits, lemma_decimal_injective, push_decimal,
    sanitize_identifier, sanitized,
};
use vstd::prelude::*;
use vstd::string::*;

verus! {

broadcast use vstd::seq_lib::group_to_multiset_ensures;

pub open spec fn entry_views(s: Seq<ExportEntry>) -> Seq<ExportEntryView> {
    s.map_values(|e: ExportEntry| e@)
}

/// Lexicographic order on character sequences from position `i` on,
/// comparing characters by code point; a proper prefix comes first.
pub open spec fn chars_le_from(a: Seq<char>, b: Seq<char>, i: int) -> bool
    decreases a.len() - i,
{
    if i < 0 || i >= a.len() {
        true
    } else if i >= b.len() {
        false
    } else if a[i] != b[i] {
        a[i] < b[i]
    } else {
        chars_le_from(a, b, i + 1)
    }
}

/// The order of `String` values: lexicographic by code point.
pub open spec fn chars_le(a: Seq<char>, b: Seq<char>) -> bool {
    chars_le_from(a, b, 0)
}

/// The sort key of an export is `(ordinal, name)`.
pub open spec fn key_le(a: ExportEntryView, b: ExportEntryView) -> bool {
    a.ordinal < b.ordinal || (a.ordinal == b.ordinal && chars_le(a.name, b.name))
}

pub open spec fn same_key(a: ExportEntryView, b: ExportEntryView) -> bool {
    a.ordinal == b.ordinal && a.name == b.name
}

/// Inserts `e` after every element whose key is not greater than its own,
/// scanning from the back of the sorted `s`.
pub open spec fn insert_sorted(s: Seq<ExportEntryView>, e: ExportEntryView) -> Seq<ExportEntryView>
    decreases s.len(),
{
    if s.len() == 0 || key_le(s.last(), e) {
        s.push(e)
    } else {
        insert_sorted(s.drop_last(), e).push(s.last())
    }
}

/// The stable sort of `s` by `(ordinal, name)`.
pub open spec fn sort_by_key(s: Seq<ExportEntryView>) -> Seq<ExportEntryView>
    decreases s.len(),
{
    if s.len() == 0 {
        s
    } else {
        insert_sorted(sort_by_key(s.drop_last()), s.last())
    }
}

pub open spec fn is_key_sorted(s: Seq<ExportEntryView>) -> bool {
    forall|i: int, j: int| 0 <= i < j < s.len() ==> key_le(#[trigger] s[i], #[trigger] s[j])
}

proof fn lemma_chars_le_total(a: Seq<char>, b: Seq<char>, i: int)
    requires
        0 <= i,
    ensures
        chars_le_from(a, b, i) || chars_le_from(b, a, i),
    decreases a.len() - i,
{
    if i < a.len() && i < b.len() && a[i] == b[i] {
        lemma_chars_le_total(a, b, i + 1);
    }
}

proof fn lemma_chars_le_trans(a: Seq<char>, b: Seq<char>, c: Seq<char>, i: int)
    requires
        0 <= i,
        chars_le_from(a, b, i),
        chars_le_from(b, c, i),
    ensures
        chars_le_from(a, c, i),
    decreases a.len() - i,
{
    if i < a.len() && i < b.len() && i < c.len() && a[i] == b[i] && b[i] == c[i] {
        lemma_chars_le_trans(a, b, c, i + 1);
    }
}

proof fn lemma_chars_le_antisym(a: Seq<char>, b: Seq<char>, i: int)
    requires
        0 <= i <= a.len(),
        i <= b.len(),
        chars_le_from(a, b, i),
        chars_le_from(b, a, i),
    ensures
        a.len() == b.len(),
        forall|k: int| i <= k < a.len() ==> a[k] == b[k],
    decreases a.len() - i,
{
    if i < a.len() {
        lemma_chars_le_antisym(a, b, i + 1);
    }
}

proof fn lemma_key_le_total(a: ExportEntryView, b: ExportEntryView)
    ensures
        key_le(a, b) || key_le(b, a),
{
    lemma_chars_le_total(a.name, b.name, 0);
}

proof fn lemma_key_le_trans(a: ExportEntryView, b: ExportEntryView, c: ExportEntryView)
    requires
        key_le(a, b),
        key_le(b, c),
    ensures
        key_le(a, c),
{
    if a.ordinal == b.ordinal && b.ordinal == c.ordinal {
        lemma_chars_le_trans(a.name, b.name, c.name, 0);
    }
}

proof fn lemma_key_le_antisym(a: ExportEntryView, b: ExportEntryView)
    requires
        key_le(a, b),
        key_le(b, a),
    ensures
        same_key(a, b),
{
    lemma_chars_le_antisym(a.name, b.name, 0);
    assert(a.name =~= b.name);
}

proof fn lemma_key_le_refl(a: ExportEntryView)
    ensures
        key_le(a, a),
{
    lemma_key_le_total(a, a);
}

/// Inserting at the first position from the back whose predecessor is not
/// greater is what `insert_sorted` does.
proof fn lemma_insert_at(s: Seq<ExportEntryView>, e: ExportEntryView, j: int)
    requires
        0 <= j <= s.len(),
        forall|k: int| j <= k < s.len() ==> !key_le(#[trigger] s[k], e),
        j == 0 || key_le(s[j - 1], e),
    ensures
        insert_sorted(s, e) == s.insert(j, e),
    decreases s.len(),
{
    if s.len() == j {
        assert(s.push(e) =~= s.insert(j, e));
    } else {
        lemma_insert_at(s.drop_last(), e, j);
        assert(s.drop_last().insert(j, e).push(s.last()) =~= s.insert(j, e));
    }
}

proof fn lemma_insert_sorted_props(s: Seq<ExportEntryView>, e: ExportEntryView)
    requires
        is_key_sorted(s),
    ensures
        is_key_sorted(insert_sorted(s, e)),
        insert_sorted(s, e).to_multiset() == s.to_multiset().insert(e),
        insert_sorted(s, e).len() == s.len() + 1,
    decreases s.len(),
{
    if s.len() == 0 || key_le(s.last(), e) {
        let r = s.push(e);
        assert forall|i: int, j: int| 0 <= i < j < r.len() implies key_le(#[trigger] r[i], #[trigger] r[j]) by {
            if j == r.len() - 1 && i < s.len() {
                if i < s.len() - 1 {
                    lemma_key_le_trans(s[i], s.last(), e);
                }
            }
        }
    } else {
        let t = s.drop_last();
        assert(is_key_sorted(t));
        lemma_insert_sorted_props(t, e);
        let u = insert_sorted(t, e);
        let r = u.push(s.last());
        lemma_key_le_total(s.last(), e);
        assert(t.push(s.last()) =~= s);
        assert forall|k: int| 0 <= k < u.len() implies key_le(#[trigger] u[k], s.last()) by {
            assert(u.to_multiset().count(u[k]) > 0);
            assert(u.to_multiset() == t.to_multiset().insert(e));
            if u[k] != e {
                assert(t.to_multiset().count(u[k]) > 0);
                assert(t.contains(u[k]));
                let m = choose|m: int| 0 <= m < t.len() && t[m] == u[k];
                assert(s[m] == t[m]);
            }
        }
        assert forall|i: int, j: int| 0 <= i < j < r.len() implies key_le(#[trigger] r[i], #[trigger] r[j]) by {
            if j == r.len() - 1 {
                assert(r[i] == u[i]);
            } else {
                assert(r[i] == u[i] && r[j] == u[j]);
            }
        }
    }
}

/// The sort orders the exports by `(ordinal, name)` and keeps every entry.
pub proof fn lemma_sort_props(s: Seq<ExportEntryView>)
    ensures
        is_key_sorted(sort_by_key(s)),
        sort_by_key(s).to_multiset() == s.to_multiset(),
        sort_by_key(s).len() == s.len(),
    decreases s.len(),
{
    if s.len() > 0 {
        lemma_sort_props(s.drop_last());
        lemma_insert_sorted_props(sort_by_key(s.drop_last()), s.last());
        assert(s.drop_last().push(s.last()) =~= s);
    }
}

/// The entries of `s` that share the key of `k`, in their order in `s`.
pub open spec fn with_key(s: Seq<ExportEntryView>, k: ExportEntryView) -> Seq<ExportEntryView>
    decreases s.len(),
{
    if s.len() == 0 {
        seq![]
    } else if same_key(s.last(), k) {
        with_key(s.drop_last(), k).push(s.last())
    } else {
        with_key(s.drop_last(), k)
    }
}

proof fn lemma_with_key_push(s: Seq<ExportEntryView>, x: ExportEntryView, k: ExportEntryView)
    ensures
        with_key(s.push(x), k) == if same_key(x, k) {
            with_key(s, k).push(x)
        } else {
            with_key(s, k)
        },
{
    assert(s.push(x).drop_last() =~= s);
}

proof fn lemma_insert_with_key(t: Seq<ExportEntryView>, e: ExportEntryView, k: ExportEntryView)
    ensures
        with_key(insert_sorted(t, e), k) == if same_key(e, k) {
            with_key(t, k).push(e)
        } else {
            with_key(t, k)
        },
    decreases t.len(),
{
    if t.len() == 0 || key_le(t.last(), e) {
        lemma_with_key_push(t, e, k);
    } else {
        let u = t.drop_last();
        lemma_insert_with_key(u, e, k);
        lemma_with_key_push(insert_sorted(u, e), t.last(), k);
        assert(u.push(t.last()) =~= t);
        lemma_with_key_push(u, t.last(), k);
        if same_key(t.last(), k) && same_key(e, k) {
            lemma_key_le_refl(e);
            assert(t.last().name == e.name);
        }
    }
}

/// The sort is stable: for every key, the entries that share it come out in
/// the order in which they went in.
pub proof fn lemma_sort_stable(s: Seq<ExportEntryView>, k: ExportEntryView)
    ensures
        with_key(sort_by_key(s), k) == with_key(s, k),
    decreases s.len(),
{
    if s.len() > 0 {
        lemma_sort_stable(s.drop_last(), k);
        lemma_insert_with_key(sort_by_key(s.drop_last()), s.last(), k);
        assert(s.drop_last().push(s.last()) =~= s);
        lemma_with_key_push(s.drop_last(), s.last(), k);
    }
}

/// `a` precedes `b` or shares its position in the `(ordinal, name)` order.
fn key_le_exec(a_ordinal: u16, a_name: &Vec<char>, b_ordinal: u16, b_name: &Vec<char>) -> (r: bool)
    ensures
        r == (a_ordinal < b_ordinal || (a_ordinal == b_ordinal && chars_le(a_name@, b_name@))),
{
    if a_ordinal != b_ordinal {
        return a_ordinal < b_ordinal;
    }
    let mut i: usize = 0;
    while i < a_name.len() && i < b_name.len() && a_name[i] == b_name[i]
        invariant
            i <= a_name.len(),
            i <= b_name.len(),
            chars_le(a_name@, b_name@) == chars_le_from(a_name@, b_name@, i as int),
        decreases a_name.len() - i,
    {
        i = i + 1;
    }
    if i >= a_name.len() {
        true
    } else if i >= b_name.len() {
        false
    } else {
        a_name[i] < b_name[i]
    }
}

pub open spec fn pick(ev: Seq<ExportEntryView>, order: Seq<usize>) -> Seq<ExportEntryView> {
    order.map_values(|k: usize| ev[k as int])
}

/// The positions of `entries` in stable `(ordinal, name)` order.
fn sorted_order(entries: &[ExportEntry]) -> (order: Vec<usize>)
    ensures
        forall|k: int| 0 <= k < order@.len() ==> order@[k] < entries@.len(),
        pick(entry_views(entries@), order@) == sort_by_key(entry_views(entries@)),
{
    let ghost ev = entry_views(entries@);
    let n = entries.len();
    let mut names: Vec<Vec<char>> = Vec::new();
    let mut i: usize = 0;
    while i < n
        invariant
            n == entries@.len(),
            i <= n,
            names@.len() == i,
            forall|k: int| 0 <= k < i ==> (#[trigger] names@[k])@ == entries@[k].name@,
        decreases n - i,
    {
        names.push(chars_of(entries[i].name.as_str()));
        i = i + 1;
    }
    let mut order: Vec<usize> = Vec::new();
    let mut i: usize = 0;
    while i < n
        invariant
            n == entries@.len(),
            ev == entry_views(entries@),
            names@.len() == n,
            forall|k: int| 0 <= k < n ==> (#[trigger] names@[k])@ == entries@[k].name@,
            i <= n,
            order@.len() == i,
            forall|k: int| 0 <= k < order@.len() ==> order@[k] < n,
            pick(ev, order@) == sort_by_key(ev.take(i as int)),
        decreases n - i,
    {
        let mut j: usize = order.len();
        while j > 0 && !key_le_exec(entries[order[j - 1]].ordinal, &names[order[j - 1]], entries[i].ordinal, &names[i])
            invariant
                n == entries@.len(),
                ev == entry_views(entries@),
                names@.len() == n,
                forall|k: int| 0 <= k < n ==> (#[trigger] names@[k])@ == entries@[k].name@,
                i < n,
                j <= order@.len(),
                forall|k: int| 0 <= k < order@.len() ==> order@[k] < n,
                forall|k: int| j <= k < order@.len() ==> !key_le(#[trigger] pick(ev, order@)[k], ev[i as int]),
            decreases j,
        {
            j = j - 1;
        }
        proof {
            lemma_insert_at(pick(ev, order@), ev[i as int], j as int);
            assert(ev.take(i + 1).drop_last() =~= ev.take(i as int));
        }
        order.insert(j, i);
        i = i + 1;
        assert(pick(ev, order@) =~= sort_by_key(ev.take(i as int)));
    }
    assert(ev.take(n as int) =~= ev);
    order
}

/// The render-ready form of one export.
#[derive(Debug, Clone)]
pub struct PreparedExport<'a> {
    /// The original name, decoration characters included.
    pub raw_name: &'a str,
    pub ordinal: u16,
    pub forwarder: Option<&'a str>,
    /// The public name in linker directives: the raw name, or
    /// `Noname<ordinal>` for an export by ordinal only.
    pub label: String,
    /// The identifier from which generated symbol names are built.
    pub stub: String,
}

pub struct PreparedView {
    pub raw_name: Seq<char>,
    pub ordinal: u16,
    pub forwarder: Option<Seq<char>>,
    pub label: Seq<char>,
    pub stub: Seq<char>,
}

pub open spec fn opt_str_view(o: Option<&str>) -> Option<Seq<char>> {
    match o {
        Some(s) => Some(s@),
        None => None,
    }
}

impl<'a> View for PreparedExport<'a> {
    type V = PreparedView;

    open spec fn view(&self) -> PreparedView {
        PreparedView {
            raw_name: self.raw_name@,
            ordinal: self.ordinal,
            forwarder: opt_str_view(self.forwarder),
            label: self.label@,
            stub: self.stub@,
        }
    }
}

pub open spec fn prepared_views(s: Seq<PreparedExport>) -> Seq<PreparedView> {
    s.map_values(|p: PreparedExport| p@)
}

/// An export by ordinal only carries a name of the form `#<ordinal>`.
pub open spec fn is_noname(name: Seq<char>) -> bool {
    name.len() > 0 && name[0] == '#'
}

pub open spec fn label_of(e: ExportEntryView) -> Seq<char> {
    if is_noname(e.name) {
        "Noname"@ + decimal(e.ordinal as nat)
    } else {
        e.name
    }
}

/// The stub an export asks for before collisions are resolved.
pub open spec fn candidate_stub(e: ExportEntryView) -> Seq<char> {
    if is_noname(e.name) {
        "Unnamed"@ + decimal(e.ordinal as nat)
    } else {
        sanitized(e.name)
    }
}

/// The stub with the ordinal appended, used when the candidate is taken.
pub open spec fn suffixed_stub(e: ExportEntryView) -> Seq<char> {
    candidate_stub(e) + seq!['_'] + decimal(e.ordinal as nat)
}

pub open spec fn stubs_of(ps: Seq<PreparedView>) -> Seq<Seq<char>> {
    ps.map_values(|p: PreparedView| p.stub)
}

/// Prepares exports that are already in order: each keeps its candidate
/// stub unless an earlier export holds it, and then takes the suffixed one.
pub open spec fn prepare_sorted(s: Seq<ExportEntryView>) -> Seq<PreparedView>
    decreases s.len(),
{
    if s.len() == 0 {
        seq![]
    } else {
        let prev = prepare_sorted(s.drop_last());
        let e = s.last();
        let stub = if stubs_of(prev).contains(candidate_stub(e)) {
            suffixed_stub(e)
        } else {
            candidate_stub(e)
        };
        prev.push(
            PreparedView {
                raw_name: e.name,
                ordinal: e.ordinal,
                forwarder: e.forwarder,
                label: label_of(e),
                stub,
            },
        )
    }
}

/// What the preparer makes of an export table in any order.
pub open spec fn prepared(entries: Seq<ExportEntryView>) -> Seq<PreparedView> {
    prepare_sorted(sort_by_key(entries))
}

/// The preparer gives one record per export.
pub proof fn lemma_prepare_sorted_len(s: Seq<ExportEntryView>)
    ensures
        prepare_sorted(s).len() == s.len(),
    decreases s.len(),
{
    if s.len() > 0 {
        lemma_prepare_sorted_len(s.drop_last());
    }
}

/// Each prepared export keeps the name, ordinal and forwarder of the entry
/// at its position, and takes its label; its stub is the candidate or the
/// suffixed candidate.
pub proof fn lemma_prepare_sorted_entry(s: Seq<ExportEntryView>, i: int)
    requires
        0 <= i < s.len(),
    ensures
        prepare_sorted(s).len() == s.len(),
        prepare_sorted(s)[i].raw_name == s[i].name,
        prepare_sorted(s)[i].ordinal == s[i].ordinal,
        prepare_sorted(s)[i].forwarder == s[i].forwarder,
        prepare_sorted(s)[i].label == label_of(s[i]),
        prepare_sorted(s)[i].stub == candidate_stub(s[i]) || prepare_sorted(s)[i].stub
            == suffixed_stub(s[i]),
    decreases s.len(),
{
    lemma_prepare_sorted_len(s);
    if i < s.len() - 1 {
        lemma_prepare_sorted_entry(s.drop_last(), i);
    }
}

fn label_and_candidate(e: &ExportEntry) -> (r: (String, String))
    ensures
        r.0@ == label_of(e@),
        r.1@ == candidate_stub(e@),
{
    let name = e.name.as_str();
    if name.unicode_len() > 0 && name.get_char(0) == '#' {
        let mut label = String::from_str("Noname");
        push_decimal(&mut label, e.ordinal as u64);
        let mut stub = String::from_str("Unnamed");
        push_decimal(&mut stub, e.ordinal as u64);
        (label, stub)
    } else {
        (e.name.clone(), sanitize_identifier(name))
    }
}

fn holds_stub(used: &Vec<String>, stub: &String) -> (r: bool)
    ensures
        r == used@.map_values(|u: String| u@).contains(stub@),
{
    let mut k: usize = 0;
    while k < used.len()
        invariant
            k <= used.len(),
            forall|m: int| 0 <= m < k ==> used@[m]@ != stub@,
        decreases used.len() - k,
    {
        if used[k] == *stub {
            assert(used@.map_values(|u: String| u@)[k as int] == stub@);
            return true;
        }
        k = k + 1;
    }
    false
}

/// Sorts the exports by `(ordinal, name)`, stably, and gives each its label
/// and a stub that no earlier export in that order holds: the sanitized name
/// (`Unnamed<ordinal>` for an export by ordinal only), with `_<ordinal>`
/// appended when an earlier export already took it.
pub fn prepare_exports<'a>(entries: &'a [ExportEntry]) -> (r: Vec<PreparedExport<'a>>)
    ensures
        prepared_views(r@) == prepared(entry_views(entries@)),
{
    let ghost ev = entry_views(entries@);
    let order = sorted_order(entries);
    let ghost sorted = sort_by_key(ev);
    proof {
        lemma_sort_props(ev);
    }
    // The stubs taken so far, searched linearly: vstd's set specifications
    // prove little about `String` keys.
    let mut used: Vec<String> = Vec::new();
    let mut out: Vec<PreparedExport<'a>> = Vec::new();
    let mut k: usize = 0;
    while k < order.len()
        invariant
            ev == entry_views(entries@),
            sorted == sort_by_key(ev),
            pick(ev, order@) == sorted,
            forall|m: int| 0 <= m < order@.len() ==> order@[m] < entries@.len(),
            k <= order@.len(),
            prepared_views(out@) == prepare_sorted(sorted.take(k as int)),
            used@.map_values(|u: String| u@) == stubs_of(prepared_views(out@)),
        decreases order.len() - k,
    {
        let e = &entries[order[k]];
        assert(e@ == sorted[k as int]);
        let (label, candidate) = label_and_candidate(e);
        let stub = if holds_stub(&used, &candidate) {
            let mut s = candidate;
            s.append("_");
            push_decimal(&mut s, e.ordinal as u64);
            proof {
                reveal_strlit("_");
            }
            s
        } else {
            candidate
        };
        let forwarder = match &e.forwarder {
            Some(f) => Some(f.as_str()),
            None => None,
        };
        let p = PreparedExport {
            raw_name: e.name.as_str(),
            ordinal: e.ordinal,
            forwarder,
            label,
            stub: stub.clone(),
        };
        proof {
            assert(sorted.take(k + 1).drop_last() =~= sorted.take(k as int));
            assert(stub@ =~= prepare_sorted(sorted.take(k + 1)).last().stub);
        }
        let ghost old_out = out@;
        let ghost old_used = used@;
        out.push(p);
        used.push(stub);
        proof {
            assert(prepared_views(out@) =~= prepared_views(old_out).push(p@));
            assert(used@.map_values(|u: String| u@) =~= old_used.map_values(|u: String| u@).push(p@.stub));
            assert(stubs_of(prepared_views(out@)) =~= stubs_of(prepared_views(old_out)).push(p@.stub));
        }
        k = k + 1;
        assert(prepared_views(out@) =~= prepare_sorted(sorted.take(k as int)));
        assert(used@.map_values(|u: String| u@) =~= stubs_of(prepared_views(out@)));
    }
    assert(sorted.take(order.len() as int) =~= sorted);
    out
}

/// Entries of `u` that share an ordinal and a name are identical.
pub open spec fn keys_identify(u: Seq<ExportEntryView>) -> bool {
    forall|i: int, j: int|
        0 <= i < u.len() && 0 <= j < u.len() && same_key(#[trigger] u[i], #[trigger] u[j]) ==> u[i]
            == u[j]
}

proof fn lemma_last_is_max(s: Seq<ExportEntryView>, x: ExportEntryView)
    requires
        is_key_sorted(s),
        s.contains(x),
    ensures
        key_le(x, s.last()),
{
    let k = choose|k: int| 0 <= k < s.len() && s[k] == x;
    if k < s.len() - 1 {
        assert(key_le(s[k], s[s.len() - 1]));
    } else {
        lemma_key_le_refl(x);
    }
}

/// Two sorted sequences with the same elements are equal when no two
/// distinct elements share a key.
proof fn lemma_sorted_unique(s1: Seq<ExportEntryView>, s2: Seq<ExportEntryView>, u: Seq<ExportEntryView>)
    requires
        is_key_sorted(s1),
        is_key_sorted(s2),
        s1.to_multiset() == s2.to_multiset(),
        keys_identify(u),
        forall|i: int| 0 <= i < s1.len() ==> u.contains(#[trigger] s1[i]),
    ensures
        s1 == s2,
    decreases s1.len(),
{
    assert(s1.len() == s1.to_multiset().len());
    assert(s2.len() == s2.to_multiset().len());
    if s1.len() == 0 {
        assert(s1 =~= s2);
    } else {
        let n = s1.len() - 1;
        let x = s1.last();
        let y = s2.last();
        assert(s1.contains(x) && s1.to_multiset().count(x) > 0);
        assert(s2.to_multiset().count(x) > 0);
        assert(s2.contains(y) && s2.to_multiset().count(y) > 0);
        assert(s1.to_multiset().count(y) > 0);
        lemma_last_is_max(s2, x);
        lemma_last_is_max(s1, y);
        lemma_key_le_antisym(x, y);
        assert(u.contains(x));
        let ky = choose|k: int| 0 <= k < s1.len() && s1[k] == y;
        assert(u.contains(s1[ky]));
        let ix = choose|i: int| 0 <= i < u.len() && u[i] == x;
        let iy = choose|i: int| 0 <= i < u.len() && u[i] == y;
        assert(u[ix] == u[iy]);
        let t1 = s1.drop_last();
        let t2 = s2.drop_last();
        assert(s1.remove(n) =~= t1);
        assert(s2.remove(n) =~= t2);
        assert(t1.to_multiset() == s1.to_multiset().remove(x));
        assert(t2.to_multiset() == s2.to_multiset().remove(y));
        assert(is_key_sorted(t1));
        assert(is_key_sorted(t2));
        assert forall|i: int| 0 <= i < t1.len() implies u.contains(#[trigger] t1[i]) by {
            assert(t1[i] == s1[i]);
        }
        lemma_sorted_unique(t1, t2, u);
        assert(s1 =~= t1.push(x));
        assert(s2 =~= t2.push(y));
    }
}

/// The preparer does not depend on the order in which the exports are
/// given: two tables holding the same entries prepare to the same sequence,
/// ordered by `(ordinal, name)`, provided that entries sharing an ordinal
/// and a name are identical.
pub proof fn lemma_prepare_order_independent(a: Seq<ExportEntryView>, b: Seq<ExportEntryView>)
    requires
        a.to_multiset() == b.to_multiset(),
        keys_identify(a),
    ensures
        prepared(a) == prepared(b),
        prepared(a).len() == a.len(),
        forall|i: int, j: int|
            0 <= i < j < a.len() ==> key_le(
                ExportEntryView {
                    name: (#[trigger] prepared(a)[i]).raw_name,
                    ordinal: prepared(a)[i].ordinal,
                    forwarder: prepared(a)[i].forwarder,
                },
                ExportEntryView {
                    name: (#[trigger] prepared(a)[j]).raw_name,
                    ordinal: prepared(a)[j].ordinal,
                    forwarder: prepared(a)[j].forwarder,
                },
            ),
{
    lemma_sort_props(a);
    lemma_sort_props(b);
    let sa = sort_by_key(a);
    let sb = sort_by_key(b);
    assert forall|i: int| 0 <= i < sa.len() implies a.contains(#[trigger] sa[i]) by {
        assert(sa.contains(sa[i]));
        assert(sa.to_multiset().count(sa[i]) > 0);
    }
    lemma_sorted_unique(sa, sb, a);
    lemma_prepare_sorted_len(sa);
    assert forall|i: int, j: int| 0 <= i < j < a.len() implies key_le(
        ExportEntryView {
            name: (#[trigger] prepared(a)[i]).raw_name,
            ordinal: prepared(a)[i].ordinal,
            forwarder: prepared(a)[i].forwarder,
        },
        ExportEntryView {
            name: (#[trigger] prepared(a)[j]).raw_name,
            ordinal: prepared(a)[j].ordinal,
            forwarder: prepared(a)[j].forwarder,
        },
    ) by {
        lemma_prepare_sorted_entry(sa, i);
        lemma_prepare_sorted_entry(sa, j);
        assert(key_le(sa[i], sa[j]));
    }
}

/// Some export needed the suffixed stub and found it already taken.
pub open spec fn suffix_taken(s: Seq<ExportEntryView>) -> bool {
    exists|k: int|
        0 <= k < s.len() && #[trigger] stubs_of(prepare_sorted(s.take(k))).contains(candidate_stub(s[k]))
            && stubs_of(prepare_sorted(s.take(k))).contains(suffixed_stub(s[k]))
}

pub open spec fn stubs_distinct(ps: Seq<PreparedView>) -> bool {
    forall|i: int, j: int| 0 <= i < ps.len() && 0 <= j < ps.len() && i != j ==> (#[trigger] ps[i]).stub != (#[trigger] ps[j]).stub
}

proof fn lemma_prepare_sorted_distinct(s: Seq<ExportEntryView>)
    requires
        !suffix_taken(s),
    ensures
        stubs_distinct(prepare_sorted(s)),
    decreases s.len(),
{
    lemma_prepare_sorted_len(s);
    if s.len() > 0 {
        let t = s.drop_last();
        assert forall|k: int| 0 <= k < t.len() implies !(#[trigger] stubs_of(prepare_sorted(t.take(k))).contains(candidate_stub(t[k]))
            && stubs_of(prepare_sorted(t.take(k))).contains(suffixed_stub(t[k]))) by {
            assert(t.take(k) =~= s.take(k));
            assert(t[k] == s[k]);
        }
        lemma_prepare_sorted_distinct(t);
        let prev = prepare_sorted(t);
        let last = s.len() - 1;
        assert(s.take(last) =~= t);
        let r = prepare_sorted(s);
        lemma_prepare_sorted_len(t);
        assert forall|i: int| 0 <= i < prev.len() implies (#[trigger] r[i]).stub != r[last].stub by {
            assert(stubs_of(prev)[i] == prev[i].stub);
            assert(stubs_of(prev).contains(prev[i].stub));
        }
    }
}

/// Preparing a prefix of an ordered table gives the prefix of its
/// preparation.
proof fn lemma_prepare_sorted_prefix(s: Seq<ExportEntryView>, k: int)
    requires
        0 <= k <= s.len(),
    ensures
        prepare_sorted(s.take(k)) == prepare_sorted(s).take(k),
    decreases s.len(),
{
    lemma_prepare_sorted_len(s);
    if k == s.len() {
        assert(s.take(k) =~= s);
        assert(prepare_sorted(s).take(k) =~= prepare_sorted(s));
    } else {
        let t = s.drop_last();
        lemma_prepare_sorted_prefix(t, k);
        assert(t.take(k) =~= s.take(k));
        lemma_prepare_sorted_len(t);
        assert(prepare_sorted(s).take(k) =~= prepare_sorted(t).take(k));
    }
}

proof fn lemma_suffix_taken_duplicates(s: Seq<ExportEntryView>)
    requires
        suffix_taken(s),
    ensures
        !stubs_distinct(prepare_sorted(s)),
{
    let k = choose|k: int|
        0 <= k < s.len() && #[trigger] stubs_of(prepare_sorted(s.take(k))).contains(candidate_stub(s[k]))
            && stubs_of(prepare_sorted(s.take(k))).contains(suffixed_stub(s[k]));
    let pk = prepare_sorted(s.take(k));
    let r = prepare_sorted(s);
    lemma_prepare_sorted_len(s);
    lemma_prepare_sorted_prefix(s, k);
    lemma_prepare_sorted_prefix(s, k + 1);
    assert(s.take(k + 1).drop_last() =~= s.take(k));
    assert(r[k] == prepare_sorted(s.take(k + 1))[k]);
    assert(r[k].stub == suffixed_stub(s[k]));
    let j = choose|j: int| 0 <= j < stubs_of(pk).len() && stubs_of(pk)[j] == suffixed_stub(s[k]);
    assert(pk[j] == r[j]);
    assert(r[j].stub == r[k].stub);
}

/// No two prepared exports share a stub, exactly when no export finds both
/// its candidate stub and its suffixed stub taken by earlier exports.
pub proof fn lemma_prepared_stubs_unique(entries: Seq<ExportEntryView>)
    ensures
        stubs_distinct(prepared(entries)) <==> !suffix_taken(sort_by_key(entries)),
{
    if suffix_taken(sort_by_key(entries)) {
        lemma_suffix_taken_duplicates(sort_by_key(entries));
    } else {
        lemma_prepare_sorted_distinct(sort_by_key(entries));
    }
}

/// An export named `#<ordinal>` is labelled `Noname<ordinal>` wherever it
/// stands; its stub is `Unnamed<ordinal>`, with `_<ordinal>` appended only
/// when an earlier export took that name. Alone in its table it gets
/// `Unnamed<ordinal>` itself.
pub proof fn lemma_noname_export(entries: Seq<ExportEntryView>, i: int)
    requires
        0 <= i < entries.len(),
        prepared(entries)[i].raw_name == seq!['#'] + decimal(prepared(entries)[i].ordinal as nat),
    ensures
        prepared(entries)[i].label == "Noname"@ + decimal(prepared(entries)[i].ordinal as nat),
        prepared(entries)[i].stub == "Unnamed"@ + decimal(prepared(entries)[i].ordinal as nat)
            || prepared(entries)[i].stub == "Unnamed"@ + decimal(prepared(entries)[i].ordinal as nat)
            + seq!['_'] + decimal(prepared(entries)[i].ordinal as nat),
        entries.len() == 1 ==> prepared(entries)[i].stub == "Unnamed"@ + decimal(
            prepared(entries)[i].ordinal as nat,
        ),
{
    lemma_sort_props(entries);
    let s = sort_by_key(entries);
    lemma_prepare_sorted_entry(s, i);
    assert(is_noname(s[i].name));
    if entries.len() == 1 {
        assert(s.drop_last() =~= Seq::<ExportEntryView>::empty());
        assert(stubs_of(prepare_sorted(s.drop_last())) =~= Seq::<Seq<char>>::empty());
    }
}

proof fn lemma_unnamed_has_no_underscore(n: nat)
    ensures
        forall|i: int| 0 <= i < ("Unnamed"@ + decimal(n)).len() ==> #[trigger] ("Unnamed"@ + decimal(n))[i] != '_',
        "Unnamed"@.len() == 7,
{
    reveal_strlit("Unnamed");
    lemma_decimal_digits(n);
    assert forall|i: int| 0 <= i < ("Unnamed"@ + decimal(n)).len() implies #[trigger] ("Unnamed"@ + decimal(n))[i] != '_' by {
        if i >= 7 {
            assert(("Unnamed"@ + decimal(n))[i] == decimal(n)[i - 7]);
        }
    }
}

/// An export named `#<ordinal>` gets exactly the stub `Unnamed<ordinal>`
/// when every export prepared before it has another ordinal and no named
/// one among them sanitizes to that stub.
pub proof fn lemma_noname_stub_exact(entries: Seq<ExportEntryView>, i: int)
    requires
        0 <= i < entries.len(),
        prepared(entries)[i].raw_name == seq!['#'] + decimal(prepared(entries)[i].ordinal as nat),
        forall|j: int| 0 <= j < i ==> (#[trigger] prepared(entries)[j]).ordinal != prepared(entries)[i].ordinal,
        forall|j: int|
            0 <= j < i && !is_noname((#[trigger] prepared(entries)[j]).raw_name) ==> sanitized(
                prepared(entries)[j].raw_name,
            ) != "Unnamed"@ + decimal(prepared(entries)[i].ordinal as nat),
    ensures
        prepared(entries)[i].stub == "Unnamed"@ + decimal(prepared(entries)[i].ordinal as nat),
        prepared(entries)[i].label == "Noname"@ + decimal(prepared(entries)[i].ordinal as nat),
{
    let s = sort_by_key(entries);
    lemma_sort_props(entries);
    lemma_prepare_sorted_len(s);
    let ps = prepare_sorted(s);
    let ord = ps[i].ordinal;
    let u = "Unnamed"@ + decimal(ord as nat);
    lemma_prepare_sorted_entry(s, i);
    assert(is_noname(s[i].name));
    assert(candidate_stub(s[i]) == u);
    let pk = prepare_sorted(s.take(i));
    lemma_prepare_sorted_prefix(s, i);
    lemma_prepare_sorted_prefix(s, i + 1);
    lemma_unnamed_has_no_underscore(ord as nat);
    assert forall|j: int| 0 <= j < pk.len() implies (#[trigger] pk[j]).stub != u by {
        assert(pk[j] == ps[j]);
        lemma_prepare_sorted_entry(s, j);
        let c = candidate_stub(s[j]);
        if ps[j].stub == suffixed_stub(s[j]) {
            assert(suffixed_stub(s[j])[c.len() as int] == '_');
            if suffixed_stub(s[j]) == u {
                assert(u[c.len() as int] == '_');
            }
        } else if is_noname(s[j].name) {
            let v = "Unnamed"@ + decimal(s[j].ordinal as nat);
            if v == u {
                lemma_unnamed_has_no_underscore(s[j].ordinal as nat);
                assert(v.subrange(7, v.len() as int) =~= decimal(s[j].ordinal as nat));
                assert(u.subrange(7, u.len() as int) =~= decimal(ord as nat));
                lemma_decimal_injective(s[j].ordinal as nat, ord as nat);
            }
        }
    }
    assert(!stubs_of(pk).contains(u)) by {
        if stubs_of(pk).contains(u) {
            let j = choose|j: int| 0 <= j < stubs_of(pk).len() && stubs_of(pk)[j] == u;
            assert(pk[j].stub == u);
        }
    }
    assert(s.take(i + 1).drop_last() =~= s.take(i));
    assert(ps[i] == prepare_sorted(s.take(i + 1))[i]);
}

} // verus!
