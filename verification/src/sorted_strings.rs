//! Strings in ascending order (by characters, as `str` orders them) without
//! repeats: the plugin ids listed in the settings panel.
use vstd::prelude::*;
use crate::session_save::strs_view;
use crate::text::str_equal;
use vstd::string::*;
use crate::workspace_plugins::PluginDescriptor;

verus! {

/// `a` sorts before `b`: at the first position where they differ `a` has the
/// smaller character, or `a` is a proper prefix of `b`.
pub open spec fn text_less(a: Seq<char>, b: Seq<char>) -> bool
    decreases a.len(),
{
    if a.len() == 0 {
        b.len() > 0
    } else if b.len() == 0 {
        false
    } else if (a[0] as int) < (b[0] as int) {
        true
    } else if a[0] == b[0] {
        text_less(a.drop_first(), b.drop_first())
    } else {
        false
    }
}

/// The order is a strict total order.
pub proof fn lemma_text_less_irreflexive(a: Seq<char>)
    ensures
        !text_less(a, a),
    decreases a.len(),
{
    if a.len() > 0 {
        lemma_text_less_irreflexive(a.drop_first());
    }
}

pub proof fn lemma_text_less_trichotomy(a: Seq<char>, b: Seq<char>)
    ensures
        text_less(a, b) || text_less(b, a) || a == b,
        !(text_less(a, b) && text_less(b, a)),
    decreases a.len(),
{
    if a.len() > 0 && b.len() > 0 && a[0] == b[0] {
        lemma_text_less_trichotomy(a.drop_first(), b.drop_first());
        if a.drop_first() == b.drop_first() {
            assert(a =~= seq![a[0]] + a.drop_first());
            assert(b =~= seq![b[0]] + b.drop_first());
        }
    } else if a.len() > 0 && b.len() > 0 {
        assert((a[0] as int) != (b[0] as int));
    } else if a.len() == 0 && b.len() == 0 {
        assert(a =~= b);
    }
}

pub proof fn lemma_text_less_transitive(a: Seq<char>, b: Seq<char>, c: Seq<char>)
    requires
        text_less(a, b),
        text_less(b, c),
    ensures
        text_less(a, c),
    decreases a.len(),
{
    if a.len() > 0 && b.len() > 0 && c.len() > 0 && a[0] == b[0] && b[0] == c[0] {
        lemma_text_less_transitive(a.drop_first(), b.drop_first(), c.drop_first());
    }
}

/// The strings are in strictly ascending order (so without repeats).
pub open spec fn strictly_sorted(s: Seq<Seq<char>>) -> bool {
    forall|i: int, j: int| 0 <= i < j < s.len() ==> text_less(#[trigger] s[i], #[trigger] s[j])
}

/// Whether `a` sorts before `b`.
pub fn text_less_exec(a: &str, b: &str) -> (less: bool)
    ensures
        less == text_less(a@, b@),
{
    let n = a.unicode_len();
    let m = b.unicode_len();
    let mut i: usize = 0;
    assert(a@.skip(0) =~= a@ && b@.skip(0) =~= b@);
    while i < n && i < m
        invariant
            n == a@.len(),
            m == b@.len(),
            i <= n,
            i <= m,
            text_less(a@, b@) == text_less(a@.skip(i as int), b@.skip(i as int)),
        decreases n - i,
    {
        let x = a.get_char(i);
        let y = b.get_char(i);
        assert(a@.skip(i as int)[0] == x && b@.skip(i as int)[0] == y);
        if (x as u32) < (y as u32) {
            return true;
        }
        if x != y {
            return false;
        }
        assert(a@.skip(i as int).drop_first() =~= a@.skip(i + 1));
        assert(b@.skip(i as int).drop_first() =~= b@.skip(i + 1));
        i = i + 1;
    }
    i == n && i < m
}

/// The distinct strings of `items`, in ascending order.
pub fn sorted_unique_strings(items: &[String]) -> (sorted: Vec<String>)
    ensures
        strictly_sorted(strs_view(sorted@)),
        forall|t: Seq<char>| strs_view(sorted@).contains(t) <==> strs_view(items@).contains(t),
{
    let ghost iv = strs_view(items@);
    let mut out: Vec<String> = Vec::new();
    let mut i: usize = 0;
    while i < items.len()
        invariant
            i <= items@.len(),
            iv == strs_view(items@),
            strictly_sorted(strs_view(out@)),
            forall|t: Seq<char>| strs_view(out@).contains(t) <==> iv.take(i as int).contains(t),
        decreases items.len() - i,
    {
        let x = items[i].as_str();
        let ghost ov = strs_view(out@);
        let mut p: usize = 0;
        while p < out.len() && text_less_exec(out[p].as_str(), x)
            invariant
                p <= out@.len(),
                ov == strs_view(out@),
                forall|j: int| 0 <= j < p ==> text_less(#[trigger] ov[j], x@),
            decreases out.len() - p,
        {
            p = p + 1;
        }
        let ghost pre = iv.take(i as int);
        let ghost nxt = iv.take(i + 1);
        assert(nxt =~= pre.push(x@));
        if p < out.len() && str_equal(out[p].as_str(), x) {
            assert(ov[p as int] == x@);
            assert forall|t: Seq<char>| ov.contains(t) <==> nxt.contains(t) by {
                if nxt.contains(t) {
                    let k = choose|k: int| 0 <= k < nxt.len() && nxt[k] == t;
                    if k < i {
                        assert(pre[k] == t);
                    }
                }
                if ov.contains(t) {
                    assert(pre.contains(t));
                    let k = choose|k: int| 0 <= k < pre.len() && pre[k] == t;
                    assert(nxt[k] == t);
                }
            }
        } else {
            proof {
                if p < out.len() {
                    lemma_text_less_trichotomy(ov[p as int], x@);
                }
                assert forall|j: int| p <= j < ov.len() implies text_less(x@, #[trigger] ov[j]) by {
                    lemma_text_less_trichotomy(ov[p as int], x@);
                    if j > p {
                        lemma_text_less_transitive(x@, ov[p as int], ov[j]);
                    }
                }
            }
            out.insert(p, items[i].clone());
            let ghost nv = strs_view(out@);
            assert(nv =~= ov.insert(p as int, x@));
            assert forall|a: int, b: int| 0 <= a < b < nv.len() implies text_less(#[trigger] nv[a], #[trigger] nv[b]) by {
                if b < p {
                    assert(nv[a] == ov[a] && nv[b] == ov[b]);
                } else if b == p {
                    assert(nv[a] == ov[a]);
                } else if a < p {
                    assert(nv[a] == ov[a] && nv[b] == ov[b - 1]);
                    lemma_text_less_transitive(ov[a], x@, ov[b - 1]);
                } else if a == p {
                    assert(nv[b] == ov[b - 1]);
                } else {
                    assert(nv[a] == ov[a - 1] && nv[b] == ov[b - 1]);
                }
            }
            assert forall|t: Seq<char>| nv.contains(t) <==> nxt.contains(t) by {
                if nv.contains(t) {
                    let k = choose|k: int| 0 <= k < nv.len() && nv[k] == t;
                    if k < p {
                        assert(ov[k] == t);
                        assert(ov.contains(t));
                        let q = choose|q: int| 0 <= q < pre.len() && pre[q] == t;
                        assert(nxt[q] == t);
                    } else if k > p {
                        assert(ov[k - 1] == t);
                        assert(ov.contains(t));
                        let q = choose|q: int| 0 <= q < pre.len() && pre[q] == t;
                        assert(nxt[q] == t);
                    } else {
                        assert(nxt[i as int] == t);
                    }
                }
                if nxt.contains(t) {
                    let k = choose|k: int| 0 <= k < nxt.len() && nxt[k] == t;
                    if k < i {
                        assert(pre[k] == t);
                        assert(ov.contains(t));
                        let q = choose|q: int| 0 <= q < ov.len() && ov[q] == t;
                        if q < p {
                            assert(nv[q] == t);
                        } else {
                            assert(nv[q + 1] == t);
                        }
                    } else {
                        assert(nv[p as int] == t);
                    }
                }
            }
        }
        i = i + 1;
    }
    assert(iv.take(items@.len() as int) =~= iv);
    out
}

/// The manifest ids of the plugins.
pub open spec fn plugin_ids_view(plugins: Seq<PluginDescriptor>) -> Seq<Seq<char>> {
    plugins.map_values(|p: PluginDescriptor| p.id@)
}

/// The distinct manifest ids of the discovered plugins, in ascending order.
pub fn sorted_plugin_ids(plugins: &[PluginDescriptor]) -> (ids: Vec<String>)
    ensures
        strictly_sorted(strs_view(ids@)),
        forall|t: Seq<char>| strs_view(ids@).contains(t) <==> plugin_ids_view(plugins@).contains(t),
{
    let mut all: Vec<String> = Vec::new();
    let mut i: usize = 0;
    while i < plugins.len()
        invariant
            i <= plugins@.len(),
            strs_view(all@) == plugin_ids_view(plugins@).take(i as int),
        decreases plugins.len() - i,
    {
        let ghost before = strs_view(all@);
        all.push(plugins[i].id.clone());
        assert(strs_view(all@) =~= before.push(plugins@[i as int].id@));
        assert(plugin_ids_view(plugins@).take(i + 1) =~= plugin_ids_view(plugins@).take(i as int).push(plugins@[i as int].id@));
        i = i + 1;
    }
    assert(plugin_ids_view(plugins@).take(plugins@.len() as int) =~= plugin_ids_view(plugins@));
    sorted_unique_strings(all.as_slice())
}

} // verus!
