//! Named-field collections: entry lists keyed by identifier, kept strictly
//! sorted by key so that each key occurs once and the wire payload walks
//! them in the order the node expects.

use vstd::prelude::*;
use vstd::string::*;
use crate::text::{lemma_lex_connected, lemma_lex_irrefl, lemma_lex_trans, lex_lt, str_eq, str_lt};

verus! {

/// Keys strictly ascend in lexicographic order; in particular each key
/// occurs at most once.
pub open spec fn key_sorted<T>(s: Seq<(String, T)>) -> bool {
    forall|i: int, j: int|
        0 <= i < j < s.len() ==> lex_lt(#[trigger] s[i].0@, #[trigger] s[j].0@)
}

/// Index of the first entry at or past `i` carrying key `k`; `-1` where
/// there is none.
pub open spec fn key_index_from<T>(s: Seq<(String, T)>, k: Seq<char>, i: int) -> int
    decreases s.len() - i,
{
    if i < 0 || i >= s.len() {
        -1
    } else if s[i].0@ == k {
        i
    } else {
        key_index_from(s, k, i + 1)
    }
}

/// Index of the first entry carrying key `k`; `-1` where there is none.
pub open spec fn key_index<T>(s: Seq<(String, T)>, k: Seq<char>) -> int {
    key_index_from(s, k, 0)
}

/// The value stored under key `k`, where one is.
pub open spec fn lookup<T>(s: Seq<(String, T)>, k: Seq<char>) -> Option<T> {
    if key_index(s, k) >= 0 {
        Some(s[key_index(s, k)].1)
    } else {
        None
    }
}

/// The search from `i` lands on the first occurrence of `k`, and `-1` means
/// no occurrence at all.
proof fn lemma_key_index_props<T>(s: Seq<(String, T)>, k: Seq<char>, i: int)
    requires
        0 <= i <= s.len(),
    ensures
        key_index_from(s, k, i) == -1 ==> forall|l: int| i <= l < s.len() ==> (#[trigger] s[l].0)@
            != k,
        key_index_from(s, k, i) != -1 ==> i <= key_index_from(s, k, i) < s.len() && s[
            key_index_from(s, k, i)
        ].0@ == k && forall|l: int| i <= l < key_index_from(s, k, i) ==> (#[trigger] s[l].0)@ != k,
    decreases s.len() - i,
{
    if i < s.len() && s[i].0@ != k {
        lemma_key_index_props(s, k, i + 1);
    }
}

/// The search lands exactly on an index known to carry `k` first.
proof fn lemma_key_index_at<T>(s: Seq<(String, T)>, k: Seq<char>, j: int, i: int)
    requires
        0 <= j <= i < s.len(),
        s[i].0@ == k,
        forall|l: int| j <= l < i ==> (#[trigger] s[l].0)@ != k,
    ensures
        key_index_from(s, k, j) == i,
    decreases i - j,
{
    if j < i {
        lemma_key_index_at(s, k, j + 1, i);
    }
}

/// The search finds nothing where no entry carries `k`.
proof fn lemma_key_index_none<T>(s: Seq<(String, T)>, k: Seq<char>, j: int)
    requires
        0 <= j <= s.len(),
        forall|l: int| j <= l < s.len() ==> (#[trigger] s[l].0)@ != k,
    ensures
        key_index_from(s, k, j) == -1,
    decreases s.len() - j,
{
    if j < s.len() {
        lemma_key_index_none(s, k, j + 1);
    }
}

/// Stores `value` under `name`, replacing any value already there and
/// keeping the entries sorted: the collection afterwards holds `value` under
/// `name` and exactly what it held under every other key.
pub fn insert_entry<T>(entries: &mut Vec<(String, T)>, name: String, value: T)
    requires
        key_sorted(old(entries)@),
    ensures
        key_sorted(final(entries)@),
        lookup(final(entries)@, name@) == Some(value),
        forall|k: Seq<char>|
            k != name@ ==> lookup(final(entries)@, k) == lookup(old(entries)@, k),
{
    let ghost orig = entries@;
    let mut j: usize = 0;
    while j < entries.len() && str_lt(entries[j].0.as_str(), name.as_str())
        invariant
            0 <= j <= entries@.len(),
            entries@ == orig,
            key_sorted(entries@),
            forall|l: int| 0 <= l < j ==> lex_lt((#[trigger] entries@[l].0)@, name@),
        ensures
            0 <= j <= entries@.len(),
            entries@ == orig,
            forall|l: int| 0 <= l < j ==> lex_lt((#[trigger] entries@[l].0)@, name@),
            j < entries@.len() ==> !lex_lt(entries@[j as int].0@, name@),
        decreases entries@.len() - j,
    {
        j = j + 1;
    }
    proof {
        assert forall|l: int| 0 <= l < j implies (#[trigger] orig[l].0)@ != name@ by {
            lemma_lex_irrefl(name@, 0);
        }
    }
    if j < entries.len() && str_eq(entries[j].0.as_str(), name.as_str()) {
        // the key is present: replace its value
        let _ = entries.remove(j);
        entries.insert(j, (name, value));
        proof {
            let cur = entries@;
            assert(cur =~= orig.update(j as int, (name, value)));
            assert forall|a: int, b: int| 0 <= a < b < cur.len() implies lex_lt(
                (#[trigger] cur[a].0)@,
                (#[trigger] cur[b].0)@,
            ) by {
                assert(cur[a].0@ == orig[a].0@ || (a == j && cur[a].0@ == name@ && orig[a].0@
                    == name@));
                assert(cur[b].0@ == orig[b].0@ || (b == j && cur[b].0@ == name@ && orig[b].0@
                    == name@));
            }
            lemma_key_index_at(cur, name@, 0, j as int);
            assert forall|k: Seq<char>| k != name@ implies lookup(cur, k) == lookup(orig, k) by {
                lemma_key_index_props(orig, k, 0);
                lemma_key_index_props(cur, k, 0);
                if key_index(orig, k) >= 0 {
                    let m = key_index(orig, k);
                    assert(cur[m].0@ == k && cur[m].1 == orig[m].1);
                    lemma_key_index_at(cur, k, 0, m);
                } else {
                    lemma_key_index_none(cur, k, 0);
                }
            }
        }
    } else {
        proof {
            // where the scan stopped early, the key standing there orders
            // strictly past `name`
            if (j as int) < orig.len() {
                lemma_lex_connected(orig[j as int].0@, name@, 0);
                if !lex_lt(orig[j as int].0@, name@) && !lex_lt(name@, orig[j as int].0@) {
                    assert(orig[j as int].0@ =~= name@);
                }
                assert(lex_lt(name@, orig[j as int].0@));
            }
        }
        entries.insert(j, (name, value));
        proof {
            let cur = entries@;
            assert(cur == orig.insert(j as int, (name, value)));
            assert forall|a: int, b: int| 0 <= a < b < cur.len() implies lex_lt(
                (#[trigger] cur[a].0)@,
                (#[trigger] cur[b].0)@,
            ) by {
                if b < j {
                    assert(cur[a].0@ == orig[a].0@ && cur[b].0@ == orig[b].0@);
                } else if a > j {
                    assert(cur[a].0@ == orig[a - 1].0@ && cur[b].0@ == orig[b - 1].0@);
                } else if b == j {
                    assert(cur[a].0@ == orig[a].0@ && lex_lt(orig[a].0@, name@));
                } else if a == j {
                    assert(cur[b].0@ == orig[b - 1].0@ && j as int <= b - 1);
                    if b - 1 > j as int {
                        lemma_lex_trans(name@, orig[j as int].0@, orig[b - 1].0@, 0);
                    }
                } else {
                    // a < j < b: both keys order through name
                    assert(cur[a].0@ == orig[a].0@ && lex_lt(orig[a].0@, name@));
                    assert(cur[b].0@ == orig[b - 1].0@ && j as int <= b - 1);
                    if b - 1 > j as int {
                        lemma_lex_trans(name@, orig[j as int].0@, orig[b - 1].0@, 0);
                    }
                    lemma_lex_trans(orig[a].0@, name@, cur[b].0@, 0);
                }
            }
            lemma_key_index_at(cur, name@, 0, j as int);
            assert forall|k: Seq<char>| k != name@ implies lookup(cur, k) == lookup(orig, k) by {
                lemma_key_index_props(orig, k, 0);
                lemma_key_index_props(cur, k, 0);
                if key_index(orig, k) >= 0 {
                    let m = key_index(orig, k);
                    if m < j as int {
                        assert(cur[m].0@ == k && cur[m].1 == orig[m].1);
                        lemma_key_index_at(cur, k, 0, m);
                    } else {
                        assert(cur[m + 1].0@ == k && cur[m + 1].1 == orig[m].1);
                        assert forall|l: int| 0 <= l < m + 1 implies (#[trigger] cur[l].0)@ != k
                        by {
                            if l < j as int {
                                assert(cur[l].0@ == orig[l].0@);
                            } else if l == j as int {
                            } else {
                                assert(cur[l].0@ == orig[l - 1].0@);
                            }
                        }
                        lemma_key_index_at(cur, k, 0, m + 1);
                    }
                } else {
                    assert forall|l: int| 0 <= l < cur.len() implies (#[trigger] cur[l].0)@ != k
                    by {
                        if l < j as int {
                            assert(cur[l].0@ == orig[l].0@);
                        } else if l == j as int {
                        } else {
                            assert(cur[l].0@ == orig[l - 1].0@);
                        }
                    }
                    lemma_key_index_none(cur, k, 0);
                }
            }
        }
    }
}

} // verus!
