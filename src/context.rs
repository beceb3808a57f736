//! Key/value contexts used to fill `${name}` placeholders.

use vstd::prelude::*;
use vstd::string::*;

verus! {

/// Folds a list of pairs into a map; a later pair overrides an earlier one
/// with the same key.
pub open spec fn pairs_to_map(s: Seq<(Seq<char>, Seq<char>)>) -> Map<Seq<char>, Seq<char>>
    decreases s.len(),
{
    if s.len() == 0 {
        Map::empty()
    } else {
        pairs_to_map(s.drop_last()).insert(s.last().0, s.last().1)
    }
}

/// The views of a list of string pairs.
pub open spec fn pairs_view(v: Seq<(String, String)>) -> Seq<(Seq<char>, Seq<char>)> {
    v.map_values(|p: (String, String)| (p.0@, p.1@))
}

/// A value written in configuration as `"text"`, surrounding quote
/// characters included, stands for `text`; any other value stands for itself.
pub open spec fn strip_quotes(s: Seq<char>) -> Seq<char> {
    if s.len() >= 2 && s[0] == '"' && s[s.len() - 1] == '"' {
        s.subrange(1, s.len() - 1)
    } else {
        s
    }
}

/// A list of pairs with every value quote-stripped.
pub open spec fn stripped_pairs(v: Seq<(String, String)>) -> Seq<(Seq<char>, Seq<char>)> {
    v.map_values(|p: (String, String)| (p.0@, strip_quotes(p.1@)))
}

/// Removes the first and the last character of `value`.
pub fn rem_first_and_last(value: &str) -> (r: &str)
    ensures
        value@.len() >= 2 ==> r@ == value@.subrange(1, value@.len() - 1),
        value@.len() < 2 ==> r@.len() == 0,
{
    let n = value.unicode_len();
    if n >= 2 {
        value.substring_char(1, n - 1)
    } else {
        value.substring_char(0, 0)
    }
}

/// The value to use for a configured string: the quotes around it are dropped.
pub fn unquote(value: &str) -> (r: String)
    ensures
        r@ == strip_quotes(value@),
{
    let n = value.unicode_len();
    if n >= 2 && value.get_char(0) == '"' && value.get_char(n - 1) == '"' {
        rem_first_and_last(value).to_owned()
    } else {
        value.to_owned()
    }
}

/// The value of the last pair with key `k` is what the folded map holds.
pub proof fn lemma_last_pair_wins(s: Seq<(Seq<char>, Seq<char>)>, k: Seq<char>, j: int)
    requires
        0 <= j < s.len(),
        s[j].0 == k,
        forall|t: int| j < t < s.len() ==> (#[trigger] s[t]).0 != k,
    ensures
        pairs_to_map(s).contains_key(k),
        pairs_to_map(s)[k] == s[j].1,
    decreases s.len(),
{
    if j < s.len() - 1 {
        let d = s.drop_last();
        assert forall|t: int| j < t < d.len() implies (#[trigger] d[t]).0 != k by {
            assert(d[t] == s[t]);
        }
        lemma_last_pair_wins(d, k, j);
    }
}

/// A key that no pair carries is absent from the folded map.
pub proof fn lemma_absent_key(s: Seq<(Seq<char>, Seq<char>)>, k: Seq<char>)
    requires
        forall|t: int| 0 <= t < s.len() ==> (#[trigger] s[t]).0 != k,
    ensures
        !pairs_to_map(s).contains_key(k),
    decreases s.len(),
{
    if s.len() > 0 {
        let d = s.drop_last();
        assert forall|t: int| 0 <= t < d.len() implies (#[trigger] d[t]).0 != k by {
            assert(d[t] == s[t]);
        }
        lemma_absent_key(d, k);
    }
}

/// The value of `key` among `entries`, the last one where several pairs
/// carry it.
pub fn lookup<'a>(entries: &'a Vec<(String, String)>, key: &str) -> (r: Option<&'a String>)
    ensures
        r is None <==> !pairs_to_map(pairs_view(entries@)).contains_key(key@),
        r matches Some(v) ==> v@ == pairs_to_map(pairs_view(entries@))[key@],
{
    let k = key.to_owned();
    let mut i = entries.len();
    while i > 0
        invariant
            i <= entries@.len(),
            k@ == key@,
            forall|t: int| i <= t < entries@.len() ==> (#[trigger] entries@[t]).0@ != key@,
        decreases i,
    {
        i = i - 1;
        if entries[i].0 == k {
            proof {
                let s = pairs_view(entries@);
                assert forall|t: int| i < t < s.len() implies (#[trigger] s[t]).0 != key@ by {
                    assert(s[t].0 == entries@[t].0@);
                }
                lemma_last_pair_wins(s, key@, i as int);
            }
            return Some(&entries[i].1);
        }
    }
    proof {
        let s = pairs_view(entries@);
        assert forall|t: int| 0 <= t < s.len() implies (#[trigger] s[t]).0 != key@ by {
            assert(s[t].0 == entries@[t].0@);
        }
        lemma_absent_key(s, key@);
    }
    None
}

/// A copy of a list of string pairs.
pub fn clone_pairs(v: &Vec<(String, String)>) -> (r: Vec<(String, String)>)
    ensures
        pairs_view(r@) == pairs_view(v@),
{
    let mut out: Vec<(String, String)> = Vec::new();
    let n = v.len();
    for i in 0..n
        invariant
            n == v@.len(),
            pairs_view(out@) =~= pairs_view(v@.subrange(0, i as int)),
    {
        let ghost prev = out@;
        let k = v[i].0.clone();
        let w = v[i].1.clone();
        out.push((k, w));
        proof {
            let a = pairs_view(out@);
            let b = pairs_view(v@.subrange(0, i + 1));
            let c = pairs_view(v@.subrange(0, i as int));
            assert(pairs_view(prev) =~= c);
            assert(pairs_view(prev).len() == prev.len());
            assert(c.len() == i);
            assert(b.len() == i + 1);
            assert forall|j: int| 0 <= j < a.len() implies a[j] == b[j] by {
                if j < i {
                    assert(out@[j] == prev[j]);
                    assert(pairs_view(prev)[j] == c[j]);
                }
            }
            assert(a =~= b);
        }
    }
    proof {
        assert(v@.subrange(0, n as int) =~= v@);
    }
    out
}

/// Placeholder values by name. Entries are kept in insertion order and a
/// later entry overrides an earlier one with the same name.
pub struct Context {
    pub entries: Vec<(String, String)>,
}

impl View for Context {
    type V = Map<Seq<char>, Seq<char>>;

    open spec fn view(&self) -> Map<Seq<char>, Seq<char>> {
        pairs_to_map(pairs_view(self.entries@))
    }
}

impl Context {
    pub fn new() -> (r: Context)
        ensures
            r.entries@.len() == 0,
            r@ == Map::<Seq<char>, Seq<char>>::empty(),
    {
        Context { entries: Vec::new() }
    }

    /// Sets `key` to `value`, replacing any earlier value of `key`.
    pub fn insert(&mut self, key: String, value: String)
        ensures
            final(self).entries@ == old(self).entries@.push((key, value)),
            pairs_view(final(self).entries@) == pairs_view(old(self).entries@).push((key@, value@)),
            final(self)@ == old(self)@.insert(key@, value@),
    {
        self.entries.push((key, value));
        proof {
            let s = pairs_view(self.entries@);
            assert(s.drop_last() =~= pairs_view(old(self).entries@));
            assert(s =~= pairs_view(old(self).entries@).push((key@, value@)));
        }
    }

    /// Sets `key` to the quote-stripped `value`.
    pub fn insert_unquoted(&mut self, key: String, value: &str)
        ensures
            pairs_view(final(self).entries@) == pairs_view(old(self).entries@).push(
                (key@, strip_quotes(value@)),
            ),
            final(self)@ == old(self)@.insert(key@, strip_quotes(value@)),
    {
        let v = unquote(value);
        self.insert(key, v);
    }
}

} // verus!
