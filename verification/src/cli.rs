//! Line-editing helpers for an interactive client: a bounded command
//! history and a longest-common-prefix completer.

use vstd::prelude::*;

verus! {

/// A bounded history of entered lines, most recent first.
pub struct BabicliHistory {
    max: usize,
    history: Vec<String>,
}

impl BabicliHistory {
    /// The held lines, most recent first.
    pub closed spec fn entries(&self) -> Seq<Seq<char>> {
        self.history@.map_values(|s: String| s@)
    }

    /// The capacity the history was made with.
    pub closed spec fn capacity(&self) -> usize {
        self.max
    }

    /// The history never outgrows its (positive) capacity.
    pub closed spec fn inv(&self) -> bool {
        self.history@.len() <= self.max && 1 <= self.max
    }

    /// The line at this position, if any: 0 is the most recent.
    pub fn read(&self, pos: usize) -> (r: Option<String>)
        ensures
            match r {
                Some(line) => pos < self.entries().len() && line@ == self.entries()[pos as int],
                None => pos >= self.entries().len(),
            },
    {
        if pos < self.history.len() {
            Some(self.history[pos].clone())
        } else {
            None
        }
    }

    /// Record a line in front; at capacity, the oldest line falls off.
    pub fn write(&mut self, val: &str)
        requires
            old(self).inv(),
        ensures
            final(self).inv(),
            final(self).capacity() == old(self).capacity(),
            final(self).entries() == if old(self).entries().len() == old(self).capacity() {
                seq![val@] + old(self).entries().drop_last()
            } else {
                seq![val@] + old(self).entries()
            },
    {
        let ghost old_entries = self.entries();
        if self.history.len() == self.max {
            self.history.pop();
            proof {
                assert(self.entries() =~= old_entries.drop_last());
            }
        }
        self.history.insert(0, val.to_owned());
        proof {
            if old_entries.len() == old(self).max {
                assert(self.entries() =~= seq![val@] + old_entries.drop_last());
            } else {
                assert(self.entries() =~= seq![val@] + old_entries);
            }
        }
    }
}

impl Default for BabicliHistory {
    /// An empty history holding up to 16 lines.
    fn default() -> (r: Self)
        ensures
            r.inv(),
            r.capacity() == 16,
            r.entries() == Seq::<Seq<char>>::empty(),
    {
        let h = BabicliHistory { max: 16, history: Vec::new() };
        proof {
            assert(h.entries() =~= Seq::<Seq<char>>::empty());
        }
        h
    }
}

/// Whether `p` is a prefix of `s`.
pub open spec fn str_has_prefix(s: Seq<char>, p: Seq<char>) -> bool {
    p.len() <= s.len() && s.subrange(0, p.len() as int) == p
}

/// The options that start with the typed input, in order.
pub open spec fn matching_options(opts: Seq<Seq<char>>, input: Seq<char>) -> Seq<Seq<char>> {
    opts.filter(|o: Seq<char>| str_has_prefix(o, input))
}

/// All candidates agree with the first one on every position below `l`,
/// and are at least `l` long.
pub open spec fn all_agree_upto(ms: Seq<Seq<char>>, l: int) -> bool {
    forall|j: int, k: int|
        0 <= j < ms.len() && 0 <= k < l ==> k < ms[j].len() && #[trigger] ms[j][k] == ms[0][k]
}

/// The shared prefix can grow past `l`: the first candidate has a
/// character there and every candidate agrees on it.
pub open spec fn extendable(ms: Seq<Seq<char>>, l: int) -> bool {
    l < ms[0].len() && forall|j: int|
        0 <= j < ms.len() ==> l < (#[trigger] ms[j]).len() && ms[j][l] == ms[0][l]
}

/// Filtering one more option keeps or drops it according to the prefix
/// test.
proof fn lemma_matching_push(opts: Seq<Seq<char>>, input: Seq<char>, i: int)
    requires
        0 <= i < opts.len(),
    ensures
        matching_options(opts.take(i + 1), input) == if str_has_prefix(opts[i], input) {
            matching_options(opts.take(i), input).push(opts[i])
        } else {
            matching_options(opts.take(i), input)
        },
{
    reveal_with_fuel(Seq::filter, 2);
    assert(opts.take(i + 1).drop_last() =~= opts.take(i));
    assert(opts.take(i + 1).last() == opts[i]);
}

/// No option filters to no matches.
proof fn lemma_matching_empty(input: Seq<char>)
    ensures
        matching_options(Seq::<Seq<char>>::empty(), input) == Seq::<Seq<char>>::empty(),
{
    reveal_with_fuel(Seq::filter, 1);
}

/// Whether `p` is a prefix of `s`, checked character by character.
fn has_prefix(s: &str, p: &str) -> (r: bool)
    ensures
        r == str_has_prefix(s@, p@),
{
    let slen = s.unicode_len();
    let plen = p.unicode_len();
    if plen > slen {
        return false;
    }
    let mut i: usize = 0;
    let mut matched = true;
    while i < plen
        invariant
            0 <= i <= plen,
            plen == p@.len(),
            slen == s@.len(),
            plen <= slen,
            matched <==> (forall|j: int| 0 <= j < i ==> s@[j] == p@[j]),
        decreases plen - i,
    {
        if s.get_char(i) != p.get_char(i) {
            matched = false;
        }
        i += 1;
    }
    proof {
        if matched {
            assert(s@.subrange(0, p@.len() as int) =~= p@);
        } else {
            let j = choose|j: int| 0 <= j < plen && s@[j] != p@[j];
            assert(s@.subrange(0, p@.len() as int)[j] == s@[j]);
        }
    }
    matched
}

/// A tab completer over a fixed set of commands.
pub struct BabicliCompletion {
    options: Vec<&'static str>,
}

impl BabicliCompletion {
    /// The completable commands, in order.
    pub closed spec fn options_spec(&self) -> Seq<Seq<char>> {
        self.options@.map_values(|o: &str| o@)
    }

    /// A completer over these commands.
    pub fn new(options: &[&'static str]) -> (r: Self)
        ensures
            r.options_spec() == options@.map_values(|o: &str| o@),
    {
        let n = options.len();
        let mut held: Vec<&'static str> = Vec::new();
        let mut i: usize = 0;
        while i < n
            invariant
                0 <= i <= n,
                n == options@.len(),
                held@ == options@.take(i as int),
            decreases n - i,
        {
            held.push(options[i]);
            proof {
                assert(held@ =~= options@.take(i as int + 1));
            }
            i += 1;
        }
        proof {
            assert(options@.take(n as int) =~= options@);
        }
        BabicliCompletion { options: held }
    }

    /// Complete the typed input against the commands that start with it:
    /// no match completes to nothing, a single match completes to that
    /// command, and several matches complete to their longest common
    /// prefix — unless that prefix is empty.
    pub fn get(&self, input: &str) -> (r: Option<String>)
        ensures
            ({
                let ms = matching_options(self.options_spec(), input@);
                match r {
                    None => ms.len() == 0 || (ms.len() >= 2 && !extendable(ms, 0)),
                    Some(res) => (ms.len() == 1 && res@ == ms[0]) || (ms.len() >= 2 && exists|l: int|
                        0 < l <= ms[0].len() && res@ == ms[0].take(l) && #[trigger] all_agree_upto(
                            ms,
                            l,
                        ) && !extendable(ms, l)),
                }
            }),
    {
        let ghost opts = self.options_spec();
        let n = self.options.len();
        let mut matches: Vec<&'static str> = Vec::new();
        let mut i: usize = 0;
        proof {
            assert(opts.take(0) =~= Seq::<Seq<char>>::empty());
            lemma_matching_empty(input@);
        }
        while i < n
            invariant
                0 <= i <= n,
                n == self.options@.len(),
                opts == self.options_spec(),
                opts.len() == n,
                forall|j: int| 0 <= j < n ==> opts[j] == (#[trigger] self.options@[j])@,
                matches@.map_values(|o: &str| o@) == matching_options(
                    opts.take(i as int),
                    input@,
                ),
            decreases n - i,
        {
            proof {
                lemma_matching_push(opts, input@, i as int);
            }
            if has_prefix(self.options[i], input) {
                matches.push(self.options[i]);
                proof {
                    assert(matches@.map_values(|o: &str| o@) =~= matching_options(
                        opts.take(i as int + 1),
                        input@,
                    ));
                }
            }
            i += 1;
        }
        proof {
            assert(opts.take(n as int) =~= opts);
        }
        let ghost ms = matching_options(opts, input@);
        if matches.len() == 0 {
            return None;
        }
        if matches.len() == 1 {
            return Some(matches[0].to_owned());
        }
        let first = matches[0];
        let flen = first.unicode_len();
        let m = matches.len();
        let mut l: usize = 0;
        let mut stop = false;
        while !stop && l < flen
            invariant
                0 <= l <= flen,
                flen == first@.len(),
                m == matches@.len(),
                m == ms.len(),
                2 <= m,
                first@ == ms[0],
                forall|j: int| 0 <= j < m ==> ms[j] == (#[trigger] matches@[j])@,
                all_agree_upto(ms, l as int),
                stop ==> !extendable(ms, l as int),
            decreases flen - l, (if stop { 0int } else { 1int }),
        {
            let mut j: usize = 0;
            while !stop && j < m
                invariant
                    0 <= j <= m,
                    m == matches@.len(),
                    m == ms.len(),
                    first@ == ms[0],
                    l < flen,
                    flen == first@.len(),
                    forall|k: int| 0 <= k < m ==> ms[k] == (#[trigger] matches@[k])@,
                    !stop ==> (forall|k: int|
                        0 <= k < j ==> l < (#[trigger] ms[k]).len() && ms[k][l as int] == ms[0][l as int]),
                    stop ==> !extendable(ms, l as int),
                decreases m - j, (if stop { 0int } else { 1int }),
            {
                let w = matches[j];
                if l >= w.unicode_len() {
                    stop = true;
                } else if w.get_char(l) != first.get_char(l) {
                    stop = true;
                }
                if !stop {
                    j += 1;
                }
            }
            if !stop {
                proof {
                    assert(extendable(ms, l as int));
                    assert forall|a: int, b: int|
                        0 <= a < ms.len() && 0 <= b < l as int + 1 implies b < ms[a].len()
                        && #[trigger] ms[a][b] == ms[0][b] by {
                        if b < l as int {
                            assert(all_agree_upto(ms, l as int));
                        }
                    }
                }
                l += 1;
            }
        }
        proof {
            if !stop {
                assert(l == flen);
                assert(!extendable(ms, l as int));
            }
        }
        if l == 0 {
            None
        } else {
            let completion = first.substring_char(0, l);
            proof {
                assert(completion@ =~= ms[0].take(l as int));
            }
            Some(completion.to_owned())
        }
    }
}

} // verus!
