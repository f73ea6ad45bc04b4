//! Hit accounting: one count for each page name, kept in a labelled
//! Prometheus counter vector.

use prometheus::{IntCounterVec, Opts};
use vstd::prelude::*;

verus! {

/// The hit counter: an [`IntCounterVec`] with the single label `name`.
///
/// The verifier does not look inside: the vector's type has a parameter that
/// `prometheus` keeps private, so it cannot be declared on its own, and what
/// is known of it is what [`tallies`] and the three functions that call into
/// it say. The vector is built in [`HitCounter::new`] and nowhere else,
/// always with one label name, and no second handle to it is ever given out:
/// whoever holds the `HitCounter` mutably is the only one who can count on it.
#[verifier::external_body]
pub struct HitCounter {
    vec: IntCounterVec,
}

/// What the vector holds: for every key, the count that it reports under that
/// key. A key under which nothing was counted yet stands at zero.
///
/// The vector files its counters under the hash of the label value, see
/// [`label_key`], which is why the keys are `u64` and not page names.
pub uninterp spec fn tallies(c: HitCounter) -> Map<u64, u64>;

/// The key under which the vector files a label value: the 64-bit FNV-1a
/// hash of the value's bytes, as `MetricVec` computes it for a vector of one
/// label. Two names that hash alike share one count.
pub uninterp spec fn label_key(label: Seq<char>) -> u64;

/// A letter or an underscore, and the colon where `colon` allows it.
pub open spec fn ident_start(c: char, colon: bool) -> bool {
    ||| 'a' <= c <= 'z'
    ||| 'A' <= c <= 'Z'
    ||| c == '_'
    ||| (colon && c == ':')
}

/// The shape Prometheus asks of a metric name (`colon` set) and of a label
/// name (`colon` clear): a start character, then start characters and digits.
pub open spec fn is_ident(s: Seq<char>, colon: bool) -> bool {
    &&& s.len() > 0
    &&& ident_start(s[0], colon)
    &&& forall|i: int|
        1 <= i < s.len() ==> ident_start(#[trigger] s[i], colon) || '0' <= s[i] <= '9'
}

/// Whether a counter vector can be made of a metric name, a help text and
/// one label name.
pub open spec fn opens(name: Seq<char>, help: Seq<char>, label: Seq<char>) -> bool {
    help.len() > 0 && is_ident(name, true) && is_ident(label, false)
}

/// The counts of a vector on which nothing was counted.
pub open spec fn untouched() -> Map<u64, u64> {
    Map::total(|k: u64| 0u64)
}

/// One more than `n`, wrapping to zero after `u64::MAX` as an atomic add does.
pub open spec fn succ(n: u64) -> u64 {
    if n == u64::MAX {
        0
    } else {
        (n + 1) as u64
    }
}

/// The counts after one hit on `name`.
pub open spec fn bump(m: Map<u64, u64>, name: Seq<char>) -> Map<u64, u64> {
    m.insert(label_key(name), succ(m[label_key(name)]))
}

/// The counts after `n` hits on `name`.
pub open spec fn bump_times(m: Map<u64, u64>, name: Seq<char>, n: nat) -> Map<u64, u64>
    decreases n,
{
    if n == 0 {
        m
    } else {
        bump(bump_times(m, name, (n - 1) as nat), name)
    }
}

/// `IntCounterVec::new` on `Opts::new(name, help)` and the one label name
/// `label`.
///
/// Trusted: the call succeeds exactly when the help text is not empty, `name`
/// is a metric name and `label` a label name (this is what `Desc::new` looks
/// at; with one label and no constant labels no name can occur twice), and
/// the new vector has counted nothing.
#[verifier::external_body]
fn open_vec(name: &str, help: &str, label: &str) -> (r: Option<HitCounter>)
    ensures
        r is Some <==> opens(name@, help@, label@),
        r matches Some(c) ==> tallies(c) == untouched(),
{
    match IntCounterVec::new(Opts::new(name, help), &[label]) {
        Ok(vec) => Some(HitCounter { vec }),
        Err(_) => None,
    }
}

/// `with_label_values(&[label]).inc()` on the vector.
///
/// Trusted: the count under the key of `label` goes up by one, wrapping as
/// `fetch_add` does, and no other count changes. The vector has one label
/// name, so the lookup of one label value does not panic.
#[verifier::external_body]
fn tick(c: &mut HitCounter, label: &str)
    ensures
        tallies(*final(c)) == bump(tallies(*old(c)), label@),
{
    c.vec.with_label_values(&[label]).inc();
}

/// `with_label_values(&[label]).get()` on the vector.
///
/// Trusted: the result is the count under the key of `label`. (The lookup
/// may make the vector allocate a counter at zero, which changes no count.)
#[verifier::external_body]
fn read(c: &HitCounter, label: &str) -> (n: u64)
    ensures
        n == tallies(*c)[label_key(label@)],
{
    c.vec.with_label_values(&[label]).get()
}

impl View for HitCounter {
    type V = Map<u64, u64>;

    open spec fn view(&self) -> Map<u64, u64> {
        tallies(*self)
    }
}

impl HitCounter {
    /// The number of hits counted for `name`.
    pub open spec fn count(&self, name: Seq<char>) -> u64 {
        self@[label_key(name)]
    }

    /// A counter named `talks_hits`, labelled by `name`, with nothing
    /// counted.
    pub fn new() -> (c: HitCounter)
        ensures
            c@ == untouched(),
    {
        let name = "talks_hits";
        let help = "Number of hits to talks images";
        let label = "name";
        proof {
            reveal_strlit("talks_hits");
            reveal_strlit("Number of hits to talks images");
            reveal_strlit("name");
            assert(is_ident(name@, true));
            assert(is_ident(label@, false));
        }
        match open_vec(name, help, label) {
            Some(c) => c,
            None => unreached(),
        }
    }

    /// Counts one hit for `name`.
    pub fn record(&mut self, name: &str)
        ensures
            final(self)@ == bump(old(self)@, name@),
            final(self).count(name@) == succ(old(self).count(name@)),
            forall|other: Seq<char>|
                label_key(other) != label_key(name@) ==> final(self).count(other)
                    == old(self).count(other),
    {
        tick(self, name);
    }

    /// Reads the number of hits counted for `name`.
    pub fn hits(&self, name: &str) -> (n: u64)
        ensures
            n == self.count(name@),
    {
        read(self, name)
    }
}

/// Hits add up: `n` hits on `name` raise its count by exactly `n`, as long
/// as the count stays within `u64`, and leave every count under another key
/// as it was.
pub proof fn lemma_hits_accumulate(m: Map<u64, u64>, name: Seq<char>, n: nat)
    requires
        m[label_key(name)] + n <= u64::MAX,
    ensures
        bump_times(m, name, n)[label_key(name)] == m[label_key(name)] + n,
        forall|k: u64| k != label_key(name) ==> bump_times(m, name, n)[k] == m[k],
    decreases n,
{
    if n > 0 {
        lemma_hits_accumulate(m, name, (n - 1) as nat);
    }
}

/// A count never goes down: short of the wrap at `u64::MAX`, the count of
/// `name` after `n` hits is at least the count after `k <= n` hits.
pub proof fn lemma_hits_monotonic(m: Map<u64, u64>, name: Seq<char>, k: nat, n: nat)
    requires
        k <= n,
        m[label_key(name)] + n <= u64::MAX,
    ensures
        bump_times(m, name, k)[label_key(name)] <= bump_times(m, name, n)[label_key(name)],
{
    lemma_hits_accumulate(m, name, k);
    lemma_hits_accumulate(m, name, n);
}

} // verus!
