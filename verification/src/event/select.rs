use vstd::prelude::*;

verus! {

/// What polling one source gave.
pub enum PollOutcome<M> {
    /// The source produced a message.
    Item(M),
    /// The source has ended.
    Ended,
    /// The source has nothing yet.
    Waiting,
}

/// Records what polling the next source of a round gave. A message ends the
/// round and is its result; otherwise the round goes on, noting whether the
/// source has ended (for [`settle_round`]).
pub fn record_outcome<M>(exhausted: &mut Vec<bool>, outcome: PollOutcome<M>) -> (r: Option<M>)
    ensures
        match outcome {
            PollOutcome::Item(m) => r == Some(m) && final(exhausted)@ == old(exhausted)@,
            PollOutcome::Ended => r is None && final(exhausted)@ == old(exhausted)@.push(true),
            PollOutcome::Waiting => r is None && final(exhausted)@ == old(exhausted)@.push(false),
        },
{
    match outcome {
        PollOutcome::Item(m) => Some(m),
        PollOutcome::Ended => {
            exhausted.push(true);
            None
        },
        PollOutcome::Waiting => {
            exhausted.push(false);
            None
        },
    }
}

/// `s` with its element at `index` moved to the front, the elements before it
/// each moved one place back, and the elements after it left in place (the
/// prefix `..=index` rotated right by one).
pub open spec fn rotate_prefix<T>(s: Seq<T>, index: int) -> Seq<T> {
    seq![s[index]] + s.subrange(0, index) + s.subrange(index + 1, s.len() as int)
}

/// Moves the exhausted source at `index` to the front of the sources, where
/// exhausted sources are gathered until the round is swept. Sources after
/// `index` keep their places, so a round can go on polling them by index.
pub fn retire_source<T>(sources: &mut Vec<T>, index: usize)
    requires
        index < old(sources).len(),
    ensures
        final(sources)@ == rotate_prefix(old(sources)@, index as int),
{
    let source = sources.remove(index);
    sources.insert(0, source);
}

/// Drops the first `retired` sources: those a round gathered at the front.
pub fn sweep_sources<T>(sources: &mut Vec<T>, retired: usize)
    requires
        retired <= old(sources).len(),
    ensures
        final(sources)@ == old(sources)@.subrange(retired as int, old(sources)@.len() as int),
{
    let rest = sources.split_off(retired);
    *sources = rest;
}

/// The sources after a round has polled the first `j` of them, where
/// `exhausted[i]` says whether source `i` reported that it has ended.
pub open spec fn round_state<T>(s: Seq<T>, exhausted: Seq<bool>, j: nat) -> Seq<T>
    decreases j,
{
    if j == 0 {
        s
    } else {
        let p = round_state(s, exhausted, (j - 1) as nat);
        if exhausted[j - 1] {
            rotate_prefix(p, j - 1)
        } else {
            p
        }
    }
}

/// How many of the first `j` sources have ended.
pub open spec fn retired_count(exhausted: Seq<bool>, j: nat) -> nat
    decreases j,
{
    if j == 0 {
        0
    } else {
        retired_count(exhausted, (j - 1) as nat) + if exhausted[j - 1] { 1nat } else { 0nat }
    }
}

/// The first `j` sources that have not ended, in the order they had.
pub open spec fn live_sources<T>(s: Seq<T>, exhausted: Seq<bool>, j: nat) -> Seq<T>
    decreases j,
{
    if j == 0 {
        Seq::empty()
    } else {
        live_sources(s, exhausted, (j - 1) as nat) + if exhausted[j - 1] {
            Seq::empty()
        } else {
            seq![s[j - 1]]
        }
    }
}

/// The ended sources among the first `j`, latest first.
pub open spec fn ended_sources<T>(s: Seq<T>, exhausted: Seq<bool>, j: nat) -> Seq<T>
    decreases j,
{
    if j == 0 {
        Seq::empty()
    } else if exhausted[j - 1] {
        seq![s[j - 1]] + ended_sources(s, exhausted, (j - 1) as nat)
    } else {
        ended_sources(s, exhausted, (j - 1) as nat)
    }
}

proof fn lemma_round_shape<T>(s: Seq<T>, exhausted: Seq<bool>, j: nat)
    requires
        j <= s.len(),
        j <= exhausted.len(),
    ensures
        round_state(s, exhausted, j) == ended_sources(s, exhausted, j) + live_sources(s, exhausted, j)
            + s.subrange(j as int, s.len() as int),
        ended_sources(s, exhausted, j).len() == retired_count(exhausted, j),
        live_sources(s, exhausted, j).len() + retired_count(exhausted, j) == j,
    decreases j,
{
    if j > 0 {
        let k = (j - 1) as nat;
        lemma_round_shape(s, exhausted, k);
        let p = round_state(s, exhausted, k);
        let e = ended_sources(s, exhausted, k);
        let l = live_sources(s, exhausted, k);
        let rest = s.subrange(k as int, s.len() as int);
        assert(p == e + l + rest);
        assert(p[k as int] == s[k as int]);
        if exhausted[k as int] {
            assert(p.subrange(0, k as int) =~= e + l);
            assert(p.subrange(k as int + 1, p.len() as int) =~= s.subrange(j as int, s.len() as int));
            assert(rotate_prefix(p, k as int) =~= seq![s[k as int]] + e + l + s.subrange(j as int, s.len() as int));
            assert(round_state(s, exhausted, j) == rotate_prefix(p, k as int));
            assert(ended_sources(s, exhausted, j) == seq![s[k as int]] + e);
            assert(live_sources(s, exhausted, j) =~= l);
            assert(round_state(s, exhausted, j) =~= ended_sources(s, exhausted, j) + live_sources(s, exhausted, j)
                + s.subrange(j as int, s.len() as int));
        } else {
            assert(live_sources(s, exhausted, j) == l + seq![s[k as int]]);
            assert(rest =~= seq![s[k as int]] + s.subrange(j as int, s.len() as int));
            assert(round_state(s, exhausted, j) =~= ended_sources(s, exhausted, j) + live_sources(s, exhausted, j)
                + s.subrange(j as int, s.len() as int));
        }
    }
}

/// A round that polls the first `j` sources in order, moving each one that has
/// ended to the front, and then drops as many sources from the front as have
/// ended, leaves exactly the sources that have not ended, in the order they
/// had, followed by the sources it did not poll.
pub proof fn lemma_round_drops_ended<T>(s: Seq<T>, exhausted: Seq<bool>, j: nat)
    requires
        j <= s.len(),
        j <= exhausted.len(),
    ensures
        retired_count(exhausted, j) <= s.len(),
        round_state(s, exhausted, j).len() == s.len(),
        round_state(s, exhausted, j).subrange(retired_count(exhausted, j) as int, s.len() as int)
            == live_sources(s, exhausted, j) + s.subrange(j as int, s.len() as int),
{
    lemma_round_shape(s, exhausted, j);
    let e = ended_sources(s, exhausted, j);
    let l = live_sources(s, exhausted, j);
    let rest = s.subrange(j as int, s.len() as int);
    assert((e + l + rest).subrange(e.len() as int, s.len() as int) =~= l + rest);
}

/// Settles a round that polled the first `exhausted.len()` sources in order:
/// each one that reported its end is moved to the front as it is met, and the
/// ended ones are then dropped together. The sources that have not ended keep
/// the order they had, and the sources the round did not reach stay behind
/// them.
pub fn settle_round<T>(sources: &mut Vec<T>, exhausted: &Vec<bool>)
    requires
        exhausted@.len() <= old(sources)@.len(),
    ensures
        final(sources)@ == live_sources(old(sources)@, exhausted@, exhausted@.len())
            + old(sources)@.subrange(exhausted@.len() as int, old(sources)@.len() as int),
{
    let ghost start = sources@;
    let mut retired: usize = 0;
    let mut i: usize = 0;
    while i < exhausted.len()
        invariant
            i <= exhausted@.len() <= start.len(),
            sources@ == round_state(start, exhausted@, i as nat),
            retired == retired_count(exhausted@, i as nat),
            retired <= i,
        decreases exhausted@.len() - i,
    {
        proof {
            lemma_round_drops_ended(start, exhausted@, i as nat);
        }
        if exhausted[i] {
            retire_source(sources, i);
            retired = retired + 1;
        }
        i = i + 1;
    }
    proof {
        lemma_round_drops_ended(start, exhausted@, i as nat);
    }
    sweep_sources(sources, retired);
}

} // verus!
