use crate::catalog::Music;
use crate::schedule::{b1_step, b2_step, play_b1, play_b2, State};
use vstd::prelude::*;

verus! {

/// `trace` runs from `x` to `r` through `n` applications of `f`.
pub open spec fn applied_n_times<T, F: Fn(T) -> T>(f: F, trace: Seq<T>, n: int, x: T, r: T) -> bool {
    &&& trace.len() == n + 1
    &&& trace[0] == x
    &&& trace[n] == r
    &&& forall|i: int| 0 <= i < n ==> #[trigger] f.ensures((trace[i],), trace[i + 1])
}

/// Applies `f` to `x` exactly `n` times, each time to what the last call
/// returned.
pub fn foldn<T, F: Fn(T) -> T>(f: F, n: usize, x: T) -> (r: T)
    requires
        f.requires((x,)),
        forall|t: T, u: T| f.requires((t,)) && #[trigger] f.ensures((t,), u) ==> f.requires((u,)),
    ensures
        f.requires((r,)),
        exists|trace: Seq<T>| applied_n_times(f, trace, n as int, x, r),
{
    let ghost mut trace: Seq<T> = seq![x];
    let mut acc = x;
    let mut i: usize = 0;
    while i < n
        invariant
            i <= n,
            f.requires((acc,)),
            forall|t: T, u: T| f.requires((t,)) && #[trigger] f.ensures((t,), u) ==> f.requires((u,)),
            applied_n_times(f, trace, i as int, x, acc),
        decreases n - i,
    {
        let next = f(acc);
        proof {
            trace = trace.push(next);
        }
        acc = next;
        i = i + 1;
    }
    acc
}

/// How many steps `foldn_opt` takes: the bound given, or, with none, the
/// largest count the machine can hold, which no real run outlasts.
pub open spec fn steps_of(n_opt: Option<usize>) -> int {
    match n_opt {
        Some(n) => n as int,
        None => usize::MAX as int,
    }
}

/// Applies `f` to `x` as often as `n_opt` says; `None` stands for a run
/// without end, which a caller leaves by stopping the process.
pub fn foldn_opt<T, F: Fn(T) -> T>(f: F, n_opt: Option<usize>, x: T) -> (r: T)
    requires
        f.requires((x,)),
        forall|t: T, u: T| f.requires((t,)) && #[trigger] f.ensures((t,), u) ==> f.requires((u,)),
    ensures
        f.requires((r,)),
        exists|trace: Seq<T>| applied_n_times(f, trace, steps_of(n_opt), x, r),
        forall|n: usize|
            n_opt == Some(n) ==> exists|trace: Seq<T>| applied_n_times(f, trace, n as int, x, r),
{
    match n_opt {
        Some(n) => {
            let r = foldn(f, n, x);
            assert(steps_of(n_opt) == n as int);
            r
        },
        None => {
            let r = foldn(f, usize::MAX, x);
            assert(steps_of(n_opt) == usize::MAX as int);
            r
        },
    }
}

/// `r` is `s` after one round: a chatty block and a variable-energy block,
/// in the order that `b1_first` gives.
pub open spec fn round_step(s: State, r: State, b1_first: bool) -> bool {
    exists|mid: State, choice: int|
        0 <= choice <= 3 && if b1_first {
            b1_step(s, mid) && b2_step(mid, r, choice)
        } else {
            b2_step(s, mid, choice) && b1_step(mid, r)
        }
}

/// One round of the broadcast: a chatty block and a variable-energy block,
/// in the order that `b1_first` fixes for the whole run.
pub fn play_round(s: State, b1_first: bool) -> (r: State)
    requires
        s.wf(),
    ensures
        r.wf(),
        r.music == s.music,
        round_step(s, r, b1_first),
{
    if b1_first {
        let m = play_b1(s);
        play_b2(m)
    } else {
        let m = play_b2(s);
        play_b1(m)
    }
}

/// Plays `n` rounds with the block order fixed by `b1_first`: exactly `n`
/// rounds, each starting from the state the one before left.
pub fn run_rounds(s: State, b1_first: bool, n: usize) -> (r: State)
    requires
        s.wf(),
    ensures
        r.wf(),
        r.music == s.music,
        exists|trace: Seq<State>|
            {
                &&& trace.len() == n + 1
                &&& trace[0] == s
                &&& trace[n as int] == r
                &&& forall|i: int|
                    0 <= i < n ==> #[trigger] round_step(trace[i], trace[i + 1], b1_first)
            },
{
    let m: Ghost<Music> = Ghost(s.music);
    let round = move |t: State| -> (u: State)
        requires
            t.wf(),
            t.music == m@,
        ensures
            u.wf(),
            u.music == m@,
            round_step(t, u, b1_first),
        { play_round(t, b1_first) };
    let r = foldn(round, n, s);
    proof {
        let trace = choose|trace: Seq<State>| applied_n_times(round, trace, n as int, s, r);
        assert forall|i: int| 0 <= i < n implies #[trigger] round_step(trace[i], trace[i + 1], b1_first) by {
            assert(round.ensures((trace[i],), trace[i + 1]));
        }
        if n > 0 {
            let k = n - 1;
            assert(round.ensures((trace[k],), trace[k + 1]));
        }
    }
    r
}

} // verus!
