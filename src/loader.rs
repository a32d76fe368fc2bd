use vstd::prelude::*;

use crate::config::GameEntry;
use crate::text::{
    contains_text, has_substring, lower_of, replace_of, replace_text, sort_texts, text_eq,
    text_le, texts_view, to_lower,
};

verus! {

/// A running process as the process list reports it.
pub struct ProcessInfo {
    pub name: String,
    pub pid: u32,
}

/// A live injection: the configured game and the process it went into.
#[derive(Clone, Copy, PartialEq, Eq, Debug, Structural)]
pub struct ActiveInjection {
    pub game: usize,
    pub pid: u32,
}

/// Bookkeeping of the watch loop: which processes were injected, and which
/// configured game each live injection belongs to.
pub struct WatchState {
    /// The configured process names, lowercased, in configuration order.
    pub keys: Vec<String>,
    /// Every process injected into and not yet seen to exit.
    pub injected_pids: Vec<u32>,
    /// At most one live injection per game.
    pub active: Vec<ActiveInjection>,
}

pub open spec fn pid_running(procs: Seq<ProcessInfo>, pid: u32) -> bool {
    exists|i: int| 0 <= i < procs.len() && (#[trigger] procs[i]).pid == pid
}

/// The game a lowercased process name belongs to: the last configured entry
/// with that name.
pub open spec fn game_for(keys: Seq<String>, name_lower: Seq<char>) -> Option<int>
    decreases keys.len(),
{
    if keys.len() == 0 {
        None
    } else if keys.last()@ == name_lower {
        Some(keys.len() - 1)
    } else {
        game_for(keys.drop_last(), name_lower)
    }
}

pub open spec fn active_pid(active: Seq<ActiveInjection>, pid: u32) -> bool {
    exists|i: int| 0 <= i < active.len() && (#[trigger] active[i]).pid == pid
}

impl WatchState {
    /// At most one live injection per game, each for a configured game and a
    /// PID among the injected ones; no PID is recorded twice.
    pub open spec fn well_formed(&self) -> bool {
        &&& forall|i: int, j: int|
            0 <= i < j < self.active@.len() ==> (#[trigger] self.active@[i]).game
                != (#[trigger] self.active@[j]).game
        &&& forall|i: int|
            0 <= i < self.active@.len() ==> (#[trigger] self.active@[i]).game < self.keys@.len()
        &&& self.injected_pids@.no_duplicates()
        &&& forall|i: int|
            0 <= i < self.active@.len() ==> self.injected_pids@.contains(
                (#[trigger] self.active@[i]).pid,
            )
    }

    /// Starts watching the configured games, with nothing injected.
    pub fn new(games: &Vec<GameEntry>) -> (r: WatchState)
        ensures
            r.well_formed(),
            r.keys@.len() == games@.len(),
            forall|i: int| 0 <= i < games@.len() ==> (#[trigger] r.keys@[i])@ == lower_of(games@[i].process@),
            r.injected_pids@.len() == 0,
            r.active@.len() == 0,
    {
        let mut keys: Vec<String> = Vec::new();
        let mut i: usize = 0;
        while i < games.len()
            invariant
                i <= games@.len(),
                keys@.len() == i,
                forall|k: int| 0 <= k < i ==> (#[trigger] keys@[k])@ == lower_of(games@[k].process@),
            decreases games@.len() - i,
        {
            keys.push(to_lower(games[i].process.as_str()));
            i = i + 1;
        }
        WatchState { keys, injected_pids: Vec::new(), active: Vec::new() }
    }

    /// The game to inject a process into: its name, lowercased, is configured
    /// and it was not injected into yet.
    pub fn injection_target(&self, process: &ProcessInfo) -> (r: Option<usize>)
        ensures
            r == (match game_for(self.keys@, lower_of(process.name@)) {
                Some(g) => if self.injected_pids@.contains(process.pid) {
                    None
                } else {
                    Some(g as usize)
                },
                None => None,
            }),
    {
        let name = to_lower(process.name.as_str());
        let mut i: usize = self.keys.len();
        let ghost target = lower_of(process.name@);
        assert(self.keys@.subrange(0, i as int) =~= self.keys@);
        while i > 0 && !text_eq(self.keys[i - 1].as_str(), name.as_str())
            invariant
                i <= self.keys@.len(),
                name@ == target,
                game_for(self.keys@, target) == game_for(self.keys@.subrange(0, i as int), target),
            decreases i,
        {
            let ghost pre = self.keys@.subrange(0, i as int);
            assert(pre.drop_last() =~= self.keys@.subrange(0, i - 1));
            i = i - 1;
        }
        if i == 0 {
            assert(self.keys@.subrange(0, 0) =~= Seq::<String>::empty());
            return None;
        }
        let g = i - 1;
        assert(self.keys@.subrange(0, i as int).last() == self.keys@[g as int]);
        if contains_pid(&self.injected_pids, process.pid) {
            None
        } else {
            Some(g)
        }
    }

    /// Records a successful injection of `pid` for `game`, replacing any
    /// earlier live injection of that game.
    pub fn record_injection(&mut self, game: usize, pid: u32)
        requires
            old(self).well_formed(),
            game < old(self).keys@.len(),
        ensures
            final(self).well_formed(),
            final(self).keys == old(self).keys,
            forall|p: u32|
                final(self).injected_pids@.contains(p) <==> (old(self).injected_pids@.contains(p)
                    || p == pid),
            forall|e: ActiveInjection|
                final(self).active@.contains(e) <==> ((old(self).active@.contains(e) && e.game
                    != game) || e == (ActiveInjection { game, pid })),
    {
        if !contains_pid(&self.injected_pids, pid) {
            proof {
                lemma_push_no_duplicates(self.injected_pids@, pid);
            }
            self.injected_pids.push(pid);
        }
        proof {
            assert forall|p: u32|
                self.injected_pids@.contains(p) <==> (old(self).injected_pids@.contains(p) || p
                    == pid) by {
                if self.injected_pids@.len() > old(self).injected_pids@.len() {
                    if p == pid {
                        assert(self.injected_pids@[self.injected_pids@.len() - 1] == pid);
                    }
                    if old(self).injected_pids@.contains(p) {
                        let k = choose|k: int| 0 <= k < old(self).injected_pids@.len() && old(self).injected_pids@[k] == p;
                        assert(self.injected_pids@[k] == p);
                    }
                    if self.injected_pids@.contains(p) {
                        let k = choose|k: int| 0 <= k < self.injected_pids@.len() && self.injected_pids@[k] == p;
                        if k < old(self).injected_pids@.len() {
                            assert(old(self).injected_pids@[k] == p);
                        }
                    }
                }
            }
        }
        let mut kept = without_game(&self.active, game);
        proof {
            lemma_contains_push(kept@, ActiveInjection { game, pid });
        }
        kept.push(ActiveInjection { game, pid });
        self.active = kept;
        proof {
            assert forall|i: int| 0 <= i < self.active@.len() implies self.injected_pids@.contains(
                (#[trigger] self.active@[i]).pid,
            ) by {
                let e = self.active@[i];
                assert(self.active@.contains(e));
                if e != (ActiveInjection { game, pid }) {
                    let k = choose|k: int| 0 <= k < old(self).active@.len() && old(self).active@[k] == e;
                    assert(old(self).injected_pids@.contains(old(self).active@[k].pid));
                }
            }
        }
    }

    /// Forgets every live injection whose process is no longer running,
    /// together with its PID, and returns the games that exited.
    pub fn forget_exited(&mut self, procs: &Vec<ProcessInfo>) -> (r: Vec<usize>)
        requires
            old(self).well_formed(),
        ensures
            final(self).well_formed(),
            final(self).keys == old(self).keys,
            forall|e: ActiveInjection|
                final(self).active@.contains(e) <==> (old(self).active@.contains(e) && pid_running(
                    procs@,
                    e.pid,
                )),
            forall|g: usize|
                r@.contains(g) <==> exists|e: ActiveInjection|
                    old(self).active@.contains(e) && e.game == g && !pid_running(procs@, e.pid),
            forall|p: u32|
                final(self).injected_pids@.contains(p) <==> (old(self).injected_pids@.contains(p)
                    && !(active_pid(old(self).active@, p) && !pid_running(procs@, p))),
    {
        let (kept, gone) = split_running(&self.active, procs);
        let exited = games_of(&gone);
        proof {
            assert forall|g: usize|
                exited@.contains(g) <==> exists|e: ActiveInjection|
                    old(self).active@.contains(e) && e.game == g && !pid_running(procs@, e.pid) by {
                if exited@.contains(g) {
                    let k = choose|k: int| 0 <= k < exited@.len() && exited@[k] == g;
                    let e = gone@[k];
                    assert(gone@.contains(e));
                    assert(self.active@.contains(e));
                    assert(old(self).active@.contains(e));
                    assert(e.game == g);
                    assert(!pid_running(procs@, e.pid));
                }
                if exists|e: ActiveInjection|
                    old(self).active@.contains(e) && e.game == g && !pid_running(procs@, e.pid) {
                    let e = choose|e: ActiveInjection|
                        old(self).active@.contains(e) && e.game == g && !pid_running(procs@, e.pid);
                    assert(gone@.contains(e));
                    let k = choose|k: int| 0 <= k < gone@.len() && gone@[k] == e;
                    assert(exited@[k] == g);
                    assert(exited@.contains(g));
                }
            }
        }
        let pids = without_pids(&self.injected_pids, &gone);
        proof {
            assert forall|p: u32| active_pid(gone@, p) <==> (active_pid(old(self).active@, p)
                && !pid_running(procs@, p)) by {
                if active_pid(gone@, p) {
                    let k = choose|k: int| 0 <= k < gone@.len() && gone@[k].pid == p;
                    assert(gone@.contains(gone@[k]));
                    assert(old(self).active@.contains(gone@[k]));
                    let a = choose|a: int| 0 <= a < old(self).active@.len() && old(self).active@[a] == gone@[k];
                    assert(old(self).active@[a].pid == p);
                    assert(!pid_running(procs@, p));
                }
                if active_pid(old(self).active@, p) && !pid_running(procs@, p) {
                    let a = choose|a: int| 0 <= a < old(self).active@.len() && old(self).active@[a].pid == p;
                    assert(old(self).active@.contains(old(self).active@[a]));
                    assert(gone@.contains(old(self).active@[a]));
                    let k = choose|k: int| 0 <= k < gone@.len() && gone@[k] == old(self).active@[a];
                    assert(gone@[k].pid == p);
                }
            }
        }
        self.active = kept;
        self.injected_pids = pids;
        proof {
            assert forall|i: int| 0 <= i < self.active@.len() implies self.injected_pids@.contains(
                (#[trigger] self.active@[i]).pid,
            ) by {
                let e = self.active@[i];
                assert(self.active@.contains(e));
                let k = choose|k: int| 0 <= k < old(self).active@.len() && old(self).active@[k] == e;
                assert(old(self).injected_pids@.contains(old(self).active@[k].pid));
            }
        }
        exited
    }
}

proof fn lemma_push_no_duplicates<T>(s: Seq<T>, x: T)
    requires
        s.no_duplicates(),
        !s.contains(x),
    ensures
        s.push(x).no_duplicates(),
{
    assert forall|i: int, j: int| 0 <= i < s.len() + 1 && 0 <= j < s.len() + 1 && i != j implies s.push(x)[i]
        != s.push(x)[j] by {
        if i == s.len() as int {
            assert(s[j] != x);
        } else if j == s.len() as int {
            assert(s[i] != x);
        }
    }
}

proof fn lemma_contains_push<T>(s: Seq<T>, x: T)
    ensures
        forall|e: T| #[trigger] s.push(x).contains(e) <==> (s.contains(e) || e == x),
{
    assert forall|e: T| #[trigger] s.push(x).contains(e) <==> (s.contains(e) || e == x) by {
        if s.contains(e) {
            let k = choose|k: int| 0 <= k < s.len() && s[k] == e;
            assert(s.push(x)[k] == e);
        }
        if e == x {
            assert(s.push(x)[s.len() as int] == x);
        }
        if s.push(x).contains(e) {
            let k = choose|k: int| 0 <= k < s.len() + 1 && s.push(x)[k] == e;
            if k < s.len() {
                assert(s[k] == e);
            }
        }
    }
}

/// The live injections of every game but `game`.
fn without_game(active: &Vec<ActiveInjection>, game: usize) -> (r: Vec<ActiveInjection>)
    requires
        forall|a: int, b: int|
            0 <= a < b < active@.len() ==> (#[trigger] active@[a]).game != (#[trigger] active@[b]).game,
    ensures
        forall|e: ActiveInjection| r@.contains(e) <==> (active@.contains(e) && e.game != game),
        forall|k: int| 0 <= k < r@.len() ==> (#[trigger] r@[k]).game != game,
        forall|a: int, b: int|
            0 <= a < b < r@.len() ==> (#[trigger] r@[a]).game != (#[trigger] r@[b]).game,
        forall|k: int| 0 <= k < r@.len() ==> active@.contains(#[trigger] r@[k]),
{
    let mut kept: Vec<ActiveInjection> = Vec::new();
    let mut i: usize = 0;
    while i < active.len()
        invariant
            i <= active@.len(),
            forall|a: int, b: int|
                0 <= a < b < active@.len() ==> (#[trigger] active@[a]).game != (#[trigger] active@[b]).game,
            forall|k: int| 0 <= k < kept@.len() ==> (#[trigger] kept@[k]).game != game,
            forall|a: int, b: int|
                0 <= a < b < kept@.len() ==> (#[trigger] kept@[a]).game != (#[trigger] kept@[b]).game,
            forall|k: int| 0 <= k < kept@.len() ==> active@.subrange(0, i as int).contains(#[trigger] kept@[k]),
            forall|e: ActiveInjection|
                kept@.contains(e) <==> (active@.subrange(0, i as int).contains(e) && e.game != game),
        decreases active@.len() - i,
    {
        let e = active[i];
        let ghost pre = active@.subrange(0, i as int);
        assert(active@.subrange(0, i + 1) =~= pre.push(e));
        proof {
            lemma_contains_push(pre, e);
        }
        if e.game != game {
            proof {
                assert forall|k: int| 0 <= k < kept@.len() implies (#[trigger] kept@[k]).game != e.game by {
                    let x = kept@[k];
                    let a = choose|a: int| 0 <= a < pre.len() && pre[a] == x;
                    assert(active@[a] == x);
                }
                lemma_contains_push(kept@, e);
            }
            kept.push(e);
        }
        i = i + 1;
    }
    assert(active@.subrange(0, active@.len() as int) =~= active@);
    kept
}

/// The live injections whose process still runs, and those whose process is
/// gone.
fn split_running(active: &Vec<ActiveInjection>, procs: &Vec<ProcessInfo>) -> (r: (
    Vec<ActiveInjection>,
    Vec<ActiveInjection>,
))
    requires
        forall|a: int, b: int|
            0 <= a < b < active@.len() ==> (#[trigger] active@[a]).game != (#[trigger] active@[b]).game,
    ensures
        forall|e: ActiveInjection|
            r.0@.contains(e) <==> (active@.contains(e) && pid_running(procs@, e.pid)),
        forall|e: ActiveInjection|
            r.1@.contains(e) <==> (active@.contains(e) && !pid_running(procs@, e.pid)),
        forall|a: int, b: int|
            0 <= a < b < r.0@.len() ==> (#[trigger] r.0@[a]).game != (#[trigger] r.0@[b]).game,
        forall|k: int| 0 <= k < r.0@.len() ==> active@.contains(#[trigger] r.0@[k]),
{
    let mut kept: Vec<ActiveInjection> = Vec::new();
    let mut gone: Vec<ActiveInjection> = Vec::new();
    let mut i: usize = 0;
    while i < active.len()
        invariant
            i <= active@.len(),
            forall|a: int, b: int|
                0 <= a < b < active@.len() ==> (#[trigger] active@[a]).game != (#[trigger] active@[b]).game,
            forall|a: int, b: int|
                0 <= a < b < kept@.len() ==> (#[trigger] kept@[a]).game != (#[trigger] kept@[b]).game,
            forall|k: int| 0 <= k < kept@.len() ==> active@.subrange(0, i as int).contains(#[trigger] kept@[k]),
            forall|e: ActiveInjection|
                kept@.contains(e) <==> (active@.subrange(0, i as int).contains(e) && pid_running(
                    procs@,
                    e.pid,
                )),
            forall|e: ActiveInjection|
                gone@.contains(e) <==> (active@.subrange(0, i as int).contains(e) && !pid_running(
                    procs@,
                    e.pid,
                )),
        decreases active@.len() - i,
    {
        let e = active[i];
        let ghost pre = active@.subrange(0, i as int);
        assert(active@.subrange(0, i + 1) =~= pre.push(e));
        proof {
            lemma_contains_push(pre, e);
        }
        if running(procs, e.pid) {
            proof {
                assert forall|k: int| 0 <= k < kept@.len() implies (#[trigger] kept@[k]).game != e.game by {
                    let x = kept@[k];
                    let a = choose|a: int| 0 <= a < pre.len() && pre[a] == x;
                    assert(active@[a] == x);
                }
                lemma_contains_push(kept@, e);
            }
            kept.push(e);
        } else {
            proof {
                lemma_contains_push(gone@, e);
            }
            gone.push(e);
        }
        i = i + 1;
    }
    assert(active@.subrange(0, active@.len() as int) =~= active@);
    (kept, gone)
}

/// The game of each injection, in order.
fn games_of(v: &Vec<ActiveInjection>) -> (r: Vec<usize>)
    ensures
        r@.len() == v@.len(),
        forall|k: int| 0 <= k < v@.len() ==> r@[k] == (#[trigger] v@[k]).game,
{
    let mut r: Vec<usize> = Vec::new();
    let mut i: usize = 0;
    while i < v.len()
        invariant
            i <= v@.len(),
            r@.len() == i,
            forall|k: int| 0 <= k < i ==> r@[k] == (#[trigger] v@[k]).game,
        decreases v@.len() - i,
    {
        r.push(v[i].game);
        i = i + 1;
    }
    r
}

/// The PIDs that belong to none of the given injections.
fn without_pids(pids: &Vec<u32>, gone: &Vec<ActiveInjection>) -> (r: Vec<u32>)
    requires
        pids@.no_duplicates(),
    ensures
        forall|p: u32| r@.contains(p) <==> (pids@.contains(p) && !active_pid(gone@, p)),
        r@.no_duplicates(),
{
    let mut r: Vec<u32> = Vec::new();
    let mut j: usize = 0;
    while j < pids.len()
        invariant
            j <= pids@.len(),
            pids@.no_duplicates(),
            r@.no_duplicates(),
            forall|p: u32|
                r@.contains(p) <==> (pids@.subrange(0, j as int).contains(p) && !active_pid(gone@, p)),
        decreases pids@.len() - j,
    {
        let p = pids[j];
        let ghost pre = pids@.subrange(0, j as int);
        assert(pids@.subrange(0, j + 1) =~= pre.push(p));
        proof {
            lemma_contains_push(pre, p);
            lemma_contains_push(r@, p);
        }
        if !gone_pid(gone, p) {
            proof {
                if pre.contains(p) {
                    let k = choose|k: int| 0 <= k < pre.len() && pre[k] == p;
                    assert(pids@[k] == pids@[j as int]);
                }
                lemma_push_no_duplicates(r@, p);
            }
            r.push(p);
        }
        j = j + 1;
    }
    assert(pids@.subrange(0, pids@.len() as int) =~= pids@);
    r
}

fn contains_pid(v: &Vec<u32>, pid: u32) -> (r: bool)
    ensures
        r == v@.contains(pid),
{
    let mut i: usize = 0;
    while i < v.len()
        invariant
            i <= v@.len(),
            forall|k: int| 0 <= k < i ==> v@[k] != pid,
        decreases v@.len() - i,
    {
        if v[i] == pid {
            return true;
        }
        i = i + 1;
    }
    false
}

fn running(procs: &Vec<ProcessInfo>, pid: u32) -> (r: bool)
    ensures
        r == pid_running(procs@, pid),
{
    let mut i: usize = 0;
    while i < procs.len()
        invariant
            i <= procs@.len(),
            forall|k: int| 0 <= k < i ==> procs@[k].pid != pid,
        decreases procs@.len() - i,
    {
        if procs[i].pid == pid {
            return true;
        }
        i = i + 1;
    }
    false
}

fn gone_pid(v: &Vec<ActiveInjection>, pid: u32) -> (r: bool)
    ensures
        r == active_pid(v@, pid),
{
    let mut i: usize = 0;
    while i < v.len()
        invariant
            i <= v@.len(),
            forall|k: int| 0 <= k < i ==> v@[k].pid != pid,
        decreases v@.len() - i,
    {
        if v[i].pid == pid {
            return true;
        }
        i = i + 1;
    }
    false
}

/// The process names to list: sorted, with repeated names listed once.
pub fn list_process_names(names: Vec<String>) -> (r: Vec<String>)
    ensures
        forall|t: Seq<char>| texts_view(r@).contains(t) <==> texts_view(names@).contains(t),
        forall|i: int, j: int| 0 <= i < j < r@.len() ==> text_le(#[trigger] r@[i]@, #[trigger] r@[j]@),
        forall|i: int| 0 <= i < r@.len() - 1 ==> (#[trigger] r@[i])@ != r@[i + 1]@,
{
    let mut v = names;
    sort_texts(&mut v);
    proof {
        assert forall|t: Seq<char>| texts_view(v@).contains(t) <==> texts_view(names@).contains(t) by {
            texts_view(v@).to_multiset_ensures();
            texts_view(names@).to_multiset_ensures();
            assert(texts_view(v@).to_multiset().count(t) == texts_view(names@).to_multiset().count(t));
        }
    }
    let mut out: Vec<String> = Vec::new();
    let ghost mut idx: Seq<int> = Seq::empty();
    let mut i: usize = 0;
    while i < v.len()
        invariant
            i <= v@.len(),
            forall|a: int, b: int| 0 <= a < b < v@.len() ==> text_le(#[trigger] v@[a]@, #[trigger] v@[b]@),
            idx.len() == out@.len(),
            forall|k: int| 0 <= k < idx.len() ==> 0 <= #[trigger] idx[k] < i && out@[k]@ == v@[idx[k]]@,
            forall|a: int, b: int| 0 <= a < b < idx.len() ==> #[trigger] idx[a] < #[trigger] idx[b],
            forall|k: int| 0 <= k < out@.len() - 1 ==> (#[trigger] out@[k])@ != out@[k + 1]@,
            i > 0 ==> out@.len() > 0 && out@.last()@ == v@[i - 1]@,
            forall|t: Seq<char>|
                texts_view(out@).contains(t) <==> texts_view(v@.subrange(0, i as int)).contains(t),
        decreases v@.len() - i,
    {
        let ghost pre = v@.subrange(0, i as int);
        assert(texts_view(v@.subrange(0, i + 1)) =~= texts_view(pre).push(v@[i as int]@));
        proof {
            lemma_contains_push(texts_view(pre), v@[i as int]@);
        }
        let fresh = out.len() == 0 || !text_eq(out[out.len() - 1].as_str(), v[i].as_str());
        if fresh {
            proof {
                lemma_contains_push(texts_view(out@), v@[i as int]@);
                assert(texts_view(out@.push(v@[i as int])) =~= texts_view(out@).push(v@[i as int]@));
                idx = idx.push(i as int);
            }
            out.push(v[i].clone());
        } else {
            proof {
                assert(texts_view(out@).contains(v@[i as int]@)) by {
                    assert(texts_view(out@)[out@.len() - 1] == v@[i as int]@);
                }
            }
        }
        i = i + 1;
    }
    assert(v@.subrange(0, v@.len() as int) =~= v@);
    proof {
        assert forall|a: int, b: int| 0 <= a < b < out@.len() implies text_le(
            #[trigger] out@[a]@,
            #[trigger] out@[b]@,
        ) by {
            assert(idx[a] < idx[b]);
            assert(text_le(v@[idx[a]]@, v@[idx[b]]@));
        }
    }
    out
}

/// Configured name of a process, lowercased and without `.exe`, as used to
/// suggest similar running processes.
pub open spec fn similar_query(query: Seq<char>) -> Seq<char> {
    replace_of(lower_of(query), ".exe"@, ""@)
}

/// The running processes whose lowercased name contains the query, itself
/// lowercased and without `.exe`, in the given order.
pub fn similar_processes(names: &Vec<String>, query: &str) -> (r: Vec<String>)
    ensures
        texts_view(r@) == texts_view(names@).filter(
            |n: Seq<char>| has_substring(lower_of(n), similar_query(query@)),
        ),
{
    let lowered = to_lower(query);
    let q = replace_text(lowered.as_str(), ".exe", "");
    let ghost pred = |n: Seq<char>| has_substring(lower_of(n), similar_query(query@));
    let mut r: Vec<String> = Vec::new();
    let mut i: usize = 0;
    while i < names.len()
        invariant
            i <= names@.len(),
            q@ == similar_query(query@),
            pred == (|n: Seq<char>| has_substring(lower_of(n), similar_query(query@))),
            texts_view(r@) == texts_view(names@.subrange(0, i as int)).filter(pred),
        decreases names@.len() - i,
    {
        let ghost pre = names@.subrange(0, i as int);
        proof {
            let next = texts_view(names@.subrange(0, i + 1));
            assert(next.drop_last() =~= texts_view(pre));
            assert(next.last() == names@[i as int]@);
            reveal(Seq::filter);
        }
        let lower_name = to_lower(names[i].as_str());
        if contains_text(lower_name.as_str(), q.as_str()) {
            proof {
                assert(texts_view(r@.push(names@[i as int])) =~= texts_view(r@).push(names@[i as int]@));
            }
            r.push(names[i].clone());
        }
        i = i + 1;
    }
    assert(names@.subrange(0, names@.len() as int) =~= names@);
    r
}

/// A one-shot injection stops waiting for its process when no wait was asked
/// for (`timeout_secs` is 0) or the wait has lasted the timeout.
pub fn give_up_waiting(timeout_secs: u64, elapsed_ms: u128) -> (r: bool)
    ensures
        r == (timeout_secs == 0 || elapsed_ms >= timeout_secs as int * 1000),
{
    timeout_secs == 0 || elapsed_ms >= (timeout_secs as u128) * 1000
}

} // verus!
