use vstd::prelude::*;

verus! {

/// Requests counted for one worker over two measurement windows.
///
/// The counts are whole numbers; a count that reaches `u64::MAX` stays there.
#[derive(Clone, Copy, PartialEq, Eq, Structural, Debug)]
pub struct RequestCounter {
    /// Requests in the window that is running.
    pub current_window: u64,
    /// Requests in the window that ended last.
    pub previous_window: u64,
}

/// Length of a measurement window, in milliseconds.
pub const WINDOW_SIZE_MS: u64 = 500;

/// A window with `requests` requests in it ran above three requests per
/// second: `requests / 0.5 s > 3`.
pub open spec fn spec_over_limit(requests: u64) -> bool {
    2 * requests > 3
}

/// The count after one more request.
pub open spec fn count_one(n: u64) -> u64 {
    if n == u64::MAX {
        n
    } else {
        (n + 1) as u64
    }
}

impl RequestCounter {
    pub fn new() -> (c: Self)
        ensures
            c.current_window == 0,
            c.previous_window == 0,
    {
        RequestCounter { current_window: 0, previous_window: 0 }
    }

    /// Counts one request in the running window.
    pub fn add(&mut self)
        ensures
            final(self).current_window == count_one(old(self).current_window),
            final(self).previous_window == old(self).previous_window,
    {
        self.current_window = self.current_window.saturating_add(1);
    }

    /// Ends the running window: it becomes the previous one and a new,
    /// empty window starts. Returns what the previous window held before.
    pub fn set_new_window(&mut self) -> (earlier: u64)
        ensures
            earlier == old(self).previous_window,
            final(self).previous_window == old(self).current_window,
            final(self).current_window == 0,
    {
        let requests = self.current_window;
        self.current_window = 0;
        let earlier = self.previous_window;
        self.previous_window = requests;
        earlier
    }

    /// Whether the window that ended last ran above the limit.
    pub fn is_overloaded(&self) -> (r: bool)
        ensures
            r == spec_over_limit(self.previous_window),
    {
        self.previous_window > 1
    }
}

/// Where a pick of the requests-per-second strategy stands.
#[derive(Clone, Copy, PartialEq, Eq, Structural, Debug)]
pub struct RpsCursor {
    /// The position looked at; the worker is this modulo the number of workers.
    pub index: usize,
    /// Set once every worker has been passed over for being overloaded:
    /// load is then no reason to skip a worker any more.
    pub use_next_online_target: bool,
    /// Cleared once every worker has been found offline.
    pub is_first_round: bool,
}

/// What a pick asks of its caller after a step.
#[derive(Clone, Copy, PartialEq, Eq, Structural, Debug)]
pub enum RpsAction {
    /// The worker was passed over for its load: take the next step.
    Skip,
    /// Send the request to this worker (the request is counted already).
    Serve(usize),
    /// Start this worker's process and wait for it to come online; then
    /// call `resume_after_wait`.
    SpawnAndWait(usize),
    /// The worker is offline: take the next step.
    Advance,
}

/// Round robin that passes over workers whose load ran above three requests
/// per second in the last window.
pub struct RoundRobinRps {
    /// Where picks start, as a position that counts on (the worker is this
    /// modulo the number of workers): set past the position that served the
    /// last request, and bumped each time a pick passes over every worker.
    pub index: usize,
    /// One counter per worker.
    pub counters: Vec<RequestCounter>,
}

/// The position after `i`; the positions count on without bound, the
/// worker being the position modulo the number of workers, and after the
/// last `usize` they start again at zero.
pub open spec fn next_position(i: usize) -> usize {
    if i == usize::MAX {
        0
    } else {
        (i + 1) as usize
    }
}

/// The cursor after an offline worker: the next position, or back to the
/// first worker, for a second round, once the positions are used up.
pub open spec fn spec_advance(c: RpsCursor, len: int) -> RpsCursor {
    if c.index >= len {
        RpsCursor { index: 0, use_next_online_target: c.use_next_online_target, is_first_round: false }
    } else {
        RpsCursor { index: (c.index + 1) as usize, ..c }
    }
}

/// The workers whose process is started after the windows ended: the
/// neighbour `i + 1` of each worker `i < upto` whose earlier window was over
/// the limit, where there is such a neighbour.
pub open spec fn spec_spawn_targets(counters: Seq<RequestCounter>, upto: int) -> Seq<usize>
    decreases upto,
{
    if upto <= 0 {
        Seq::empty()
    } else {
        let i = upto - 1;
        let rest = spec_spawn_targets(counters, i);
        if spec_over_limit(counters[i].previous_window) && i + 1 < counters.len() {
            rest.push((i + 1) as usize)
        } else {
            rest
        }
    }
}

/// One step of a pick (see `RoundRobinRps::entry_step`) takes the start
/// position `index`, the counters and the cursor to `after_index`,
/// `after_counters` and `after_cursor`, and asks for action `a`.
pub open spec fn rps_step_holds(
    index: usize,
    counters: Seq<RequestCounter>,
    c: RpsCursor,
    online: bool,
    after_index: usize,
    after_counters: Seq<RequestCounter>,
    after_cursor: RpsCursor,
    a: RpsAction,
) -> bool {
    let t = c.index as int % (counters.len() as int);
    let n = counters.len() as int;
    if spec_over_limit(counters[t].previous_window) && !c.use_next_online_target {
        &&& a == RpsAction::Skip
        &&& after_counters == counters
        &&& if c.index + 1 >= n {
            &&& after_cursor == (RpsCursor { index: 0, use_next_online_target: true, ..c })
            &&& after_index == next_position(index)
        } else {
            &&& after_cursor == (RpsCursor { index: (c.index + 1) as usize, ..c })
            &&& after_index == index
        }
    } else if online {
        &&& a == RpsAction::Serve(t as usize)
        &&& after_counters == counters.update(
            t,
            RequestCounter {
                current_window: count_one(counters[t].current_window),
                ..counters[t]
            },
        )
        &&& after_cursor == c
        &&& after_index == next_position(c.index)
    } else if !c.is_first_round {
        &&& a == RpsAction::SpawnAndWait(t as usize)
        &&& after_counters == counters
        &&& after_cursor == c
        &&& after_index == index
    } else {
        &&& a == RpsAction::Advance
        &&& after_counters == counters
        &&& after_cursor == spec_advance(c, n)
        &&& after_index == index
    }
}

impl RoundRobinRps {
    pub open spec fn len(&self) -> int {
        self.counters@.len() as int
    }

    /// A strategy over `targets_len` workers, all counters at zero.
    pub fn new(targets_len: usize) -> (s: Self)
        ensures
            s.index == 0,
            s.counters@.len() == targets_len,
            forall|i: int| 0 <= i < targets_len ==> #[trigger] s.counters@[i] == RequestCounter::new_spec(),
    {
        let mut counters: Vec<RequestCounter> = Vec::new();
        let mut i: usize = 0;
        while i < targets_len
            invariant
                i <= targets_len,
                counters@.len() == i,
                forall|j: int| 0 <= j < i ==> #[trigger] counters@[j] == RequestCounter::new_spec(),
            decreases targets_len - i,
        {
            counters.push(RequestCounter::new());
            i = i + 1;
        }
        RoundRobinRps { index: 0, counters }
    }

    /// Starts a pick at the shared start position.
    pub fn entry_start(&self) -> (c: RpsCursor)
        requires
            self.index < usize::MAX,
        ensures
            c == (RpsCursor { index: self.index, use_next_online_target: false, is_first_round: true }),
    {
        RpsCursor { index: self.index, use_next_online_target: false, is_first_round: true }
    }

    /// The worker that a cursor looks at.
    pub fn target(&self, cursor: &RpsCursor) -> (t: usize)
        requires
            self.len() > 0,
        ensures
            t == cursor.index as int % self.len(),
    {
        cursor.index % self.counters.len()
    }

    /// One step of a pick. `online` tells whether the worker that the cursor
    /// looks at is online.
    ///
    /// An overloaded worker is passed over unless every worker has been
    /// passed over already: the cursor moves on, and once it reaches the
    /// number of workers (at once where the pick started at a position that
    /// high) it goes back to the first worker, bumps the shared start
    /// position by one and stops passing workers over.
    /// Otherwise an online worker serves the request, which is counted on
    /// it, and the shared start position moves past the cursor's position,
    /// so that picks take turns; an offline worker is started in every
    /// round but the first; and the cursor advances.
    pub fn entry_step(&mut self, cursor: &mut RpsCursor, online: bool) -> (a: RpsAction)
        requires
            0 < old(self).len() < usize::MAX,
            old(cursor).index < usize::MAX,
        ensures
            final(self).len() == old(self).len(),
            final(cursor).index < usize::MAX,
            rps_step_holds(
                old(self).index,
                old(self).counters@,
                *old(cursor),
                online,
                final(self).index,
                final(self).counters@,
                *final(cursor),
                a,
            ),
    {
        let n = self.counters.len();
        let t = cursor.index % n;
        let overloaded = self.counters[t].is_overloaded();
        if overloaded && !cursor.use_next_online_target {
            cursor.index = cursor.index + 1;
            if cursor.index >= n {
                cursor.index = 0;
                self.index = self.index.wrapping_add(1);
                cursor.use_next_online_target = true;
            }
            return RpsAction::Skip;
        }
        if online {
            self.serve(cursor.index);
            return RpsAction::Serve(t);
        }
        if !cursor.is_first_round {
            return RpsAction::SpawnAndWait(t);
        }
        Self::advance(cursor, n);
        RpsAction::Advance
    }

    fn advance(cursor: &mut RpsCursor, n: usize)
        requires
            0 < n < usize::MAX,
        ensures
            *final(cursor) == spec_advance(*old(cursor), n as int),
            final(cursor).index < usize::MAX,
    {
        if cursor.index >= n {
            cursor.index = 0;
            cursor.is_first_round = false;
        } else {
            cursor.index = cursor.index + 1;
        }
    }

    /// Counts one request served by worker `t`.
    pub fn record_request(&mut self, t: usize)
        requires
            t < old(self).len(),
        ensures
            final(self).index == old(self).index,
            final(self).counters@ == old(self).counters@.update(
                t as int,
                RequestCounter {
                    current_window: count_one(old(self).counters@[t as int].current_window),
                    ..old(self).counters@[t as int]
                },
            ),
    {
        let mut c = self.counters[t];
        c.add();
        self.counters.set(t, c);
    }

    /// Serves a request at `position`, on the worker that it looks at:
    /// counts the request there and moves the shared start position past
    /// `position`, so that the next pick starts at the worker after it.
    pub fn serve(&mut self, position: usize)
        requires
            0 < old(self).len(),
            position < usize::MAX,
        ensures
            final(self).index == position + 1,
            ({
                let t = position as int % old(self).len();
                final(self).counters@ == old(self).counters@.update(
                    t,
                    RequestCounter {
                        current_window: count_one(old(self).counters@[t].current_window),
                        ..old(self).counters@[t]
                    },
                )
            }),
    {
        let n = self.counters.len();
        self.record_request(position % n);
        self.index = position + 1;
    }

    /// Continues a pick after a started worker did not come online in time.
    /// (When it did come online, the caller serves the request there with
    /// `serve`.)
    pub fn resume_after_wait(&self, cursor: &mut RpsCursor)
        requires
            0 < self.len() < usize::MAX,
        ensures
            *final(cursor) == spec_advance(*old(cursor), self.len()),
            final(cursor).index < usize::MAX,
    {
        Self::advance(cursor, self.counters.len());
    }

    /// Ends the running window of every worker and returns the workers
    /// whose process is to be started: the neighbour of each worker whose
    /// earlier window (the one that ended before the window closed now) ran
    /// above the limit.
    pub fn rotate_windows(&mut self) -> (spawn: Vec<usize>)
        ensures
            final(self).index == old(self).index,
            final(self).len() == old(self).len(),
            forall|i: int|
                0 <= i < old(self).len() ==> #[trigger] final(self).counters@[i] == (RequestCounter {
                    current_window: 0,
                    previous_window: old(self).counters@[i].current_window,
                }),
            spawn@ == spec_spawn_targets(old(self).counters@, old(self).len()),
            forall|k: usize|
                #[trigger] spawn@.contains(k) <==> (1 <= k < old(self).len() && spec_over_limit(
                    old(self).counters@[k - 1].previous_window,
                )),
            forall|a: int, b: int| 0 <= a < b < spawn@.len() ==> spawn@[a] < spawn@[b],
    {
        let ghost before = self.counters@;
        let ghost start = self.index;
        let n = self.counters.len();
        let mut spawn: Vec<usize> = Vec::new();
        let mut i: usize = 0;
        while i < n
            invariant
                n == before.len(),
                self.index == start,
                self.counters@.len() == n,
                i <= n,
                forall|j: int|
                    0 <= j < i ==> #[trigger] self.counters@[j] == (RequestCounter {
                        current_window: 0,
                        previous_window: before[j].current_window,
                    }),
                forall|j: int| i <= j < n ==> #[trigger] self.counters@[j] == before[j],
                spawn@ == spec_spawn_targets(before, i as int),
            decreases n - i,
        {
            let mut c = self.counters[i];
            let earlier = c.set_new_window();
            self.counters.set(i, c);
            if 2 * (earlier as u128) > 3 && i + 1 < n {
                spawn.push(i + 1);
            }
            i = i + 1;
        }
        proof {
            lemma_spawn_targets_are_neighbours(before, n as int);
        }
        spawn
    }
}

impl RequestCounter {
    pub open spec fn new_spec() -> RequestCounter {
        RequestCounter { current_window: 0, previous_window: 0 }
    }
}

/// The workers started after the windows of the first `upto` workers
/// ended: worker `k` is among them exactly when it has a predecessor among
/// those workers whose earlier window ran above the limit; each is named
/// once, in increasing order.
pub proof fn lemma_spawn_targets_are_neighbours(counters: Seq<RequestCounter>, upto: int)
    requires
        0 <= upto <= counters.len() <= usize::MAX,
    ensures
        forall|k: usize|
            #[trigger] spec_spawn_targets(counters, upto).contains(k) <==> (1 <= k < counters.len()
                && k <= upto && spec_over_limit(counters[k - 1].previous_window)),
        forall|a: int, b: int|
            0 <= a < b < spec_spawn_targets(counters, upto).len() ==> spec_spawn_targets(counters, upto)[a]
                < spec_spawn_targets(counters, upto)[b],
        forall|a: int|
            0 <= a < spec_spawn_targets(counters, upto).len() ==> spec_spawn_targets(counters, upto)[a]
                <= upto,
    decreases upto,
{
    if upto > 0 {
        let i = upto - 1;
        lemma_spawn_targets_are_neighbours(counters, i);
        let rest = spec_spawn_targets(counters, i);
        let all = spec_spawn_targets(counters, upto);
        if spec_over_limit(counters[i].previous_window) && i + 1 < counters.len() {
            assert(all == rest.push((i + 1) as usize));
            assert forall|a: int, b: int| 0 <= a < b < all.len() implies all[a] < all[b] by {
                if b < rest.len() {
                    assert(all[a] == rest[a] && all[b] == rest[b]);
                } else {
                    assert(all[a] == rest[a]);
                    assert(rest[a] <= i);
                }
            }
            assert forall|a: int| 0 <= a < all.len() implies all[a] <= upto by {
                if a < rest.len() {
                    assert(all[a] == rest[a]);
                }
            }
            assert forall|k: usize| #[trigger] all.contains(k) <==> (1 <= k < counters.len() && k
                <= upto && spec_over_limit(counters[k - 1].previous_window)) by {
                if all.contains(k) {
                    let x = choose|x: int| 0 <= x < all.len() && all[x] == k;
                    if x < rest.len() {
                        assert(rest[x] == k);
                        assert(rest.contains(k));
                    }
                }
                if 1 <= k < counters.len() && k <= upto && spec_over_limit(counters[k - 1].previous_window) {
                    if k == upto {
                        assert(all[rest.len() as int] == k);
                    } else {
                        assert(rest.contains(k));
                        let x = choose|x: int| 0 <= x < rest.len() && rest[x] == k;
                        assert(all[x] == k);
                    }
                }
            }
        } else {
            assert(all == rest);
            assert forall|k: usize| #[trigger] all.contains(k) <==> (1 <= k < counters.len() && k
                <= upto && spec_over_limit(counters[k - 1].previous_window)) by {
                if 1 <= k < counters.len() && k <= upto && spec_over_limit(counters[k - 1].previous_window) {
                    assert(k != upto);
                    assert(rest.contains(k));
                }
            }
        }
    }
}

/// A step that serves a request picks the worker the cursor looks at, only
/// when that worker is online and is not passed over for its load; the
/// request is counted on that worker and on no other, and the next pick
/// starts at the position after the cursor's.
pub proof fn lemma_rps_serves_online_targets(
    index: usize,
    counters: Seq<RequestCounter>,
    c: RpsCursor,
    online: bool,
    after_index: usize,
    after_counters: Seq<RequestCounter>,
    after_cursor: RpsCursor,
    t: usize,
)
    requires
        0 < counters.len() <= usize::MAX,
        rps_step_holds(
            index,
            counters,
            c,
            online,
            after_index,
            after_counters,
            after_cursor,
            RpsAction::Serve(t),
        ),
    ensures
        online,
        t == c.index as int % counters.len() as int,
        !spec_over_limit(counters[t as int].previous_window) || c.use_next_online_target,
        after_counters[t as int].current_window == count_one(counters[t as int].current_window),
        forall|j: int| 0 <= j < counters.len() && j != t ==> after_counters[j] == counters[j],
        after_cursor == c,
        after_index == next_position(c.index),
{
    let n = counters.len() as int;
    let x = c.index as int % n;
    vstd::arithmetic::div_mod::lemma_mod_bound(c.index as int, n);
    assert(0 <= x < n);
    assert(x as usize == x);
}

/// Picks take turns: a pick that starts at position `index` and finds the
/// worker there online and not overloaded serves it, and the next pick
/// starts at the position after it, that is at the next worker (the first
/// after the last). Serving changes no worker's load of the window that
/// ended.
pub proof fn lemma_rps_takes_turns(
    index: usize,
    counters: Seq<RequestCounter>,
    after_index: usize,
    after_counters: Seq<RequestCounter>,
    after_cursor: RpsCursor,
    a: RpsAction,
)
    requires
        0 < counters.len() <= usize::MAX,
        index < usize::MAX,
        !spec_over_limit(counters[index as int % counters.len() as int].previous_window),
        rps_step_holds(
            index,
            counters,
            RpsCursor { index, use_next_online_target: false, is_first_round: true },
            true,
            after_index,
            after_counters,
            after_cursor,
            a,
        ),
    ensures
        a == RpsAction::Serve((index as int % counters.len() as int) as usize),
        after_index == index + 1,
        after_index as int % counters.len() as int == (index as int % counters.len() as int + 1)
            % counters.len() as int,
        after_counters.len() == counters.len(),
        forall|j: int|
            0 <= j < counters.len() ==> #[trigger] after_counters[j].previous_window
                == counters[j].previous_window,
{
    let n = counters.len() as int;
    vstd::arithmetic::div_mod::lemma_mod_bound(index as int, n);
    vstd::arithmetic::div_mod::lemma_add_mod_noop_right(1, index as int, n);
}

/// Successive picks over workers that are all online and none overloaded
/// take turns: pick `i` (each starting afresh at the position the one
/// before it left) serves worker `start + i`, counted round the workers,
/// and leaves the next pick to start at the position after it.
pub proof fn lemma_rps_successive_picks_take_turns(
    indices: Seq<usize>,
    counters: Seq<Seq<RequestCounter>>,
    cursors: Seq<RpsCursor>,
    actions: Seq<RpsAction>,
)
    requires
        indices.len() == actions.len() + 1,
        counters.len() == actions.len() + 1,
        cursors.len() == actions.len(),
        0 < counters[0].len() <= usize::MAX,
        indices[0] + actions.len() < usize::MAX,
        forall|j: int|
            0 <= j < counters[0].len() ==> !spec_over_limit(
                #[trigger] counters[0][j].previous_window,
            ),
        forall|i: int|
            0 <= i < actions.len() ==> rps_step_holds(
                #[trigger] indices[i],
                counters[i],
                RpsCursor { index: indices[i], use_next_online_target: false, is_first_round: true },
                true,
                indices[i + 1],
                counters[i + 1],
                cursors[i],
                actions[i],
            ),
    ensures
        forall|i: int|
            0 <= i < actions.len() ==> #[trigger] actions[i] == RpsAction::Serve(
                ((indices[0] + i) % counters[0].len() as int) as usize,
            ),
        forall|i: int| 0 <= i <= actions.len() ==> #[trigger] indices[i] == indices[0] + i,
        forall|i: int|
            0 <= i <= actions.len() ==> (#[trigger] counters[i]).len() == counters[0].len(),
        forall|i: int, j: int|
            0 <= i <= actions.len() && 0 <= j < counters[0].len() ==> (#[trigger] counters[i][j]).previous_window
                == counters[0][j].previous_window,
    decreases actions.len(),
{
    let n = counters[0].len() as int;
    let k = actions.len() as int;
    if k > 0 {
        let pi = indices.take(k);
        let pc = counters.take(k);
        let pcur = cursors.take(k - 1);
        let pa = actions.take(k - 1);
        assert forall|i: int| 0 <= i < pa.len() implies rps_step_holds(
            #[trigger] pi[i],
            pc[i],
            RpsCursor { index: pi[i], use_next_online_target: false, is_first_round: true },
            true,
            pi[i + 1],
            pc[i + 1],
            pcur[i],
            pa[i],
        ) by {
            assert(pi[i] == indices[i]);
            assert(pi[i + 1] == indices[i + 1]);
            assert(pc[i] == counters[i]);
            assert(pc[i + 1] == counters[i + 1]);
        }
        assert(pc[0] == counters[0]);
        assert(pi[0] == indices[0]);
        lemma_rps_successive_picks_take_turns(pi, pc, pcur, pa);
        let last = k - 1;
        assert(pi[last] == indices[last]);
        assert(pc[last] == counters[last]);
        let idx = indices[last];
        let w = idx as int % n;
        vstd::arithmetic::div_mod::lemma_mod_bound(idx as int, n);
        assert(!spec_over_limit(counters[last][w].previous_window)) by {
            assert(counters[last][w].previous_window == counters[0][w].previous_window);
        }
        assert(rps_step_holds(
            indices[last],
            counters[last],
            RpsCursor { index: indices[last], use_next_online_target: false, is_first_round: true },
            true,
            indices[last + 1],
            counters[last + 1],
            cursors[last],
            actions[last],
        ));
        lemma_rps_takes_turns(idx, counters[last], indices[k], counters[k], cursors[last], actions[last]);
        assert forall|i: int| 0 <= i < actions.len() implies #[trigger] actions[i] == RpsAction::Serve(
            ((indices[0] + i) % n) as usize,
        ) by {
            if i < last {
                assert(pa[i] == actions[i]);
            }
        }
        assert forall|i: int| 0 <= i <= actions.len() implies #[trigger] indices[i] == indices[0] + i by {
            if i < k {
                assert(pi[i] == indices[i]);
            }
        }
        assert forall|i: int| 0 <= i <= actions.len() implies (#[trigger] counters[i]).len() == n by {
            if i < k {
                assert(pc[i] == counters[i]);
            }
        }
        assert forall|i: int, j: int|
            0 <= i <= actions.len() && 0 <= j < n implies (#[trigger] counters[i][j]).previous_window
                == counters[0][j].previous_window by {
            if i < k {
                assert(pc[i] == counters[i]);
            } else {
                assert(counters[k][j].previous_window == counters[last][j].previous_window);
                assert(pc[last] == counters[last]);
            }
        }
    }
}

} // verus!
