//! Round-trip estimation by a periodic ping/pong exchange with each peer.
use vstd::prelude::*;
use std::collections::HashMap;
use crate::random::random_u64;

verus! {

broadcast use vstd::std_specs::hash::group_hash_axioms;

/// The one-way delay assumed before any measurement, in microseconds.
pub const PING_DEFAULT_VALUE: u64 = 50_000;

/// How long a sent ping may stay unanswered before it is given up, in microseconds.
pub const PING_SEND_TIME: u64 = 3_000_000;

/// How long to wait between two pings, in microseconds.
pub const PING_WAIT_TIME: u64 = 10_000_000;

/// One step of the moving average: four parts old estimate, one part new sample.
pub open spec fn ema_step(old: int, sample: int) -> int {
    (old * 4 + sample) / 5
}

/// The estimate after `n` samples all equal to `sample`, starting at `start`.
pub open spec fn ema_iter(start: int, sample: int, n: nat) -> int
    decreases n,
{
    if n == 0 {
        start
    } else {
        ema_step(ema_iter(start, sample, (n - 1) as nat), sample)
    }
}

/// The distance between two integers.
pub open spec fn dist(a: int, b: int) -> int {
    if a >= b {
        a - b
    } else {
        b - a
    }
}

/// `base` raised to `n`.
pub open spec fn power(base: int, n: nat) -> int
    decreases n,
{
    if n == 0 {
        1
    } else {
        base * power(base, (n - 1) as nat)
    }
}

/// The smoothed delay towards one peer; `None` until the first pong.
#[derive(Clone, Copy, Debug, PartialEq, Eq)]
pub struct Ping {
    pub time: Option<u64>,
}

/// The estimate that a `Ping` stands for.
pub open spec fn ping_value(time: Option<u64>) -> int {
    match time {
        Some(t) => t as int,
        None => PING_DEFAULT_VALUE as int,
    }
}

impl Ping {
    /// No measurement yet.
    pub fn new() -> (r: Ping)
        ensures
            r.time is None,
    {
        Ping { time: None }
    }

    /// Folds a new one-way sample into the moving average.
    pub fn update_time(&mut self, new_time: u64)
        ensures
            final(self).time == Some(ema_step(ping_value(old(self).time), new_time as int) as u64),
            ping_value(final(self).time) == ema_step(ping_value(old(self).time), new_time as int),
    {
        let old_time: u64 = match self.time {
            Some(t) => t,
            None => PING_DEFAULT_VALUE,
        };
        let sum: u128 = old_time as u128 * 4 + new_time as u128;
        let r: u128 = sum / 5;
        assert(r <= u64::MAX) by (nonlinear_arith)
            requires
                sum == old_time as u128 * 4 + new_time as u128,
                r == sum / 5,
                old_time <= u64::MAX,
                new_time <= u64::MAX,
        ;
        self.time = Some(r as u64);
    }

    /// The smoothed estimate, or the default before the first measurement.
    pub fn get_time(&self) -> (r: u64)
        ensures
            r as int == ping_value(self.time),
    {
        match self.time {
            Some(t) => t,
            None => PING_DEFAULT_VALUE,
        }
    }

    /// Whether at least one pong has been measured.
    pub fn is_connected(&self) -> (r: bool)
        ensures
            r == self.time is Some,
    {
        self.time.is_some()
    }
}

impl Default for Ping {
    fn default() -> (r: Ping)
        ensures
            r.time is None,
    {
        Ping::new()
    }
}

/// Where the local ping cycle stands.
#[derive(Clone, Copy, Debug, PartialEq, Eq)]
pub enum PingState {
    /// Not started.
    Idle,
    /// A ping went out at the given time.
    Sent(u64),
    /// Waiting since the given time before the next ping.
    Waiting(u64),
}

/// The ping cycle of this side and the estimate towards every peer.
pub struct PingList {
    id: u64,
    counter: u64,
    state: PingState,
    data: HashMap<usize, Ping>,
}

/// The sample that a pong received at `receive` carries for a ping sent at `send`:
/// half the round trip.
pub open spec fn pong_sample(send: u64, receive: u64) -> int {
    if receive >= send {
        (receive - send) / 2
    } else {
        0
    }
}

impl PingList {
    pub closed spec fn id_spec(&self) -> u64 {
        self.id
    }

    pub closed spec fn counter_spec(&self) -> u64 {
        self.counter
    }

    pub closed spec fn state_spec(&self) -> PingState {
        self.state
    }

    /// The entry of each known peer.
    pub closed spec fn peers(&self) -> Map<usize, Ping> {
        self.data@
    }

    /// Whether `handle` has an entry.
    pub open spec fn has_peer(&self, handle: usize) -> bool {
        self.peers().contains_key(handle)
    }

    /// The entry of `handle`, where there is one.
    pub open spec fn peer_ping(&self, handle: usize) -> Ping {
        self.peers()[handle]
    }

    /// The one-way delay estimate towards `handle`.
    pub open spec fn estimate(&self, handle: usize) -> int {
        if self.has_peer(handle) {
            ping_value(self.peer_ping(handle).time)
        } else {
            PING_DEFAULT_VALUE as int
        }
    }

    /// Every peer but `handle` has the same entry, or none, in `a` and in `b`.
    pub open spec fn same_others(a: PingList, b: PingList, handle: usize) -> bool {
        forall|h: usize|
            h != handle ==> (b.has_peer(h) == a.has_peer(h) && (a.has_peer(h) ==> b.peer_ping(h)
                == a.peer_ping(h)))
    }

    /// This side's own ping id.
    pub fn id(&self) -> (r: u64)
        ensures
            r == self.id_spec(),
    {
        self.id
    }

    /// The counter that the next ping carries.
    pub fn counter(&self) -> (r: u64)
        ensures
            r == self.counter_spec(),
    {
        self.counter
    }

    /// Where the ping cycle stands.
    pub fn state(&self) -> (r: PingState)
        ensures
            r == self.state_spec(),
    {
        self.state
    }

    /// A list whose own ping id is `id`, idle, with no peer.
    pub fn new(id: u64) -> (r: PingList)
        ensures
            r.id_spec() == id,
            r.counter_spec() == 0,
            r.state_spec() == PingState::Idle,
            r.peers() == Map::<usize, Ping>::empty(),
    {
        PingList { id, counter: 0, state: PingState::Idle, data: HashMap::new() }
    }

    /// Gives `new_handle` the entry `ping`, replacing any earlier one.
    pub fn insert(&mut self, new_handle: usize, ping: Ping)
        ensures
            final(self).id_spec() == old(self).id_spec(),
            final(self).counter_spec() == old(self).counter_spec(),
            final(self).state_spec() == old(self).state_spec(),
            final(self).peers() == old(self).peers().insert(new_handle, ping),
            final(self).has_peer(new_handle),
            final(self).peer_ping(new_handle) == ping,
            Self::same_others(*old(self), *final(self), new_handle),
    {
        self.data.insert(new_handle, ping);
    }

    /// Takes a pong: when it echoes this side's id while a ping is out, and the peer is
    /// known, half the round trip is folded into that peer's estimate. Anything else is
    /// a stale or foreign echo and changes nothing.
    pub fn receive_pong(&mut self, pong_id: u64, handle: usize, receive_time: u64)
        ensures
            final(self).id_spec() == old(self).id_spec(),
            final(self).counter_spec() == old(self).counter_spec(),
            final(self).state_spec() == old(self).state_spec(),
            final(self).has_peer(handle) == old(self).has_peer(handle),
            Self::same_others(*old(self), *final(self), handle),
            ({
                let matched = pong_id == old(self).id_spec() && old(self).state_spec() is Sent
                    && old(self).has_peer(handle);
                let folded = ema_step(
                    ping_value(old(self).peer_ping(handle).time),
                    pong_sample(old(self).state_spec()->Sent_0, receive_time),
                );
                &&& matched ==> final(self).peers() == old(self).peers().insert(
                    handle,
                    Ping { time: Some(folded as u64) },
                )
                &&& matched ==> final(self).estimate(handle) == ema_step(
                    old(self).estimate(handle),
                    pong_sample(old(self).state_spec()->Sent_0, receive_time),
                )
                &&& !matched ==> final(self).peers() == old(self).peers()
            }),
    {
        if pong_id != self.id {
            return;
        }
        if let PingState::Sent(send_time) = self.state {
            let found = match self.data.get(&handle) {
                Some(p) => Some(*p),
                None => None,
            };
            if let Some(mut entry) = found {
                let sample: u64 = if receive_time >= send_time {
                    (receive_time - send_time) / 2
                } else {
                    0
                };
                entry.update_time(sample);
                self.data.insert(handle, entry);
            }
        }
    }

    /// The delay estimate towards `handle`: its smoothed value, or the default.
    pub fn get_time(&self, handle: usize) -> (r: u64)
        ensures
            r as int == self.estimate(handle),
    {
        match self.data.get(&handle) {
            Some(p) => p.get_time(),
            None => PING_DEFAULT_VALUE,
        }
    }

    /// Whether the ping cycle has been started.
    pub fn is_connected(&self) -> (r: bool)
        ensures
            r == !(self.state_spec() is Idle),
    {
        match self.state {
            PingState::Idle => false,
            _ => true,
        }
    }

    /// Advances the ping cycle to time `now`. Returns the ping to send, as its id and
    /// counter, when the wait is over; a ping that stays unanswered for too long is
    /// given up and the wait begins again.
    pub fn update(&mut self, now: u64) -> (r: Option<(u64, u64)>)
        ensures
            final(self).id_spec() == old(self).id_spec(),
            final(self).peers() == old(self).peers(),
            match old(self).state_spec() {
                PingState::Idle => r is None && *final(self) == *old(self),
                PingState::Waiting(w) => if now as int >= w as int + PING_WAIT_TIME as int {
                    &&& r == Some((old(self).id_spec(), old(self).counter_spec()))
                    &&& final(self).state_spec() == PingState::Sent(now)
                    &&& final(self).counter_spec() == (if old(self).counter_spec() == u64::MAX {
                        0
                    } else {
                        (old(self).counter_spec() + 1) as u64
                    })
                } else {
                    r is None && *final(self) == *old(self)
                },
                PingState::Sent(s) => {
                    &&& r is None
                    &&& final(self).counter_spec() == old(self).counter_spec()
                    &&& final(self).state_spec() == if now as int >= s as int
                        + PING_SEND_TIME as int {
                        PingState::Waiting(now)
                    } else {
                        PingState::Sent(s)
                    }
                },
            },
    {
        match self.state {
            PingState::Idle => None,
            PingState::Waiting(wait_time) => {
                if now >= wait_time && now - wait_time >= PING_WAIT_TIME {
                    let out = (self.id, self.counter);
                    self.state = PingState::Sent(now);
                    self.counter = if self.counter == u64::MAX {
                        0
                    } else {
                        self.counter + 1
                    };
                    Some(out)
                } else {
                    None
                }
            },
            PingState::Sent(send_time) => {
                if now >= send_time && now - send_time >= PING_SEND_TIME {
                    self.state = PingState::Waiting(now);
                }
                None
            },
        }
    }

    /// Starts the ping cycle, unless it runs already. The first wait is shortened by an
    /// amount taken from `jitter`, so that peers started together do not ping in step.
    pub fn start_with(&mut self, jitter: u64)
        ensures
            final(self).id_spec() == old(self).id_spec(),
            final(self).counter_spec() == old(self).counter_spec(),
            final(self).peers() == old(self).peers(),
            final(self).state_spec() == if old(self).state_spec() is Idle {
                PingState::Waiting((PING_WAIT_TIME / 2 + jitter % (PING_WAIT_TIME / 2)) as u64)
            } else {
                old(self).state_spec()
            },
    {
        if !self.is_connected() {
            self.state = PingState::Waiting(PING_WAIT_TIME / 2 + jitter % (PING_WAIT_TIME / 2));
        }
    }

    /// Starts the ping cycle with a random first wait, unless it runs already.
    pub fn start(&mut self)
        ensures
            final(self).id_spec() == old(self).id_spec(),
            final(self).counter_spec() == old(self).counter_spec(),
            final(self).peers() == old(self).peers(),
            old(self).state_spec() is Idle ==> ({
                &&& final(self).state_spec() is Waiting
                &&& PING_WAIT_TIME / 2 <= final(self).state_spec()->Waiting_0 < PING_WAIT_TIME
            }),
            !(old(self).state_spec() is Idle) ==> final(self).state_spec() == old(
                self,
            ).state_spec(),
    {
        let jitter = random_u64();
        self.start_with(jitter);
    }

    /// Takes the id of a ping from a peer: where it equals this side's own id, the own
    /// id becomes `fresh`.
    pub fn resolve_collision(&mut self, in_id: u64, fresh: u64)
        ensures
            final(self).id_spec() == if in_id == old(self).id_spec() {
                fresh
            } else {
                old(self).id_spec()
            },
            final(self).counter_spec() == old(self).counter_spec(),
            final(self).state_spec() == old(self).state_spec(),
            final(self).peers() == old(self).peers(),
    {
        if in_id == self.id {
            self.id = fresh;
        }
    }

    /// Takes the id of a ping from a peer: where it equals this side's own id, a new
    /// random own id is drawn.
    pub fn check_collision_id(&mut self, in_id: u64)
        ensures
            in_id != old(self).id_spec() ==> final(self).id_spec() == old(self).id_spec(),
            final(self).counter_spec() == old(self).counter_spec(),
            final(self).state_spec() == old(self).state_spec(),
            final(self).peers() == old(self).peers(),
    {
        if in_id == self.id {
            let fresh = random_u64();
            self.resolve_collision(in_id, fresh);
        }
    }

    /// Answers a ping from a peer: the pong carries the same id and counter back.
    pub fn on_ping(&mut self, id: u64, counter: u64) -> (r: (u64, u64))
        ensures
            r == (id, counter),
            id != old(self).id_spec() ==> final(self).id_spec() == old(self).id_spec(),
            final(self).counter_spec() == old(self).counter_spec(),
            final(self).state_spec() == old(self).state_spec(),
            final(self).peers() == old(self).peers(),
    {
        self.check_collision_id(id);
        (id, counter)
    }
}

impl Default for PingList {
    /// An idle list with a random own id.
    fn default() -> (r: PingList)
        ensures
            r.counter_spec() == 0,
            r.state_spec() == PingState::Idle,
            r.peers() == Map::<usize, Ping>::empty(),
    {
        PingList::new(random_u64())
    }
}

/// A step of the moving average stays within its two inputs.
pub proof fn lemma_ema_step_bounds(old: int, sample: int)
    requires
        old >= 0,
        sample >= 0,
    ensures
        ema_step(old, sample) >= 0,
        ema_step(old, sample) <= if old >= sample { old } else { sample },
{
    let m = if old >= sample { old } else { sample };
    assert(old * 4 + sample <= m * 5) by (nonlinear_arith)
        requires m >= old, m >= sample, old >= 0, sample >= 0;
    assert((old * 4 + sample) / 5 <= m) by (nonlinear_arith)
        requires old * 4 + sample <= m * 5, old * 4 + sample >= 0;
}

/// Each pong carrying `sample` removes at least a fifth of the distance between the
/// estimate and the sample, give or take one unit of rounding; an estimate equal to the
/// sample stays.
pub proof fn lemma_ema_step_contracts(old: int, sample: int)
    requires
        old >= 0,
        sample >= 0,
    ensures
        5 * dist(ema_step(old, sample), sample) <= 4 * dist(old, sample) + 5,
        old == sample ==> ema_step(old, sample) == sample,
{
    let n = ema_step(old, sample);
    let e = old - sample;
    assert(n - sample == (4 * e) / 5) by {
        assert(old * 4 + sample == 4 * e + sample * 5);
        vstd::arithmetic::div_mod::lemma_hoist_over_denominator(4 * e, sample, 5);
    }
    let q = (4 * e) / 5;
    assert(5 * q <= 4 * e < 5 * q + 5) by {
        vstd::arithmetic::div_mod::lemma_fundamental_div_mod(4 * e, 5);
        vstd::arithmetic::div_mod::lemma_mod_bound(4 * e, 5);
    }
}

/// Repeated pongs carrying the same `sample` pull the estimate towards it
/// geometrically: after `n` of them the distance is at most `(4/5)^n` of the starting
/// distance, plus five units of rounding.
pub proof fn lemma_ema_converges(start: int, sample: int, n: nat)
    requires
        start >= 0,
        sample >= 0,
    ensures
        ema_iter(start, sample, n) >= 0,
        power(5, n) * dist(ema_iter(start, sample, n), sample) <= power(4, n) * dist(
            start,
            sample,
        ) + 5 * power(5, n),
    decreases n,
{
    if n > 0 {
        let m = (n - 1) as nat;
        lemma_ema_converges(start, sample, m);
        let prev = ema_iter(start, sample, m);
        lemma_ema_step_bounds(prev, sample);
        lemma_ema_step_contracts(prev, sample);
        let d = dist(ema_iter(start, sample, n), sample);
        let dp = dist(prev, sample);
        let d0 = dist(start, sample);
        let p5 = power(5, m);
        let p4 = power(4, m);
        assert(p5 >= 0 && p4 >= 0) by {
            lemma_power_nonneg(5, m);
            lemma_power_nonneg(4, m);
        }
        assert(p5 * 5 * d <= p5 * (4 * dp + 5)) by (nonlinear_arith)
            requires 5 * d <= 4 * dp + 5, p5 >= 0;
        assert(4 * (p5 * dp) <= 4 * (p4 * d0 + 5 * p5)) by (nonlinear_arith)
            requires p5 * dp <= p4 * d0 + 5 * p5;
        assert(power(5, n) * d == p5 * 5 * d) by (nonlinear_arith)
            requires power(5, n) == 5 * p5;
        assert(p5 * (4 * dp + 5) == 4 * (p5 * dp) + 5 * p5) by (nonlinear_arith);
        assert(power(4, n) * d0 == 4 * (p4 * d0)) by (nonlinear_arith)
            requires power(4, n) == 4 * p4;
    }
}

proof fn lemma_power_nonneg(base: int, n: nat)
    requires
        base >= 0,
    ensures
        power(base, n) >= 0,
    decreases n,
{
    if n > 0 {
        lemma_power_nonneg(base, (n - 1) as nat);
        let p = power(base, (n - 1) as nat);
        assert(base * p >= 0) by (nonlinear_arith)
            requires base >= 0, p >= 0;
    }
}

} // verus!
