//! The message router: demultiplexes the messages received in a tick into one buffer
//! per channel. State channels keep the latest value per player; shots and explosions
//! keep every event in order.
use vstd::prelude::*;
use crate::body::Data as BodyData;
use crate::game::{ExplosionData, GameMessage, MesState, NewTank, NewTankData, ShotData};
use crate::geom::Vec2;
use crate::rotation::Data as RotationData;

verus! {

/// No player appears twice.
pub open spec fn unique_keys<T>(s: Seq<(usize, T)>) -> bool {
    forall|i: int, j: int| 0 <= i < j < s.len() ==> s[i].0 != s[j].0
}

/// Whether `h` has an entry.
pub open spec fn has_key<T>(s: Seq<(usize, T)>, h: usize) -> bool {
    exists|i: int| 0 <= i < s.len() && s[i].0 == h
}

/// The entry of `h`, where there is one.
pub open spec fn key_index<T>(s: Seq<(usize, T)>, h: usize) -> int {
    choose|i: int| 0 <= i < s.len() && s[i].0 == h
}

/// `v` becomes the value of `h`: in place of its old value, or added at the end.
pub open spec fn upsert<T>(s: Seq<(usize, T)>, h: usize, v: T) -> Seq<(usize, T)> {
    if has_key(s, h) {
        s.update(key_index(s, h), (h, v))
    } else {
        s.push((h, v))
    }
}

proof fn lemma_key_index<T>(s: Seq<(usize, T)>, k: int)
    requires
        unique_keys(s),
        0 <= k < s.len(),
    ensures
        has_key(s, s[k].0),
        key_index(s, s[k].0) == k,
{
    let h = s[k].0;
    assert(has_key(s, h));
    let c = key_index(s, h);
    if c < k {
        assert(s[c].0 != s[k].0);
    }
    if c > k {
        assert(s[k].0 != s[c].0);
    }
}

/// Sets the value of `h` in a list with one entry per player.
fn upsert_vec<T: Copy>(v: &mut Vec<(usize, T)>, h: usize, x: T)
    requires
        unique_keys(old(v)@),
    ensures
        final(v)@ == upsert(old(v)@, h, x),
        unique_keys(final(v)@),
{
    let ghost orig = v@;
    let mut i: usize = 0;
    while i < v.len()
        invariant
            v@ == orig,
            orig == old(v)@,
            i <= v@.len(),
            unique_keys(v@),
            forall|j: int| 0 <= j < i ==> v@[j].0 != h,
        decreases v@.len() - i,
    {
        if v[i].0 == h {
            proof {
                lemma_key_index(v@, i as int);
            }
            let ghost before = v@;
            v.set(i, (h, x));
            proof {
                assert(v@ == before.update(i as int, (h, x)));
                assert forall|a: int, b: int| 0 <= a < b < v@.len() implies v@[a].0 != v@[b].0 by {
                    assert(before[a].0 != before[b].0);
                }
            }
            return;
        }
        i = i + 1;
    }
    assert(!has_key(v@, h));
    let ghost before = v@;
    v.push((h, x));
    proof {
        assert forall|a: int, b: int| 0 <= a < b < v@.len() implies v@[a].0 != v@[b].0 by {
            if b < before.len() {
                assert(before[a].0 != before[b].0);
            }
        }
    }
}

/// The buffers of a tick, and what routing adds to the outside: spawn requests, and
/// messages to send.
pub struct Inbox {
    pub body: Seq<(usize, BodyData)>,
    pub turret: Seq<(usize, RotationData)>,
    pub cannon: Seq<(usize, RotationData)>,
    pub shot: Seq<(usize, ShotData)>,
    pub explosion: Seq<(usize, ExplosionData)>,
    pub spawn: Seq<NewTank>,
    pub output: Seq<GameMessage>,
}

/// The spawn request for a tank announced by `handle`.
pub open spec fn spawn_request(handle: usize, d: NewTankData) -> NewTank {
    NewTank { handle, pos: Vec2 { x: d.pos.x, y: d.pos.z }, angle: d.angle }
}

/// Routes one message from `m.0`. A request for data is answered with the local tank,
/// if there is one. A tank announced by a known player is ignored; by an unknown one,
/// it asks for a spawn. State overwrites the player's slot; events are appended.
pub open spec fn route(
    v: Inbox,
    m: (usize, GameMessage),
    local: Option<NewTankData>,
    known: Seq<usize>,
) -> Inbox {
    match m.1 {
        GameMessage::Empty => v,
        GameMessage::DataRequest => match local {
            Some(d) => Inbox { output: v.output.push(GameMessage::InitData(d)), ..v },
            None => v,
        },
        GameMessage::InitData(d) => if known.contains(m.0) {
            v
        } else {
            Inbox { spawn: v.spawn.push(spawn_request(m.0, d)), ..v }
        },
        GameMessage::BodyMove(d) => Inbox { body: upsert(v.body, m.0, d), ..v },
        GameMessage::TurretRotate(d) => Inbox { turret: upsert(v.turret, m.0, d), ..v },
        GameMessage::CannonRotate(d) => Inbox { cannon: upsert(v.cannon, m.0, d), ..v },
        GameMessage::Shot(d) => Inbox { shot: v.shot.push((m.0, d)), ..v },
        GameMessage::Explosion(d) => Inbox { explosion: v.explosion.push((m.0, d)), ..v },
    }
}

/// Routes messages in arrival order.
pub open spec fn route_all(
    v: Inbox,
    msgs: Seq<(usize, GameMessage)>,
    local: Option<NewTankData>,
    known: Seq<usize>,
) -> Inbox
    decreases msgs.len(),
{
    if msgs.len() == 0 {
        v
    } else {
        route(route_all(v, msgs.drop_last(), local, known), msgs.last(), local, known)
    }
}

/// The messages received in a tick, and the buffers they are routed into.
pub struct Router {
    raw: Vec<(usize, GameMessage)>,
    body: Vec<(usize, BodyData)>,
    turret: Vec<(usize, RotationData)>,
    cannon: Vec<(usize, RotationData)>,
    shot: Vec<(usize, ShotData)>,
    explosion: Vec<(usize, ExplosionData)>,
}

impl Router {
    /// Received and not yet routed, in arrival order.
    pub closed spec fn raw(&self) -> Seq<(usize, GameMessage)> {
        self.raw@
    }

    pub closed spec fn body(&self) -> Seq<(usize, BodyData)> {
        self.body@
    }

    pub closed spec fn turret(&self) -> Seq<(usize, RotationData)> {
        self.turret@
    }

    pub closed spec fn cannon(&self) -> Seq<(usize, RotationData)> {
        self.cannon@
    }

    pub closed spec fn shots(&self) -> Seq<(usize, ShotData)> {
        self.shot@
    }

    pub closed spec fn explosions(&self) -> Seq<(usize, ExplosionData)> {
        self.explosion@
    }

    /// The state channels hold one slot per player.
    pub open spec fn wf(&self) -> bool {
        unique_keys(self.body()) && unique_keys(self.turret()) && unique_keys(self.cannon())
    }

    /// The buffers, with the given spawn requests and outbound messages.
    pub open spec fn inbox(&self, spawn: Seq<NewTank>, output: Seq<GameMessage>) -> Inbox {
        Inbox {
            body: self.body(),
            turret: self.turret(),
            cannon: self.cannon(),
            shot: self.shots(),
            explosion: self.explosions(),
            spawn,
            output,
        }
    }

    /// Whether nothing is held: no message waits and every buffer is empty.
    pub open spec fn is_empty(&self) -> bool {
        &&& self.raw().len() == 0
        &&& self.body().len() == 0
        &&& self.turret().len() == 0
        &&& self.cannon().len() == 0
        &&& self.shots().len() == 0
        &&& self.explosions().len() == 0
    }

    /// A router that holds nothing.
    pub fn new() -> (r: Router)
        ensures
            r.wf(),
            r.is_empty(),
    {
        Router {
            raw: Vec::new(),
            body: Vec::new(),
            turret: Vec::new(),
            cannon: Vec::new(),
            shot: Vec::new(),
            explosion: Vec::new(),
        }
    }

    /// Queues a message received from `handle`.
    pub fn receive(&mut self, handle: usize, msg: GameMessage)
        ensures
            final(self).raw() == old(self).raw().push((handle, msg)),
            final(self).inbox(seq![], seq![]) == old(self).inbox(seq![], seq![]),
    {
        self.raw.push((handle, msg));
    }

    /// Routes every message received, in arrival order, and leaves none waiting.
    /// `local` is the local tank, if it is spawned; `known` lists the players whose
    /// tanks exist here.
    pub fn dispatch(
        &mut self,
        local: Option<NewTankData>,
        known: &Vec<usize>,
        spawn: &mut Vec<NewTank>,
        output: &mut Vec<GameMessage>,
    )
        requires
            old(self).wf(),
        ensures
            final(self).wf(),
            final(self).raw().len() == 0,
            final(self).inbox(final(spawn)@, final(output)@) == route_all(
                old(self).inbox(old(spawn)@, old(output)@),
                old(self).raw(),
                local,
                known@,
            ),
    {
        let ghost start = self.inbox(spawn@, output@);
        let ghost msgs = self.raw@;
        let mut i: usize = 0;
        while i < self.raw.len()
            invariant
                self.raw@ == msgs,
                i <= msgs.len(),
                self.wf(),
                self.inbox(spawn@, output@) == route_all(start, msgs.take(i as int), local, known@),
            decreases msgs.len() - i,
        {
            let (handle, msg) = self.raw[i];
            proof {
                assert(msgs.take(i as int + 1).drop_last() == msgs.take(i as int));
                assert(msgs.take(i as int + 1).last() == (handle, msg));
            }
            match msg {
                GameMessage::Empty => {},
                GameMessage::DataRequest => {
                    if let Some(d) = local {
                        output.push(GameMessage::InitData(d));
                    }
                },
                GameMessage::InitData(d) => {
                    if !contains(known, handle) {
                        spawn.push(
                            NewTank { handle, pos: Vec2 { x: d.pos.x, y: d.pos.z }, angle: d.angle },
                        );
                    }
                },
                GameMessage::BodyMove(d) => upsert_vec(&mut self.body, handle, d),
                GameMessage::TurretRotate(d) => upsert_vec(&mut self.turret, handle, d),
                GameMessage::CannonRotate(d) => upsert_vec(&mut self.cannon, handle, d),
                GameMessage::Shot(d) => self.shot.push((handle, d)),
                GameMessage::Explosion(d) => self.explosion.push((handle, d)),
            }
            i = i + 1;
        }
        assert(msgs.take(msgs.len() as int) == msgs);
        self.raw.clear();
    }

    /// Hands out the latest body state of each player and empties the buffer.
    pub fn take_body(&mut self) -> (r: Vec<(usize, BodyData)>)
        ensures
            r@ == old(self).body(),
            unique_keys(r@) <== old(self).wf(),
            final(self).body().len() == 0,
            final(self).wf() <== old(self).wf(),
            final(self).raw() == old(self).raw(),
            final(self).turret() == old(self).turret(),
            final(self).cannon() == old(self).cannon(),
            final(self).shots() == old(self).shots(),
            final(self).explosions() == old(self).explosions(),
    {
        let mut r = Vec::new();
        std::mem::swap(&mut r, &mut self.body);
        r
    }

    /// Hands out the latest turret state of each player and empties the buffer.
    pub fn take_turret(&mut self) -> (r: Vec<(usize, RotationData)>)
        ensures
            r@ == old(self).turret(),
            final(self).turret().len() == 0,
            final(self).wf() <== old(self).wf(),
            final(self).raw() == old(self).raw(),
            final(self).body() == old(self).body(),
            final(self).cannon() == old(self).cannon(),
            final(self).shots() == old(self).shots(),
            final(self).explosions() == old(self).explosions(),
    {
        let mut r = Vec::new();
        std::mem::swap(&mut r, &mut self.turret);
        r
    }

    /// Hands out the latest cannon state of each player and empties the buffer.
    pub fn take_cannon(&mut self) -> (r: Vec<(usize, RotationData)>)
        ensures
            r@ == old(self).cannon(),
            final(self).cannon().len() == 0,
            final(self).wf() <== old(self).wf(),
            final(self).raw() == old(self).raw(),
            final(self).body() == old(self).body(),
            final(self).turret() == old(self).turret(),
            final(self).shots() == old(self).shots(),
            final(self).explosions() == old(self).explosions(),
    {
        let mut r = Vec::new();
        std::mem::swap(&mut r, &mut self.cannon);
        r
    }

    /// Hands out every shot of the tick, in arrival order, and empties the buffer.
    pub fn take_shots(&mut self) -> (r: Vec<(usize, ShotData)>)
        ensures
            r@ == old(self).shots(),
            final(self).shots().len() == 0,
            final(self).wf() <== old(self).wf(),
            final(self).raw() == old(self).raw(),
            final(self).body() == old(self).body(),
            final(self).turret() == old(self).turret(),
            final(self).cannon() == old(self).cannon(),
            final(self).explosions() == old(self).explosions(),
    {
        let mut r = Vec::new();
        std::mem::swap(&mut r, &mut self.shot);
        r
    }

    /// Hands out every explosion of the tick, in arrival order, and empties the buffer.
    pub fn take_explosions(&mut self) -> (r: Vec<(usize, ExplosionData)>)
        ensures
            r@ == old(self).explosions(),
            final(self).explosions().len() == 0,
            final(self).wf() <== old(self).wf(),
            final(self).raw() == old(self).raw(),
            final(self).body() == old(self).body(),
            final(self).turret() == old(self).turret(),
            final(self).cannon() == old(self).cannon(),
            final(self).shots() == old(self).shots(),
    {
        let mut r = Vec::new();
        std::mem::swap(&mut r, &mut self.explosion);
        r
    }

    /// Empties every buffer, whatever is left in it.
    pub fn clear(&mut self)
        ensures
            final(self).wf(),
            final(self).is_empty(),
    {
        self.raw.clear();
        self.body.clear();
        self.turret.clear();
        self.cannon.clear();
        self.shot.clear();
        self.explosion.clear();
    }
}

/// Whether `h` is in `v`.
fn contains(v: &Vec<usize>, h: usize) -> (r: bool)
    ensures
        r == v@.contains(h),
{
    let mut i: usize = 0;
    while i < v.len()
        invariant
            i <= v@.len(),
            forall|j: int| 0 <= j < i ==> v@[j] != h,
        decreases v@.len() - i,
    {
        if v[i] == h {
            assert(v@[i as int] == h);
            return true;
        }
        i = i + 1;
    }
    false
}

/// The position of `h`'s entry, if it has one.
fn find_key<T: Copy>(s: &Vec<(usize, T)>, h: usize) -> (r: Option<usize>)
    requires
        unique_keys(s@),
    ensures
        match r {
            Some(k) => has_key(s@, h) && k as int == key_index(s@, h) && k < s@.len(),
            None => !has_key(s@, h),
        },
{
    let mut i: usize = 0;
    while i < s.len()
        invariant
            i <= s@.len(),
            unique_keys(s@),
            forall|j: int| 0 <= j < i ==> s@[j].0 != h,
        decreases s@.len() - i,
    {
        if s[i].0 == h {
            proof {
                lemma_key_index(s@, i as int);
            }
            return Some(i);
        }
        i = i + 1;
    }
    None
}

/// A proxy's state after the tick: the latest value of its player, received `now`, or
/// its state as it was.
pub open spec fn refreshed<T>(p: (usize, MesState<T>), slots: Seq<(usize, T)>, now: u64) -> (
    usize,
    MesState<T>,
) {
    if has_key(slots, p.0) {
        (p.0, MesState { data: slots[key_index(slots, p.0)].1, time: now })
    } else {
        p
    }
}

/// Hands the latest value of each player to that player's proxy, stamped `now`.
pub fn process_in_mes_map<T: Copy>(
    slots: &Vec<(usize, T)>,
    proxies: &mut Vec<(usize, MesState<T>)>,
    now: u64,
)
    requires
        unique_keys(slots@),
    ensures
        final(proxies)@.len() == old(proxies)@.len(),
        forall|i: int|
            0 <= i < old(proxies)@.len() ==> #[trigger] final(proxies)@[i] == refreshed(
                old(proxies)@[i],
                slots@,
                now,
            ),
{
    let ghost start = proxies@;
    let mut i: usize = 0;
    while i < proxies.len()
        invariant
            proxies@.len() == start.len(),
            i <= start.len(),
            unique_keys(slots@),
            forall|j: int| 0 <= j < i ==> #[trigger] proxies@[j] == refreshed(start[j], slots@, now),
            forall|j: int| i <= j < start.len() ==> #[trigger] proxies@[j] == start[j],
        decreases start.len() - i,
    {
        let handle = proxies[i].0;
        if let Some(k) = find_key(slots, handle) {
            proxies.set(i, (handle, MesState { data: slots[k].1, time: now }));
        }
        i = i + 1;
    }
}

/// Whether a proxy for `h` exists.
pub open spec fn has_proxy<T>(proxies: Seq<(usize, MesState<T>)>, h: usize) -> bool {
    exists|i: int| 0 <= i < proxies.len() && proxies[i].0 == h
}

/// Whether each of the first `k` slots belongs to a player with a proxy.
pub open spec fn all_known(
    slots: Seq<(usize, BodyData)>,
    proxies: Seq<(usize, MesState<BodyData>)>,
    k: int,
) -> bool {
    forall|j: int| 0 <= j < k ==> has_proxy(proxies, #[trigger] slots[j].0)
}

/// The spawn request for the body in a slot.
pub open spec fn body_spawn(slot: (usize, BodyData)) -> NewTank {
    NewTank { handle: slot.0, pos: slot.1.pos, angle: slot.1.angle }
}

/// Hands the latest body state of each player to that player's proxy, stamped `now`,
/// and asks for a spawn for the first player, in slot order, whose body has no proxy
/// yet; one spawn per call, the others wait for later calls.
pub fn process_in_mes_tank_body(
    slots: &Vec<(usize, BodyData)>,
    proxies: &mut Vec<(usize, MesState<BodyData>)>,
    now: u64,
    spawn: &mut Vec<NewTank>,
)
    requires
        unique_keys(slots@),
    ensures
        final(proxies)@.len() == old(proxies)@.len(),
        forall|i: int|
            0 <= i < old(proxies)@.len() ==> #[trigger] final(proxies)@[i] == refreshed(
                old(proxies)@[i],
                slots@,
                now,
            ),
        all_known(slots@, old(proxies)@, slots@.len() as int) ==> final(spawn)@ == old(spawn)@,
        forall|k: int|
            0 <= k < slots@.len() && all_known(slots@, old(proxies)@, k) && !has_proxy(
                old(proxies)@,
                #[trigger] slots@[k].0,
            ) ==> final(spawn)@ == old(spawn)@.push(body_spawn(slots@[k])),
{
    let ghost before = proxies@;
    let mut i: usize = 0;
    while i < slots.len()
        invariant
            i <= slots@.len(),
            proxies@ == before,
            before == old(proxies)@,
            unique_keys(slots@),
            spawn@ == old(spawn)@,
            all_known(slots@, before, i as int),
        decreases slots@.len() - i,
    {
        let (handle, data) = slots[i];
        if !has_proxy_exec(proxies, handle) {
            spawn.push(NewTank { handle, pos: data.pos, angle: data.angle });
            proof {
                assert forall|k: int|
                    0 <= k < slots@.len() && all_known(slots@, before, k) && !has_proxy(
                        before,
                        #[trigger] slots@[k].0,
                    ) implies k == i as int by {
                    if k > i as int {
                        assert(has_proxy(before, slots@[i as int].0));
                    }
                }
                assert(!all_known(slots@, before, slots@.len() as int)) by {
                    assert(!has_proxy(before, slots@[i as int].0));
                }
            }
            process_in_mes_map(slots, proxies, now);
            return;
        }
        i = i + 1;
    }
    process_in_mes_map(slots, proxies, now);
}

fn has_proxy_exec<T: Copy>(proxies: &Vec<(usize, MesState<T>)>, h: usize) -> (r: bool)
    ensures
        r == has_proxy(proxies@, h),
{
    let mut i: usize = 0;
    while i < proxies.len()
        invariant
            i <= proxies@.len(),
            forall|j: int| 0 <= j < i ==> proxies@[j].0 != h,
        decreases proxies@.len() - i,
    {
        if proxies[i].0 == h {
            return true;
        }
        i = i + 1;
    }
    false
}

/// An explosion is routed unchanged to the end of the explosion buffer, behind those of
/// the tick before it, and no other buffer changes.
pub proof fn lemma_explosion_kept(
    v: Inbox,
    handle: usize,
    e: ExplosionData,
    local: Option<NewTankData>,
    known: Seq<usize>,
)
    ensures
        route(v, (handle, GameMessage::Explosion(e)), local, known).explosion == v.explosion.push(
            (handle, e),
        ),
        route(v, (handle, GameMessage::Explosion(e)), local, known) == (Inbox {
            explosion: v.explosion.push((handle, e)),
            ..v
        }),
{
}

} // verus!
