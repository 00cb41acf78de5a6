//! Who is in the game: each player's participation state and cycle, by player index.
//!
//! The server owns the authoritative roster and announces every change to it
//! as a [`PlayerEvent`]; each client applies the events to its own copy,
//! which it first builds from the [`Init`] message.

use vstd::prelude::*;

use crate::game::{granted_state, PlayerRequest, PlayerState};
use crate::messages::{Init, PlayerCycle};

verus! {

/// What the gamelogic tracks about one player.
#[derive(Debug, Clone, Copy, PartialEq, Eq, Structural)]
pub struct PlayerEntry {
    pub state: PlayerState,
    /// The index of the player's cycle, once one was spawned.
    pub cycle_index: Option<u32>,
}

/// A change to the roster, as the server announces it to all clients.
#[derive(Debug, Clone, Copy, PartialEq, Eq, Structural)]
pub enum PlayerEvent {
    /// A player connected.
    AddPlayer { player_index: u32 },
    /// A player disconnected.
    RemovePlayer { player_index: u32 },
    /// A player is now observing.
    Observe { player_index: u32 },
    /// A player is now spectating another player.
    Spectate { player_index: u32, spectatee_index: u32 },
    /// A player is now playing.
    Join { player_index: u32 },
    /// A player got a cycle.
    SpawnCycle(PlayerCycle),
}

/// The entry of a player who just connected: observing, without a cycle.
pub open spec fn new_entry() -> PlayerEntry {
    PlayerEntry { state: PlayerState::Observing, cycle_index: None }
}

/// The player that an event is about.
pub open spec fn event_player(e: PlayerEvent) -> u32 {
    match e {
        PlayerEvent::AddPlayer { player_index } => player_index,
        PlayerEvent::RemovePlayer { player_index } => player_index,
        PlayerEvent::Observe { player_index } => player_index,
        PlayerEvent::Spectate { player_index, .. } => player_index,
        PlayerEvent::Join { player_index } => player_index,
        PlayerEvent::SpawnCycle(pc) => pc.player_index,
    }
}

/// Whether an event can be applied to roster `m`: a player is added under a free index,
/// every other event is about a player who is present.
pub open spec fn event_applies(m: Map<u32, PlayerEntry>, e: PlayerEvent) -> bool {
    match e {
        PlayerEvent::AddPlayer { player_index } => !m.dom().contains(player_index),
        _ => m.dom().contains(event_player(e)),
    }
}

/// Roster `m` after event `e`.
pub open spec fn applied(m: Map<u32, PlayerEntry>, e: PlayerEvent) -> Map<u32, PlayerEntry> {
    match e {
        PlayerEvent::AddPlayer { player_index } => m.insert(player_index, new_entry()),
        PlayerEvent::RemovePlayer { player_index } => m.remove(player_index),
        PlayerEvent::Observe { player_index } => m.insert(
            player_index,
            PlayerEntry { state: PlayerState::Observing, ..m[player_index] },
        ),
        PlayerEvent::Spectate { player_index, spectatee_index } => m.insert(
            player_index,
            PlayerEntry { state: PlayerState::Spectating { spectatee_index }, ..m[player_index] },
        ),
        PlayerEvent::Join { player_index } => m.insert(
            player_index,
            PlayerEntry { state: PlayerState::Playing, ..m[player_index] },
        ),
        PlayerEvent::SpawnCycle(pc) => m.insert(
            pc.player_index,
            PlayerEntry { cycle_index: Some(pc.cycle_index), ..m[pc.player_index] },
        ),
    }
}

/// The event that announces a granted request.
pub open spec fn grant_event(player_index: u32, req: PlayerRequest) -> PlayerEvent {
    match req {
        PlayerRequest::Join => PlayerEvent::Join { player_index },
        PlayerRequest::Observe => PlayerEvent::Observe { player_index },
    }
}

/// `ps` lists the players of `m` by index, in increasing order.
pub open spec fn lists_players(m: Map<u32, PlayerEntry>, ps: Seq<u32>) -> bool {
    &&& forall|a: int, b: int| 0 <= a < b < ps.len() ==> ps[a] < ps[b]
    &&& forall|i: u32| m.dom().contains(i) <==> ps.contains(i)
}

/// `cs` lists, in increasing order of player index, every player of `m` that has a cycle,
/// with that cycle.
pub open spec fn lists_cycles(m: Map<u32, PlayerEntry>, cs: Seq<PlayerCycle>) -> bool {
    &&& forall|a: int, b: int|
        0 <= a < b < cs.len() ==> cs[a].player_index < cs[b].player_index
    &&& forall|a: int|
        0 <= a < cs.len() ==> {
            &&& m.dom().contains(#[trigger] cs[a].player_index)
            &&& m[cs[a].player_index].cycle_index == Some(cs[a].cycle_index)
        }
    &&& forall|i: u32|
        m.dom().contains(i) && (#[trigger] m[i]).cycle_index is Some ==> exists|a: int|
            0 <= a < cs.len() && cs[a].player_index == i
}

/// The roster after adding the players `ps`, in order, to an empty one.
pub open spec fn players_added(ps: Seq<u32>) -> Map<u32, PlayerEntry>
    decreases ps.len(),
{
    if ps.len() == 0 {
        Map::empty()
    } else {
        applied(players_added(ps.drop_last()), PlayerEvent::AddPlayer { player_index: ps.last() })
    }
}

/// Roster `m` after giving the players their cycles as `cs` lists them, in order.
pub open spec fn cycles_spawned(m: Map<u32, PlayerEntry>, cs: Seq<PlayerCycle>) -> Map<
    u32,
    PlayerEntry,
>
    decreases cs.len(),
{
    if cs.len() == 0 {
        m
    } else {
        applied(cycles_spawned(m, cs.drop_last()), PlayerEvent::SpawnCycle(cs.last()))
    }
}

/// The roster a client builds from the players and cycles of an [`Init`] message.
pub open spec fn init_roster(ps: Seq<u32>, cs: Seq<PlayerCycle>) -> Map<u32, PlayerEntry> {
    cycles_spawned(players_added(ps), cs)
}

/// Whether a client can set up its game from an [`Init`] message with these players,
/// cycles and number of projectiles: no player or cycle index twice, every cycle's player
/// listed, and no projectiles (which the client cannot set up yet).
pub open spec fn init_acceptable(ps: Seq<u32>, cs: Seq<PlayerCycle>, projectiles: nat) -> bool {
    &&& ps.no_duplicates()
    &&& forall|a: int| 0 <= a < cs.len() ==> ps.contains(#[trigger] cs[a].player_index)
    &&& forall|a: int, b: int|
        0 <= a < b < cs.len() ==> cs[a].cycle_index != cs[b].cycle_index
    &&& projectiles == 0
}

/// The players added are exactly the listed ones.
pub proof fn lemma_players_added_dom(ps: Seq<u32>)
    ensures
        forall|i: u32| players_added(ps).dom().contains(i) <==> ps.contains(i),
    decreases ps.len(),
{
    if ps.len() > 0 {
        lemma_players_added_dom(ps.drop_last());
        assert forall|i: u32| players_added(ps).dom().contains(i) <==> ps.contains(i) by {
            if ps.drop_last().contains(i) {
                let a = choose|a: int| 0 <= a < ps.drop_last().len() && ps.drop_last()[a] == i;
                assert(ps[a] == i);
            }
            if ps.contains(i) && i != ps.last() {
                let a = choose|a: int| 0 <= a < ps.len() && ps[a] == i;
                assert(ps.drop_last()[a] == i);
            }
        }
    }
}

/// Giving listed players their cycles adds and removes nobody.
pub proof fn lemma_cycles_spawned_dom(m: Map<u32, PlayerEntry>, cs: Seq<PlayerCycle>)
    requires
        forall|a: int| 0 <= a < cs.len() ==> m.dom().contains(#[trigger] cs[a].player_index),
    ensures
        cycles_spawned(m, cs).dom() == m.dom(),
    decreases cs.len(),
{
    if cs.len() > 0 {
        lemma_cycles_spawned_dom(m, cs.drop_last());
        assert(m.dom().contains(cs[cs.len() - 1].player_index));
        assert(cycles_spawned(m, cs).dom() =~= m.dom());
    }
}

/// Whether `v` holds `x`.
fn contains_index(v: &Vec<u32>, x: u32) -> (b: bool)
    ensures
        b == v@.contains(x),
{
    for k in 0..v.len()
        invariant
            forall|j: int| 0 <= j < k ==> v@[j] != x,
    {
        if v[k] == x {
            return true;
        }
    }
    false
}

/// Whether no index occurs twice in `v`.
fn no_repeats(v: &Vec<u32>) -> (b: bool)
    ensures
        b == v@.no_duplicates(),
{
    for a in 0..v.len()
        invariant
            forall|x: int, y: int| 0 <= x < y < v@.len() && x < a ==> v@[x] != v@[y],
    {
        for b in a + 1..v.len()
            invariant
                a < v@.len(),
                forall|x: int, y: int| 0 <= x < y < v@.len() && x < a ==> v@[x] != v@[y],
                forall|y: int| a < y < b ==> v@[a as int] != v@[y],
        {
            if v[a] == v[b] {
                proof {
                    assert(v@[a as int] == v@[b as int]);
                }
                return false;
            }
        }
    }
    true
}

/// Whether no cycle index occurs twice in `cs`.
fn cycle_indices_distinct(cs: &Vec<PlayerCycle>) -> (b: bool)
    ensures
        b == forall|a: int, b: int| 0 <= a < b < cs@.len() ==> cs@[a].cycle_index != cs@[b].cycle_index,
{
    for a in 0..cs.len()
        invariant
            forall|x: int, y: int|
                0 <= x < y < cs@.len() && x < a ==> cs@[x].cycle_index != cs@[y].cycle_index,
    {
        for b in a + 1..cs.len()
            invariant
                a < cs@.len(),
                forall|x: int, y: int|
                    0 <= x < y < cs@.len() && x < a ==> cs@[x].cycle_index != cs@[y].cycle_index,
                forall|y: int| a < y < b ==> cs@[a as int].cycle_index != cs@[y].cycle_index,
        {
            if cs[a].cycle_index == cs[b].cycle_index {
                proof {
                    assert(cs@[a as int].cycle_index == cs@[b as int].cycle_index);
                }
                return false;
            }
        }
    }
    true
}

/// Whether the player of every cycle in `cs` is listed in `ps`.
fn cycle_players_listed(ps: &Vec<u32>, cs: &Vec<PlayerCycle>) -> (b: bool)
    ensures
        b == forall|a: int| 0 <= a < cs@.len() ==> ps@.contains(#[trigger] cs@[a].player_index),
{
    for a in 0..cs.len()
        invariant
            forall|x: int| 0 <= x < a ==> ps@.contains(#[trigger] cs@[x].player_index),
    {
        if !contains_index(ps, cs[a].player_index) {
            proof {
                assert(!ps@.contains(cs@[a as int].player_index));
            }
            return false;
        }
    }
    true
}

/// The players present in a game, by player index.
#[derive(Debug)]
pub struct Roster {
    /// Slot `i` holds the player with index `i`, if any.
    slots: Vec<Option<PlayerEntry>>,
}

impl Roster {
    #[verifier::type_invariant]
    spec fn indices_fit(self) -> bool {
        self.slots@.len() <= u32::MAX + 1
    }
}

/// The roster held in `slots`.
pub closed spec fn slots_view(slots: Seq<Option<PlayerEntry>>) -> Map<u32, PlayerEntry> {
    Map::new(
        |i: u32| (i as int) < slots.len() && slots[i as int] is Some,
        |i: u32| slots[i as int]->Some_0,
    )
}

impl View for Roster {
    type V = Map<u32, PlayerEntry>;

    closed spec fn view(&self) -> Map<u32, PlayerEntry> {
        slots_view(self.slots@)
    }
}

impl Roster {
    /// A roster with nobody in it.
    pub fn new() -> (r: Self)
        ensures
            r@ == Map::<u32, PlayerEntry>::empty(),
    {
        let r = Roster { slots: Vec::new() };
        proof {
            assert(r@ =~= Map::<u32, PlayerEntry>::empty());
        }
        r
    }

    /// The entry of the player with index `player_index`, if present.
    pub fn get(&self, player_index: u32) -> (e: Option<PlayerEntry>)
        ensures
            e == (if self@.dom().contains(player_index) {
                Some(self@[player_index])
            } else {
                None
            }),
    {
        let k = player_index as usize;
        if k < self.slots.len() {
            self.slots[k]
        } else {
            None
        }
    }

    /// Whether `e` can be applied to this roster (see [`event_applies`]).
    pub fn can_apply(&self, e: &PlayerEvent) -> (b: bool)
        ensures
            b == event_applies(self@, *e),
    {
        match e {
            PlayerEvent::AddPlayer { player_index } => self.get(*player_index).is_none(),
            PlayerEvent::RemovePlayer { player_index } => self.get(*player_index).is_some(),
            PlayerEvent::Observe { player_index } => self.get(*player_index).is_some(),
            PlayerEvent::Spectate { player_index, .. } => self.get(*player_index).is_some(),
            PlayerEvent::Join { player_index } => self.get(*player_index).is_some(),
            PlayerEvent::SpawnCycle(pc) => self.get(pc.player_index).is_some(),
        }
    }

    /// Stores `entry` for the player with index `player_index`.
    fn put(&mut self, player_index: u32, entry: PlayerEntry)
        ensures
            final(self)@ == old(self)@.insert(player_index, entry),
    {
        proof {
            use_type_invariant(&*self);
        }
        let k = player_index as usize;
        let ghost old_slots = self.slots@;
        let mut slots: Vec<Option<PlayerEntry>> = Vec::new();
        std::mem::swap(&mut slots, &mut self.slots);
        while slots.len() <= k
            invariant
                old_slots.len() <= slots@.len(),
                slots@.len() == old_slots.len() || slots@.len() <= k + 1,
                old_slots.len() <= u32::MAX + 1,
                k == player_index,
                k <= u32::MAX,
                forall|j: int| 0 <= j < old_slots.len() ==> slots@[j] == old_slots[j],
                forall|j: int| old_slots.len() <= j < slots@.len() ==> slots@[j] is None,
            decreases k + 1 - slots@.len(),
        {
            slots.push(None);
        }
        slots.set(k, Some(entry));
        self.slots = slots;
        proof {
            assert(self@ =~= slots_view(old_slots).insert(player_index, entry));
        }
    }

    /// Removes the player with index `player_index`, if present.
    fn clear(&mut self, player_index: u32)
        ensures
            final(self)@ == old(self)@.remove(player_index),
    {
        proof {
            use_type_invariant(&*self);
        }
        let k = player_index as usize;
        let ghost old_slots = self.slots@;
        if k < self.slots.len() {
            let mut slots: Vec<Option<PlayerEntry>> = Vec::new();
            std::mem::swap(&mut slots, &mut self.slots);
            slots.set(k, None);
            self.slots = slots;
        }
        proof {
            assert(self@ =~= slots_view(old_slots).remove(player_index));
        }
    }

    /// Applies an event announced by the server.
    pub fn apply(&mut self, e: &PlayerEvent)
        requires
            event_applies(old(self)@, *e),
        ensures
            final(self)@ == applied(old(self)@, *e),
    {
        match *e {
            PlayerEvent::AddPlayer { player_index } => {
                self.put(player_index, PlayerEntry { state: PlayerState::Observing, cycle_index: None });
            },
            PlayerEvent::RemovePlayer { player_index } => {
                self.clear(player_index);
            },
            PlayerEvent::Observe { player_index } => {
                let entry = self.get(player_index).unwrap();
                self.put(player_index, PlayerEntry { state: PlayerState::Observing, ..entry });
            },
            PlayerEvent::Spectate { player_index, spectatee_index } => {
                let entry = self.get(player_index).unwrap();
                self.put(
                    player_index,
                    PlayerEntry { state: PlayerState::Spectating { spectatee_index }, ..entry },
                );
            },
            PlayerEvent::Join { player_index } => {
                let entry = self.get(player_index).unwrap();
                self.put(player_index, PlayerEntry { state: PlayerState::Playing, ..entry });
            },
            PlayerEvent::SpawnCycle(pc) => {
                let entry = self.get(pc.player_index).unwrap();
                self.put(pc.player_index, PlayerEntry { cycle_index: Some(pc.cycle_index), ..entry });
            },
        }
    }

    /// Adds a player who just connected under the index `player_index`;
    /// returns the event that tells every client.
    pub fn add_player(&mut self, player_index: u32) -> (ev: PlayerEvent)
        requires
            !old(self)@.dom().contains(player_index),
        ensures
            ev == (PlayerEvent::AddPlayer { player_index }),
            event_applies(old(self)@, ev),
            final(self)@ == applied(old(self)@, ev),
    {
        let ev = PlayerEvent::AddPlayer { player_index };
        self.apply(&ev);
        ev
    }

    /// Removes a player who disconnected; returns the event that tells every client
    /// and the index of the player's cycle, which goes away with the player.
    pub fn remove_player(&mut self, player_index: u32) -> (res: (PlayerEvent, Option<u32>))
        requires
            old(self)@.dom().contains(player_index),
        ensures
            res.0 == (PlayerEvent::RemovePlayer { player_index }),
            res.1 == old(self)@[player_index].cycle_index,
            event_applies(old(self)@, res.0),
            final(self)@ == applied(old(self)@, res.0),
    {
        let cycle_index = self.get(player_index).unwrap().cycle_index;
        let ev = PlayerEvent::RemovePlayer { player_index };
        self.apply(&ev);
        (ev, cycle_index)
    }

    /// Grants a player's request to join or observe;
    /// returns the event that tells every client.
    pub fn grant(&mut self, player_index: u32, req: PlayerRequest) -> (ev: PlayerEvent)
        requires
            old(self)@.dom().contains(player_index),
        ensures
            ev == grant_event(player_index, req),
            event_applies(old(self)@, ev),
            final(self)@ == applied(old(self)@, ev),
            final(self)@[player_index].state == granted_state(req),
    {
        let ev = match req {
            PlayerRequest::Join => PlayerEvent::Join { player_index },
            PlayerRequest::Observe => PlayerEvent::Observe { player_index },
        };
        self.apply(&ev);
        ev
    }

    /// Records that the player with index `player_index` got the cycle with index
    /// `cycle_index`; returns the event that tells every client.
    pub fn spawn_cycle(&mut self, player_index: u32, cycle_index: u32) -> (ev: PlayerEvent)
        requires
            old(self)@.dom().contains(player_index),
        ensures
            ev == PlayerEvent::SpawnCycle(PlayerCycle { player_index, cycle_index }),
            event_applies(old(self)@, ev),
            final(self)@ == applied(old(self)@, ev),
    {
        let ev = PlayerEvent::SpawnCycle(PlayerCycle { player_index, cycle_index });
        self.apply(&ev);
        ev
    }

    /// The indices of all players, in increasing order.
    pub fn player_indices(&self) -> (ps: Vec<u32>)
        ensures
            lists_players(self@, ps@),
    {
        proof {
            use_type_invariant(self);
        }
        let mut ps: Vec<u32> = Vec::new();
        let n = self.slots.len();
        for k in 0..n
            invariant
                n == self.slots@.len(),
                n <= u32::MAX + 1,
                forall|a: int, b: int| 0 <= a < b < ps@.len() ==> ps@[a] < ps@[b],
                forall|a: int| 0 <= a < ps@.len() ==> ps@[a] < k,
                forall|i: u32|
                    ((i as int) < k && self.slots@[i as int] is Some) <==> ps@.contains(i),
        {
            if self.slots[k].is_some() {
                let ghost before = ps@;
                ps.push(k as u32);
                proof {
                    assert forall|i: u32|
                        ((i as int) < k + 1 && self.slots@[i as int] is Some) <==> ps@.contains(
                            i,
                        ) by {
                        if ps@.contains(i) && i != k as u32 {
                            let a = choose|a: int| 0 <= a < ps@.len() && ps@[a] == i;
                            assert(before[a] == i);
                        }
                        if before.contains(i) {
                            let a = choose|a: int| 0 <= a < before.len() && before[a] == i;
                            assert(ps@[a] == i);
                        }
                        if i == k as u32 {
                            assert(ps@[before.len() as int] == i);
                        }
                    }
                }
            } else {
                proof {
                    assert forall|i: u32|
                        ((i as int) < k + 1 && self.slots@[i as int] is Some) <==> ps@.contains(
                            i,
                        ) by {
                        if ps@.contains(i) {
                            let a = choose|a: int| 0 <= a < ps@.len() && ps@[a] == i;
                            assert(ps@[a] < k);
                        }
                    }
                }
            }
        }
        ps
    }

    /// Every player that has a cycle, with its cycle, in increasing order of player index.
    pub fn player_cycles(&self) -> (cs: Vec<PlayerCycle>)
        ensures
            lists_cycles(self@, cs@),
    {
        proof {
            use_type_invariant(self);
        }
        let mut cs: Vec<PlayerCycle> = Vec::new();
        let n = self.slots.len();
        for k in 0..n
            invariant
                n == self.slots@.len(),
                n <= u32::MAX + 1,
                forall|a: int, b: int|
                    0 <= a < b < cs@.len() ==> cs@[a].player_index < cs@[b].player_index,
                forall|a: int|
                    0 <= a < cs@.len() ==> {
                        &&& (#[trigger] cs@[a]).player_index < k
                        &&& self@.dom().contains(cs@[a].player_index)
                        &&& self@[cs@[a].player_index].cycle_index == Some(cs@[a].cycle_index)
                    },
                forall|i: u32|
                    (i as int) < k && self@.dom().contains(i) && (#[trigger] self@[i]).cycle_index is Some
                        ==> exists|a: int| 0 <= a < cs@.len() && cs@[a].player_index == i,
        {
            let ghost before = cs@;
            match self.slots[k] {
                Some(entry) => match entry.cycle_index {
                    Some(c) => {
                        cs.push(PlayerCycle { player_index: k as u32, cycle_index: c });
                        proof {
                            assert(self@.dom().contains(k as u32));
                            assert forall|i: u32|
                                (i as int) < k + 1 && self@.dom().contains(i) && (#[trigger] self@[
                                    i
                                ]).cycle_index is Some implies exists|a: int|
                                0 <= a < cs@.len() && cs@[a].player_index == i by {
                                if i == k as u32 {
                                    assert(cs@[before.len() as int].player_index == i);
                                } else {
                                    let a = choose|a: int|
                                        0 <= a < before.len() && before[a].player_index == i;
                                    assert(cs@[a].player_index == i);
                                }
                            }
                        }
                    },
                    None => {
                        proof {
                            assert(self@.dom().contains(k as u32));
                        }
                    },
                },
                None => {
                    proof {
                        assert(!self@.dom().contains(k as u32));
                    }
                },
            }
        }
        cs
    }

    /// The [`Init`] message for a client whose own player has index `local_player_index`.
    ///
    /// Players and cycles are listed in increasing order of player index;
    /// as each player is listed once, a client sets up the same game in any order
    /// (see [`Roster::from_init`]).
    pub fn init_for(&self, local_player_index: u32) -> (init: Init)
        ensures
            lists_players(self@, init.player_indices@),
            init.local_player_index == local_player_index,
            lists_cycles(self@, init.player_cycles@),
            init.player_projectiles@.len() == 0,
    {
        Init {
            player_indices: self.player_indices(),
            local_player_index,
            player_cycles: self.player_cycles(),
            player_projectiles: Vec::new(),
        }
    }

    /// Whether a client can set up its game from `init` (see [`init_acceptable`]).
    pub fn init_is_acceptable(init: &Init) -> (b: bool)
        ensures
            b == init_acceptable(
                init.player_indices@,
                init.player_cycles@,
                init.player_projectiles@.len(),
            ),
    {
        init.player_projectiles.len() == 0 && no_repeats(&init.player_indices)
            && cycle_indices_distinct(&init.player_cycles) && cycle_players_listed(
            &init.player_indices,
            &init.player_cycles,
        )
    }

    /// The roster a client sets up from the server's `init`.
    pub fn from_init(init: &Init) -> (r: Self)
        requires
            init_acceptable(
                init.player_indices@,
                init.player_cycles@,
                init.player_projectiles@.len(),
            ),
        ensures
            r@ == init_roster(init.player_indices@, init.player_cycles@),
    {
        let ps = &init.player_indices;
        let cs = &init.player_cycles;
        let mut r = Roster::new();
        for k in 0..ps.len()
            invariant
                ps@.no_duplicates(),
                r@ == players_added(ps@.take(k as int)),
        {
            proof {
                lemma_players_added_dom(ps@.take(k as int));
                if ps@.take(k as int).contains(ps@[k as int]) {
                    let a = choose|a: int|
                        0 <= a < k && ps@.take(k as int)[a] == ps@[k as int];
                    assert(ps@[a] == ps@[k as int]);
                }
                assert(ps@.take(k + 1 as int).drop_last() =~= ps@.take(k as int));
            }
            r.apply(&PlayerEvent::AddPlayer { player_index: ps[k] });
        }
        proof {
            assert(ps@.take(ps@.len() as int) =~= ps@);
            lemma_players_added_dom(ps@);
        }
        let ghost base = players_added(ps@);
        for k in 0..cs.len()
            invariant
                forall|a: int| 0 <= a < cs@.len() ==> base.dom().contains(#[trigger] cs@[a].player_index),
                r@ == cycles_spawned(base, cs@.take(k as int)),
        {
            proof {
                lemma_cycles_spawned_dom(base, cs@.take(k as int));
                assert(base.dom().contains(cs@[k as int].player_index));
                assert(cs@.take(k + 1 as int).drop_last() =~= cs@.take(k as int));
            }
            r.apply(&PlayerEvent::SpawnCycle(cs[k]));
        }
        proof {
            assert(cs@.take(cs@.len() as int) =~= cs@);
        }
        r
    }
}

} // verus!
