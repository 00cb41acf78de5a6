//! What holds of the roster across events and of the copy a client builds from `Init`.

use vstd::prelude::*;

use crate::game::{PlayerRequest, PlayerState};
use crate::messages::PlayerCycle;
use crate::roster::{
    applied, cycles_spawned, grant_event, event_applies, event_player, init_acceptable, init_roster,
    lists_cycles, lists_players, new_entry, players_added, PlayerEntry, PlayerEvent,
    lemma_players_added_dom,
};

verus! {

proof fn lemma_players_added_entries(ps: Seq<u32>)
    ensures
        forall|i: u32| #[trigger] players_added(ps).dom().contains(i) ==> players_added(ps)[i] == new_entry(),
    decreases ps.len(),
{
    if ps.len() > 0 {
        lemma_players_added_dom(ps.drop_last());
        lemma_players_added_entries(ps.drop_last());
    }
}

/// Giving players cycles in a list where each player occurs once sets exactly their cycles.
proof fn lemma_cycles_spawned_entries(m: Map<u32, PlayerEntry>, cs: Seq<PlayerCycle>)
    requires
        forall|a: int, b: int| 0 <= a < b < cs.len() ==> cs[a].player_index < cs[b].player_index,
        forall|a: int| 0 <= a < cs.len() ==> m.dom().contains(#[trigger] cs[a].player_index),
    ensures
        cycles_spawned(m, cs).dom() == m.dom(),
        forall|a: int|
            0 <= a < cs.len() ==> cycles_spawned(m, cs)[#[trigger] cs[a].player_index] == (PlayerEntry {
                cycle_index: Some(cs[a].cycle_index),
                ..m[cs[a].player_index]
            }),
        forall|i: u32|
            m.dom().contains(i) && (forall|a: int| 0 <= a < cs.len() ==> #[trigger] cs[a].player_index != i)
                ==> #[trigger] cycles_spawned(m, cs)[i] == m[i],
    decreases cs.len(),
{
    if cs.len() > 0 {
        let init = cs.drop_last();
        lemma_cycles_spawned_entries(m, init);
        let last = cs[cs.len() - 1];
        assert(m.dom().contains(last.player_index));
        assert(cycles_spawned(m, cs).dom() =~= m.dom());
        assert forall|a: int| 0 <= a < cs.len() implies cycles_spawned(m, cs)[
            #[trigger] cs[a].player_index] == (PlayerEntry {
            cycle_index: Some(cs[a].cycle_index),
            ..m[cs[a].player_index]
        }) by {
            if a < cs.len() - 1 {
                assert(init[a] == cs[a]);
                assert(cs[a].player_index < last.player_index);
            }
        }
        assert forall|i: u32|
            m.dom().contains(i) && (forall|a: int| 0 <= a < cs.len() ==> #[trigger] cs[a].player_index
                != i) implies #[trigger] cycles_spawned(m, cs)[i] == m[i] by {
            assert(cs[cs.len() - 1].player_index != i);
            assert forall|a: int| 0 <= a < init.len() implies #[trigger] init[a].player_index != i by {
                assert(init[a] == cs[a]);
                assert(cs[a].player_index != i);
            }
        }
    }
}

/// The roster a client builds from the [`Init`](crate::messages::Init) that the server made
/// of its roster has the same players with the same cycles, every one of them observing:
/// the message does not carry how the players participate.
pub proof fn law_init_replicates_players(
    m: Map<u32, PlayerEntry>,
    ps: Seq<u32>,
    cs: Seq<PlayerCycle>,
)
    requires
        lists_players(m, ps),
        lists_cycles(m, cs),
    ensures
        init_roster(ps, cs).dom() == m.dom(),
        forall|i: u32|
            m.dom().contains(i) ==> #[trigger] init_roster(ps, cs)[i] == (PlayerEntry {
                state: PlayerState::Observing,
                cycle_index: m[i].cycle_index,
            }),
{
    lemma_players_added_dom(ps);
    lemma_players_added_entries(ps);
    let base = players_added(ps);
    assert forall|i: u32| #[trigger] base.dom().contains(i) == m.dom().contains(i) by {
        assert(base.dom().contains(i) == ps.contains(i));
        assert(m.dom().contains(i) == ps.contains(i));
    }
    assert(base.dom() =~= m.dom());
    lemma_cycles_spawned_entries(base, cs);
    assert forall|i: u32| m.dom().contains(i) implies #[trigger] init_roster(ps, cs)[i] == (
    PlayerEntry { state: PlayerState::Observing, cycle_index: m[i].cycle_index }) by {
        assert(base.dom().contains(i));
        if m[i].cycle_index is Some {
            let a = choose|a: int| 0 <= a < cs.len() && cs[a].player_index == i;
            assert(init_roster(ps, cs)[cs[a].player_index] == (PlayerEntry {
                cycle_index: Some(cs[a].cycle_index),
                ..base[cs[a].player_index]
            }));
        } else {
            assert forall|a: int| 0 <= a < cs.len() implies #[trigger] cs[a].player_index != i by {
                if cs[a].player_index == i {
                    assert(m[cs[a].player_index].cycle_index == Some(cs[a].cycle_index));
                }
            }
        }
    }
}

/// A client that sets up its game from the server's [`Init`](crate::messages::Init)
/// while every player is observing ends up with exactly the server's roster.
pub proof fn law_init_copies_roster_of_observers(
    m: Map<u32, PlayerEntry>,
    ps: Seq<u32>,
    cs: Seq<PlayerCycle>,
)
    requires
        lists_players(m, ps),
        lists_cycles(m, cs),
        forall|i: u32| m.dom().contains(i) ==> (#[trigger] m[i]).state == PlayerState::Observing,
    ensures
        init_roster(ps, cs) == m,
{
    law_init_replicates_players(m, ps, cs);
    assert(init_roster(ps, cs) =~= m);
}

/// The players and cycles of the server's [`Init`](crate::messages::Init) never make a
/// client give up: no player is listed twice and every cycle's player is listed,
/// whenever the players' cycles are distinct.
pub proof fn law_init_of_roster_is_acceptable(
    m: Map<u32, PlayerEntry>,
    ps: Seq<u32>,
    cs: Seq<PlayerCycle>,
)
    requires
        lists_players(m, ps),
        lists_cycles(m, cs),
        forall|i: u32, j: u32|
            m.dom().contains(i) && m.dom().contains(j) && i != j && (#[trigger] m[i]).cycle_index
                is Some ==> m[i].cycle_index != (#[trigger] m[j]).cycle_index,
    ensures
        init_acceptable(ps, cs, 0),
{
    assert forall|a: int| 0 <= a < cs.len() implies ps.contains(#[trigger] cs[a].player_index) by {
        assert(m.dom().contains(cs[a].player_index));
    }
    assert forall|a: int, b: int| 0 <= a < b < cs.len() implies cs[a].cycle_index
        != cs[b].cycle_index by {
        let i = cs[a].player_index;
        let j = cs[b].player_index;
        assert(m.dom().contains(i) && m.dom().contains(j));
        assert(m[i].cycle_index == Some(cs[a].cycle_index));
        assert(m[j].cycle_index == Some(cs[b].cycle_index));
    }
}

/// Removing a player who was just added gives back the roster from before.
pub proof fn law_remove_undoes_add(m: Map<u32, PlayerEntry>, player_index: u32)
    requires
        !m.dom().contains(player_index),
    ensures
        event_applies(m, PlayerEvent::AddPlayer { player_index }),
        event_applies(
            applied(m, PlayerEvent::AddPlayer { player_index }),
            PlayerEvent::RemovePlayer { player_index },
        ),
        applied(
            applied(m, PlayerEvent::AddPlayer { player_index }),
            PlayerEvent::RemovePlayer { player_index },
        ) == m,
{
    assert(applied(
        applied(m, PlayerEvent::AddPlayer { player_index }),
        PlayerEvent::RemovePlayer { player_index },
    ) =~= m);
}

/// An event changes the entry of the player it is about and nobody else's.
pub proof fn law_event_touches_one_player(m: Map<u32, PlayerEntry>, e: PlayerEvent, other: u32)
    requires
        event_applies(m, e),
        other != event_player(e),
    ensures
        applied(m, e).dom().contains(other) == m.dom().contains(other),
        m.dom().contains(other) ==> applied(m, e)[other] == m[other],
{
}

/// Every event that applies keeps or adds the player it is about, except a removal;
/// a player that is added starts out observing, without a cycle.
pub proof fn law_event_presence(m: Map<u32, PlayerEntry>, e: PlayerEvent)
    requires
        event_applies(m, e),
    ensures
        e is RemovePlayer <==> !applied(m, e).dom().contains(event_player(e)),
        e is AddPlayer ==> applied(m, e)[event_player(e)] == new_entry(),
{
}

/// Observing, joining and spectating change only the player's state:
/// who is in the game and every cycle stay as they were.
pub proof fn law_state_events_keep_cycles(m: Map<u32, PlayerEntry>, e: PlayerEvent)
    requires
        event_applies(m, e),
        e is Observe || e is Join || e is Spectate,
    ensures
        applied(m, e).dom() == m.dom(),
        applied(m, e)[event_player(e)].cycle_index == m[event_player(e)].cycle_index,
        forall|i: u32| #[trigger] m.dom().contains(i) ==> applied(m, e)[i].cycle_index == m[i].cycle_index,
{
    assert(applied(m, e).dom() =~= m.dom());
}

/// A granted request sets the player's state to what was asked for
/// (playing for a join, observing for an observe) and keeps the player's cycle.
pub proof fn law_grant_keeps_cycle(m: Map<u32, PlayerEntry>, player_index: u32, req: PlayerRequest)
    requires
        m.dom().contains(player_index),
    ensures
        applied(m, grant_event(player_index, req)).dom() == m.dom(),
        applied(m, grant_event(player_index, req))[player_index] == (PlayerEntry {
            state: match req {
                PlayerRequest::Join => PlayerState::Playing,
                PlayerRequest::Observe => PlayerState::Observing,
            },
            cycle_index: m[player_index].cycle_index,
        }),
{
    assert(applied(m, grant_event(player_index, req)).dom() =~= m.dom());
}

/// Spawning a cycle records it and keeps the player's state.
pub proof fn law_spawn_cycle_keeps_state(m: Map<u32, PlayerEntry>, pc: PlayerCycle)
    requires
        m.dom().contains(pc.player_index),
    ensures
        applied(m, PlayerEvent::SpawnCycle(pc))[pc.player_index] == (PlayerEntry {
            state: m[pc.player_index].state,
            cycle_index: Some(pc.cycle_index),
        }),
{
}

} // verus!
