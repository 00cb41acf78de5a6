use rustcycles::game::{PlayerRequest, PlayerState};
use rustcycles::messages::{Init, PlayerCycle, PlayerProjectile};
use rustcycles::roster::{PlayerEntry, PlayerEvent, Roster};

fn entry(state: PlayerState, cycle_index: Option<u32>) -> PlayerEntry {
    PlayerEntry { state, cycle_index }
}

fn observer() -> PlayerEntry {
    entry(PlayerState::Observing, None)
}

#[test]
fn roster_starts_empty() {
    let r = Roster::new();
    assert_eq!(r.get(0), None);
    assert_eq!(r.get(7), None);
    assert!(r.player_indices().is_empty());
    assert!(r.player_cycles().is_empty());
}

#[test]
fn add_player_announces_an_observer() {
    let mut r = Roster::new();
    let ev = r.add_player(3);
    assert_eq!(ev, PlayerEvent::AddPlayer { player_index: 3 });
    assert_eq!(r.get(3), Some(observer()));
    assert_eq!(r.get(2), None);
    assert_eq!(r.get(4), None);
    assert_eq!(r.player_indices(), vec![3]);
}

#[test]
fn grant_join_then_observe() {
    let mut r = Roster::new();
    r.add_player(0);
    let ev = r.grant(0, PlayerRequest::Join);
    assert_eq!(ev, PlayerEvent::Join { player_index: 0 });
    assert_eq!(r.get(0).unwrap().state, PlayerState::Playing);
    let ev = r.grant(0, PlayerRequest::Observe);
    assert_eq!(ev, PlayerEvent::Observe { player_index: 0 });
    assert_eq!(r.get(0).unwrap().state, PlayerState::Observing);
}

#[test]
fn spawn_cycle_records_the_cycle() {
    let mut r = Roster::new();
    r.add_player(1);
    let ev = r.spawn_cycle(1, 5);
    assert_eq!(ev, PlayerEvent::SpawnCycle(PlayerCycle { player_index: 1, cycle_index: 5 }));
    assert_eq!(r.get(1), Some(entry(PlayerState::Observing, Some(5))));
}

#[test]
fn remove_player_gives_back_its_cycle() {
    let mut r = Roster::new();
    r.add_player(0);
    r.add_player(1);
    r.spawn_cycle(1, 9);
    let (ev, cycle) = r.remove_player(1);
    assert_eq!(ev, PlayerEvent::RemovePlayer { player_index: 1 });
    assert_eq!(cycle, Some(9));
    assert_eq!(r.get(1), None);
    assert_eq!(r.get(0), Some(observer()));
    let (_, cycle) = r.remove_player(0);
    assert_eq!(cycle, None);
    assert!(r.player_indices().is_empty());
}

#[test]
fn remove_after_add_restores_the_roster() {
    let mut r = Roster::new();
    r.add_player(2);
    r.grant(2, PlayerRequest::Join);
    let before = (r.get(2), r.get(4), r.player_indices());
    r.add_player(4);
    r.remove_player(4);
    assert_eq!((r.get(2), r.get(4), r.player_indices()), before);
}

#[test]
fn init_for_lists_players_and_cycles_in_index_order() {
    let mut r = Roster::new();
    r.add_player(4);
    r.add_player(0);
    r.add_player(2);
    r.spawn_cycle(4, 1);
    r.spawn_cycle(0, 0);
    let init = r.init_for(2);
    assert_eq!(init.player_indices, vec![0, 2, 4]);
    assert_eq!(init.local_player_index, 2);
    assert_eq!(
        init.player_cycles,
        vec![
            PlayerCycle { player_index: 0, cycle_index: 0 },
            PlayerCycle { player_index: 4, cycle_index: 1 },
        ]
    );
    assert!(init.player_projectiles.is_empty());
}

#[test]
fn client_copy_from_init_has_players_and_cycles() {
    let mut server = Roster::new();
    server.add_player(0);
    server.add_player(1);
    server.spawn_cycle(0, 3);
    server.grant(0, PlayerRequest::Join);
    let init = server.init_for(1);
    assert!(Roster::init_is_acceptable(&init));
    let client = Roster::from_init(&init);
    assert_eq!(client.player_indices(), server.player_indices());
    assert_eq!(client.player_cycles(), server.player_cycles());
    // The message doesn't say who is playing: the client sees everyone observing.
    assert_eq!(server.get(0), Some(entry(PlayerState::Playing, Some(3))));
    assert_eq!(client.get(0), Some(entry(PlayerState::Observing, Some(3))));
    assert_eq!(client.get(1), Some(observer()));
}

#[test]
fn client_follows_the_servers_events() {
    let mut server = Roster::new();
    let mut client = Roster::new();
    let events = vec![
        server.add_player(0),
        server.add_player(1),
        server.spawn_cycle(1, 0),
        server.grant(1, PlayerRequest::Join),
        server.remove_player(0).0,
        server.add_player(0),
        server.grant(0, PlayerRequest::Observe),
    ];
    for ev in &events {
        assert!(client.can_apply(ev));
        client.apply(ev);
    }
    for i in 0..3 {
        assert_eq!(client.get(i), server.get(i));
    }
    assert_eq!(client.get(1), Some(entry(PlayerState::Playing, Some(0))));
}

#[test]
fn spectate_event_sets_spectatee() {
    let mut r = Roster::new();
    r.add_player(0);
    r.add_player(1);
    let ev = PlayerEvent::Spectate { player_index: 0, spectatee_index: 1 };
    assert!(r.can_apply(&ev));
    r.apply(&ev);
    assert_eq!(r.get(0).unwrap().state, PlayerState::Spectating { spectatee_index: 1 });
    assert_eq!(r.get(1), Some(observer()));
}

#[test]
fn events_that_dont_apply() {
    let mut r = Roster::new();
    r.add_player(0);
    assert!(!r.can_apply(&PlayerEvent::AddPlayer { player_index: 0 }));
    assert!(r.can_apply(&PlayerEvent::AddPlayer { player_index: 1 }));
    assert!(!r.can_apply(&PlayerEvent::RemovePlayer { player_index: 1 }));
    assert!(!r.can_apply(&PlayerEvent::Join { player_index: 1 }));
    assert!(!r.can_apply(&PlayerEvent::Observe { player_index: 5 }));
    assert!(!r.can_apply(&PlayerEvent::Spectate { player_index: 5, spectatee_index: 0 }));
    assert!(!r.can_apply(&PlayerEvent::SpawnCycle(PlayerCycle { player_index: 2, cycle_index: 0 })));
    assert!(r.can_apply(&PlayerEvent::SpawnCycle(PlayerCycle { player_index: 0, cycle_index: 0 })));
}

fn init(player_indices: Vec<u32>, player_cycles: Vec<PlayerCycle>) -> Init {
    Init { player_indices, local_player_index: 0, player_cycles, player_projectiles: Vec::new() }
}

#[test]
fn init_rejects_a_player_listed_twice() {
    assert!(!Roster::init_is_acceptable(&init(vec![0, 1, 0], Vec::new())));
    assert!(Roster::init_is_acceptable(&init(vec![0, 1, 2], Vec::new())));
}

#[test]
fn init_rejects_a_cycle_of_an_unknown_player() {
    let cycles = vec![PlayerCycle { player_index: 7, cycle_index: 0 }];
    assert!(!Roster::init_is_acceptable(&init(vec![0, 1], cycles)));
}

#[test]
fn init_rejects_a_cycle_listed_twice() {
    let cycles = vec![
        PlayerCycle { player_index: 0, cycle_index: 4 },
        PlayerCycle { player_index: 1, cycle_index: 4 },
    ];
    assert!(!Roster::init_is_acceptable(&init(vec![0, 1], cycles)));
}

#[test]
fn init_rejects_projectiles() {
    let mut msg = init(vec![0], Vec::new());
    msg.player_projectiles.push(PlayerProjectile { player_index: 0, projectile_index: 0 });
    assert!(!Roster::init_is_acceptable(&msg));
}

#[test]
fn from_init_with_unsorted_lists() {
    let cycles = vec![
        PlayerCycle { player_index: 5, cycle_index: 1 },
        PlayerCycle { player_index: 2, cycle_index: 0 },
    ];
    let msg = init(vec![5, 2, 8], cycles);
    assert!(Roster::init_is_acceptable(&msg));
    let r = Roster::from_init(&msg);
    assert_eq!(r.player_indices(), vec![2, 5, 8]);
    assert_eq!(r.get(5), Some(entry(PlayerState::Observing, Some(1))));
    assert_eq!(r.get(2), Some(entry(PlayerState::Observing, Some(0))));
    assert_eq!(r.get(8), Some(observer()));
}
