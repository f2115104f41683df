use zunda_shower::ball::{BallType, SpawnBall};
use zunda_shower::gate_countdown::{countdown_step, GateAction, GateGeneral, GateZombie};
use zunda_shower::gate_generic::{deliver, GateGeneric};
use zunda_shower::gate_splitter::GateSplitter;
use zunda_shower::spawn_timer::SpawnTimer;
use zunda_shower::shredder::{Shredder, ShredderMove};

fn sb(g: u32, b: BallType) -> SpawnBall {
    SpawnBall(g, b)
}

#[test]
fn splitter_without_budget_sends_all() {
    let mut s = GateSplitter::new(vec![sb(1, BallType::Zundamon), sb(2, BallType::Type1P1)], None);
    for _ in 0..3 {
        let out = s.split();
        assert_eq!(out.signals, vec![sb(1, BallType::Zundamon), sb(2, BallType::Type1P1)]);
        assert!(!out.faded);
    }
    assert_eq!(s.remaining(), None);
}

#[test]
fn splitter_budget_runs_out() {
    let mut s = GateSplitter::new(vec![sb(1, BallType::Zombie), sb(2, BallType::Type2P2), sb(2, BallType::Type2P2)], Some(2));
    let a = s.split();
    assert_eq!(a.signals.len(), 3);
    assert_eq!(s.remaining(), Some(1));
    let b = s.split();
    assert_eq!(b.signals.len(), 3);
    assert!(!b.faded);
    assert_eq!(s.remaining(), Some(0));
    let c = s.split();
    assert_eq!(c.signals, vec![sb(1, BallType::Zombie)]);
    assert!(c.faded);
    assert_eq!(s.remaining(), Some(0));
}

#[test]
fn splitter_budget_total_signals() {
    // Law: with budget r and k signals, n >= r balls cause r*k + (n - r) signals.
    let mut s = GateSplitter::new(vec![sb(5, BallType::Zundamon); 4], Some(3));
    let mut total = 0;
    for _ in 0..7 {
        total += s.split().signals.len();
    }
    assert_eq!(total, 3 * 4 + 4);
}

#[test]
fn generic_gate_releases_last_queued_first() {
    let mut g = GateGeneric::new();
    g.receive(BallType::Zundamon);
    g.receive(BallType::Zombie);
    assert_eq!(g.release(false), None);
    assert_eq!(g.remain.len(), 2);
    assert_eq!(g.release(true), Some(BallType::Zombie));
    assert_eq!(g.release(true), Some(BallType::Zundamon));
    assert_eq!(g.release(true), None);
    assert!(g.remain.is_empty());
}

#[test]
fn generic_gate_receive_then_release_round_trip() {
    let mut g = GateGeneric { remain: vec![BallType::Type3P1] };
    g.receive(BallType::Type4P2);
    assert_eq!(g.release(true), Some(BallType::Type4P2));
    assert_eq!(g.remain, vec![BallType::Type3P1]);
}

#[test]
fn deliver_routes_signals_to_their_gates() {
    let mut gates = vec![(3u32, GateGeneric::new()), (8u32, GateGeneric { remain: vec![BallType::Zombie] })];
    let events = vec![sb(8, BallType::Type1P1), sb(3, BallType::Zundamon), sb(8, BallType::Type2P1)];
    deliver(&mut gates, &events);
    assert_eq!(gates[0].0, 3);
    assert_eq!(gates[0].1.remain, vec![BallType::Zundamon]);
    assert_eq!(gates[1].0, 8);
    assert_eq!(gates[1].1.remain, vec![BallType::Zombie, BallType::Type1P1, BallType::Type2P1]);
}

#[test]
fn deliver_nothing_leaves_gates_alone() {
    let mut gates = vec![(1u32, GateGeneric { remain: vec![BallType::Zombie] })];
    deliver(&mut gates, &vec![]);
    assert_eq!(gates[0].1.remain, vec![BallType::Zombie]);
}

#[test]
fn countdown_spends_stock_then_despawns() {
    let mut remain = 2;
    assert_eq!(countdown_step(&mut remain, false), GateAction::Wait);
    assert_eq!(remain, 2);
    assert_eq!(countdown_step(&mut remain, true), GateAction::Spawn);
    assert_eq!(countdown_step(&mut remain, true), GateAction::Spawn);
    assert_eq!(remain, 0);
    assert_eq!(countdown_step(&mut remain, true), GateAction::Despawn);
    assert_eq!(countdown_step(&mut remain, false), GateAction::Despawn);
    assert_eq!(remain, 0);
}

#[test]
fn countdown_negative_stock_despawns() {
    let mut g = GateGeneral { remain: -3 };
    assert_eq!(g.step(true), GateAction::Despawn);
    assert_eq!(g.remain, -3);
}

#[test]
fn countdown_releases_min_of_stock_and_chances() {
    // Law: released == min(stock, chances), stock left == stock - released.
    let fires = [true, false, true, true, true, false, true];
    let mut g = GateZombie { remain: 3 };
    let mut released = 0;
    for f in fires {
        if g.step(f) == GateAction::Spawn {
            released += 1;
        }
    }
    assert_eq!(released, 3);
    assert_eq!(g.remain, 0);
    let mut g2 = GateGeneral { remain: 10 };
    let mut released2 = 0;
    for f in fires {
        if g2.step(f) == GateAction::Spawn {
            released2 += 1;
        }
    }
    assert_eq!(released2, 5);
    assert_eq!(g2.remain, 5);
}

#[test]
fn spawn_timer_fires_and_despawns() {
    let t = SpawnTimer { signals: vec![sb(4, BallType::Zundamon), sb(4, BallType::Zombie)] };
    let wait = t.fire(false);
    assert!(wait.signals.is_empty());
    assert!(!wait.despawn);
    let go = t.fire(true);
    assert_eq!(go.signals, vec![sb(4, BallType::Zundamon), sb(4, BallType::Zombie)]);
    assert!(go.despawn);
}

#[test]
fn spawn_timer_without_signals_stays() {
    let t = SpawnTimer { signals: vec![] };
    let go = t.fire(true);
    assert!(go.signals.is_empty());
    assert!(!go.despawn);
}

#[test]
fn shredder_follows_route_and_stops_before_last_point() {
    let mut s = Shredder { target_point: 0, point_count: 3 };
    assert_eq!(s.step(false), ShredderMove::Toward(0));
    assert_eq!(s.step(true), ShredderMove::Advance);
    assert_eq!(s.target_point, 1);
    assert_eq!(s.step(false), ShredderMove::Toward(1));
    assert_eq!(s.step(true), ShredderMove::Advance);
    assert_eq!(s.target_point, 2);
    assert_eq!(s.step(false), ShredderMove::Stop);
    assert_eq!(s.step(true), ShredderMove::Stop);
    assert_eq!(s.target_point, 2);
}

#[test]
fn shredder_with_one_point_never_moves() {
    let mut s = Shredder { target_point: 0, point_count: 1 };
    assert_eq!(s.step(false), ShredderMove::Stop);
    assert_eq!(s.step(true), ShredderMove::Stop);
}
