use lavalink_client::model::{Opcode, Real, Stats, StatsCpu, StatsFrames, StatsMemory};
use lavalink_client::penalty::{penalty, PenaltyTerms, Snapshot, WORST_PENALTY};

fn stats(playing_players: u64, system_load: f64, frames: Option<StatsFrames>) -> Stats {
    Stats {
        op: Opcode::Stats,
        players: playing_players,
        playing_players,
        uptime: 1,
        memory: StatsMemory { allocated: 0, free: 0, reservable: 0, used: 0 },
        cpu: StatsCpu {
            cores: 4,
            lavalink_load: Real::from_bits(0f64.to_bits()),
            system_load: Real::from_bits(system_load.to_bits()),
        },
        frames,
    }
}

fn terms_of(stats: &Stats) -> PenaltyTerms {
    let load = f64::from_bits(stats.cpu.system_load.to_bits());
    let cpu = 1.05f64.powf(100.0 * load) * 10.0 - 10.0;
    let deficit = stats.frames.as_ref().map_or(0, |f| f.deficit) as f64;
    let nulled = stats.frames.as_ref().map_or(0, |f| f.nulled) as f64;
    let deficit = 1.03f64.powf(500.0 * (deficit / 3000.0)) * 300.0 - 300.0;
    let nulled = (1.03f64.powf(500.0 * (nulled / 3000.0)) * 300.0 - 300.0) * 2.0;
    PenaltyTerms { cpu: cpu as i32, deficit: deficit as i32, nulled: nulled as i32 }
}

fn snapshot(playing_players: u64, system_load: f64, frames: Option<StatsFrames>) -> Snapshot {
    let stats = stats(playing_players, system_load, frames);
    Snapshot { stats, terms: terms_of(&stats) }
}

#[test]
fn penalty_without_statistics_is_the_worst() {
    assert_eq!(penalty(&None), i32::MAX);
    assert_eq!(WORST_PENALTY, i32::MAX);
}

#[test]
fn penalty_of_an_idle_node_is_zero() {
    assert_eq!(penalty(&Some(snapshot(0, 0.0, None))), 0);
}

#[test]
fn penalty_adds_players_and_cpu_term() {
    // 10 * 1.05^10 - 10 = 6.28..., rounded down to 6.
    assert_eq!(penalty(&Some(snapshot(0, 0.1, None))), 6);
    assert_eq!(penalty(&Some(snapshot(5, 0.1, None))), 11);
}

#[test]
fn penalty_adds_frame_terms() {
    // 300 * 1.03^(500 * 60 / 3000) - 300 = 103.17..., and twice that for
    // nulled frames: 206.35...
    let frames = StatsFrames { sent: 3000, nulled: 60, deficit: 60 };
    assert_eq!(penalty(&Some(snapshot(2, 0.0, Some(frames)))), 2 + 103 + 206);
}

#[test]
fn penalty_ignores_frame_terms_without_frame_statistics() {
    let stats = stats(3, 0.0, None);
    let terms = PenaltyTerms { cpu: 4, deficit: 100, nulled: 200 };
    assert_eq!(penalty(&Some(Snapshot { stats, terms })), 7);
}

#[test]
fn penalty_counts_given_terms_with_frame_statistics() {
    let stats = stats(3, 0.0, Some(StatsFrames { sent: 1, nulled: 1, deficit: 1 }));
    let terms = PenaltyTerms { cpu: 4, deficit: 100, nulled: 200 };
    assert_eq!(penalty(&Some(Snapshot { stats, terms })), 307);
}

#[test]
fn penalty_saturates_at_the_bounds() {
    let frames = Some(StatsFrames { sent: 0, nulled: 0, deficit: 0 });
    let high = Snapshot {
        stats: stats(u64::MAX, 0.0, frames.clone()),
        terms: PenaltyTerms { cpu: i32::MAX, deficit: i32::MAX, nulled: i32::MAX },
    };
    assert_eq!(penalty(&Some(high)), i32::MAX);
    let low = Snapshot {
        stats: stats(0, 0.0, frames),
        terms: PenaltyTerms { cpu: i32::MIN, deficit: i32::MIN, nulled: -1 },
    };
    assert_eq!(penalty(&Some(low)), i32::MIN);
}

#[test]
fn penalty_is_deterministic() {
    let s = snapshot(7, 0.42, Some(StatsFrames { sent: 3000, nulled: 3, deficit: 9 }));
    assert_eq!(penalty(&Some(s)), penalty(&Some(s)));
}

#[test]
fn penalty_never_falls_with_more_players() {
    let mut last = i32::MIN;
    for players in [0u64, 1, 2, 10, 1000, u64::MAX] {
        let p = penalty(&Some(snapshot(players, 0.3, None)));
        assert!(p >= last);
        last = p;
    }
}

#[test]
fn penalty_never_falls_with_more_cpu_load() {
    let mut last = i32::MIN;
    for load in [0.0f64, 0.1, 0.25, 0.5, 0.9, 1.0] {
        let p = penalty(&Some(snapshot(4, load, None)));
        assert!(p >= last);
        last = p;
    }
}

#[test]
fn penalty_never_falls_with_more_deficit_or_nulled_frames() {
    let mut last = i32::MIN;
    for n in [0u64, 1, 10, 60, 300, 3000] {
        let frames = StatsFrames { sent: 3000, nulled: 5, deficit: n };
        let p = penalty(&Some(snapshot(4, 0.2, Some(frames))));
        assert!(p >= last);
        last = p;
    }
    let mut last = i32::MIN;
    for n in [0u64, 1, 10, 60, 300, 3000] {
        let frames = StatsFrames { sent: 3000, nulled: n, deficit: 5 };
        let p = penalty(&Some(snapshot(4, 0.2, Some(frames))));
        assert!(p >= last);
        last = p;
    }
}
