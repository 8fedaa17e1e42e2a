use cod_keeper::error::Error;
use cod_keeper::map::{GunfightMap, MapStats, MAP_COUNT};
use cod_keeper::record::{CalendarDay, GamePlayed, LocalDateTime};
use cod_keeper::stats::{Stats, StatsGroup};

fn at(year: i32, month: u32, day: u32, hour: u32, minute: u32, second: u32) -> LocalDateTime {
    LocalDateTime { year, month, day, hour, minute, second }
}

fn game(did_win: bool, map: GunfightMap, date_time: LocalDateTime) -> GamePlayed {
    GamePlayed { did_win, map, date_time }
}

fn table(entries: &[(GunfightMap, MapStats)]) -> Vec<Option<MapStats>> {
    let mut slots = vec![None; MAP_COUNT];
    for (map, stats) in entries {
        slots[map.index()] = Some(*stats);
    }
    slots
}

#[test]
fn test_stats_empty() -> Result<(), Error> {
    let mut games: Vec<GamePlayed> = Vec::new();

    assert_eq!(
        Stats::new(&mut games, at(2023, 10, 1, 12, 0, 0))?,
        Stats {
            lifet: StatsGroup { wins: 0, losses: 0, high_win_streak: 0, high_loss_streak: 0, win_streak: 0, loss_streak: 0, last_was_win: true, map_stats: table(&[]) },
            today: StatsGroup { wins: 0, losses: 0, high_win_streak: 0, high_loss_streak: 0, win_streak: 0, loss_streak: 0, last_was_win: true, map_stats: table(&[]) },
        },
    );
    Ok(())
}

#[test]
fn test_stats_all_one_not_today() -> Result<(), Error> {
    let mut games: Vec<GamePlayed> = vec![
        game(false, GunfightMap::Asile9, at(2023, 9, 26, 0, 0, 1)),
        game(true, GunfightMap::Asile9, at(2023, 9, 26, 0, 0, 2)),
    ];
    let maps_lifet = table(&[(GunfightMap::Asile9, MapStats { wins: 1, losses: 1 })]);
    let maps_today = table(&[]);

    assert_eq!(
        Stats::new(&mut games, at(2023, 9, 29, 0, 0, 0))?,
        Stats {
            lifet: StatsGroup { wins: 1, losses: 1, high_win_streak: 1, high_loss_streak: 1, win_streak: 1, loss_streak: 0, last_was_win: true, map_stats: maps_lifet },
            today: StatsGroup { wins: 0, losses: 0, high_win_streak: 0, high_loss_streak: 0, win_streak: 0, loss_streak: 0, last_was_win: true, map_stats: maps_today },
        },
    );
    Ok(())
}

#[test]
fn test_stats_add_win() -> Result<(), Error> {
    let mut games: Vec<GamePlayed> = vec![
        game(false, GunfightMap::Asile9, at(2023, 9, 26, 0, 0, 1)),
        game(true, GunfightMap::Asile9, at(2023, 9, 26, 0, 0, 2)),
    ];
    let maps_lifet = table(&[
        (GunfightMap::Asile9, MapStats { wins: 2, losses: 1 }),
        (GunfightMap::Docks, MapStats { wins: 1, losses: 0 }),
    ]);
    let maps_today = table(&[]);
    let today = CalendarDay { year: 2023, month: 9, day: 29 };

    let mut stats = Stats::new(&mut games, at(2023, 9, 29, 0, 0, 0))?;
    stats.add_win(&game(true, GunfightMap::Asile9, at(2023, 9, 26, 0, 0, 3)), &today)?;
    stats.add_win(&game(true, GunfightMap::Docks, at(2023, 9, 26, 0, 0, 4)), &today)?;

    assert_eq!(
        stats,
        Stats {
            lifet: StatsGroup { wins: 3, losses: 1, high_win_streak: 3, high_loss_streak: 1, win_streak: 3, loss_streak: 0, last_was_win: true, map_stats: maps_lifet },
            today: StatsGroup { wins: 0, losses: 0, high_win_streak: 0, high_loss_streak: 0, win_streak: 0, loss_streak: 0, last_was_win: true, map_stats: maps_today },
        },
    );
    Ok(())
}

#[test]
fn test_stats_add_loss() -> Result<(), Error> {
    let mut games: Vec<GamePlayed> = vec![
        game(false, GunfightMap::Asile9, at(2023, 9, 26, 0, 0, 1)),
        game(true, GunfightMap::Asile9, at(2023, 9, 26, 0, 0, 2)),
        game(true, GunfightMap::Asile9, at(2023, 9, 26, 0, 0, 3)),
    ];
    let maps_lifet = table(&[
        (GunfightMap::Asile9, MapStats { wins: 2, losses: 2 }),
        (GunfightMap::Docks, MapStats { wins: 0, losses: 1 }),
    ]);
    let maps_today = table(&[]);
    let today = CalendarDay { year: 2023, month: 9, day: 29 };

    let mut stats = Stats::new(&mut games, at(2023, 9, 29, 0, 0, 0))?;
    stats.add_loss(&game(false, GunfightMap::Asile9, at(2023, 9, 26, 0, 0, 4)), &today)?;
    stats.add_loss(&game(false, GunfightMap::Docks, at(2023, 9, 26, 0, 0, 5)), &today)?;

    assert_eq!(
        stats,
        Stats {
            lifet: StatsGroup { wins: 2, losses: 3, high_win_streak: 2, high_loss_streak: 2, win_streak: 0, loss_streak: 2, last_was_win: false, map_stats: maps_lifet },
            today: StatsGroup { wins: 0, losses: 0, high_win_streak: 0, high_loss_streak: 0, win_streak: 0, loss_streak: 0, last_was_win: true, map_stats: maps_today },
        },
    );
    Ok(())
}

#[test]
fn test_stats_curr_streak_across_days() -> Result<(), Error> {
    let mut games: Vec<GamePlayed> = vec![
        game(false, GunfightMap::Asile9, at(2023, 9, 26, 0, 0, 1)),
        game(true, GunfightMap::Asile9, at(2023, 9, 26, 0, 0, 2)),
        game(true, GunfightMap::Asile9, at(2023, 9, 26, 0, 0, 3)),
        // New day
        game(true, GunfightMap::Asile9, at(2023, 9, 27, 0, 0, 2)),
        game(true, GunfightMap::Asile9, at(2023, 9, 27, 0, 0, 3)),
    ];
    let maps_lifet = table(&[
        (GunfightMap::Asile9, MapStats { wins: 5, losses: 1 }),
        (GunfightMap::Docks, MapStats { wins: 0, losses: 1 }),
    ]);
    let maps_today = table(&[]);
    let today = CalendarDay { year: 2023, month: 9, day: 29 };

    let mut stats = Stats::new(&mut games, at(2023, 9, 29, 0, 0, 0))?;
    stats.add_win(&game(true, GunfightMap::Asile9, at(2023, 9, 27, 0, 0, 4)), &today)?;
    stats.add_loss(&game(false, GunfightMap::Docks, at(2023, 9, 27, 0, 0, 5)), &today)?;

    assert_eq!(
        stats,
        Stats {
            lifet: StatsGroup { wins: 5, losses: 2, high_win_streak: 5, high_loss_streak: 1, win_streak: 0, loss_streak: 1, last_was_win: false, map_stats: maps_lifet },
            today: StatsGroup { wins: 0, losses: 0, high_win_streak: 0, high_loss_streak: 0, win_streak: 0, loss_streak: 0, last_was_win: true, map_stats: maps_today },
        },
    );
    Ok(())
}

#[test]
fn test_stats_all_one_today() -> Result<(), Error> {
    let mut games: Vec<GamePlayed> = vec![
        game(false, GunfightMap::Asile9, at(2023, 9, 26, 0, 0, 1)),
        game(true, GunfightMap::Asile9, at(2023, 9, 26, 0, 0, 2)),
        game(true, GunfightMap::Asile9, at(2023, 9, 26, 0, 0, 3)),
        game(false, GunfightMap::Asile9, at(2023, 9, 26, 0, 0, 4)),
        game(false, GunfightMap::Asile9, at(2023, 9, 26, 0, 0, 5)),
        game(true, GunfightMap::Asile9, at(2023, 9, 26, 0, 0, 6)),
        game(true, GunfightMap::Asile9, at(2023, 9, 26, 0, 0, 7)),
        game(true, GunfightMap::Asile9, at(2023, 9, 26, 0, 0, 8)),
        game(true, GunfightMap::Asile9, at(2023, 9, 26, 0, 0, 9)),
        game(false, GunfightMap::Asile9, at(2023, 9, 26, 0, 0, 10)),
        game(true, GunfightMap::Asile9, at(2023, 9, 26, 0, 0, 11)),
        game(true, GunfightMap::Asile9, at(2023, 9, 26, 0, 0, 12)),
        game(true, GunfightMap::Asile9, at(2023, 9, 26, 0, 0, 13)),
        // Different day to test multiday
        game(true, GunfightMap::Asile9, at(2023, 9, 28, 0, 0, 1)),
        game(true, GunfightMap::Asile9, at(2023, 9, 28, 0, 0, 2)),
        game(true, GunfightMap::Asile9, at(2023, 9, 28, 0, 0, 3)),
        game(false, GunfightMap::Asile9, at(2023, 9, 28, 0, 0, 4)),
        game(true, GunfightMap::Asile9, at(2023, 9, 28, 0, 0, 5)),
        game(true, GunfightMap::Asile9, at(2023, 9, 28, 0, 0, 6)),
        game(false, GunfightMap::Asile9, at(2023, 9, 28, 0, 0, 7)),
        game(false, GunfightMap::Asile9, at(2023, 9, 28, 0, 0, 8)),
        game(true, GunfightMap::Asile9, at(2023, 9, 28, 0, 0, 9)),
        game(true, GunfightMap::Asile9, at(2023, 9, 28, 0, 0, 10)),
        game(true, GunfightMap::Asile9, at(2023, 9, 28, 0, 0, 11)),
        game(true, GunfightMap::Asile9, at(2023, 9, 28, 0, 0, 12)),
        game(false, GunfightMap::Asile9, at(2023, 9, 28, 0, 0, 13)),
    ];
    let maps_lifet = table(&[(GunfightMap::Asile9, MapStats { wins: 18, losses: 8 })]);
    let maps_today = table(&[(GunfightMap::Asile9, MapStats { wins: 9, losses: 4 })]);

    assert_eq!(
        Stats::new(&mut games, at(2023, 9, 28, 0, 0, 0))?,
        Stats {
            lifet: StatsGroup { wins: 18, losses: 8, high_win_streak: 6, high_loss_streak: 2, win_streak: 0, loss_streak: 1, last_was_win: false, map_stats: maps_lifet },
            today: StatsGroup { wins: 9, losses: 4, high_win_streak: 4, high_loss_streak: 2, win_streak: 0, loss_streak: 1, last_was_win: false, map_stats: maps_today },
        },
    );
    Ok(())
}

#[test]
fn test_stats_get_map() -> Result<(), Error> {
    let mut games: Vec<GamePlayed> = vec![
        game(false, GunfightMap::Asile9, at(2023, 9, 26, 0, 0, 1)),
        game(false, GunfightMap::Asile9, at(2023, 9, 26, 0, 0, 2)),
        game(true, GunfightMap::Asile9, at(2023, 9, 27, 0, 0, 2)),
        game(true, GunfightMap::Hill, at(2023, 9, 28, 0, 0, 3)),
        game(false, GunfightMap::GulagShowers, at(2023, 9, 28, 0, 0, 4)),
    ];

    assert_eq!(
        Stats::new(&mut games, at(2023, 9, 28, 0, 0, 0))?.lifet.get_map_stats(&GunfightMap::Asile9),
        Some(&MapStats { losses: 2, wins: 1 }),
    );
    assert_eq!(
        Stats::new(&mut games, at(2023, 9, 28, 0, 0, 0))?.lifet.get_map_stats(&GunfightMap::Hill),
        Some(&MapStats { losses: 0, wins: 1 }),
    );
    assert_eq!(
        Stats::new(&mut games, at(2023, 9, 28, 0, 0, 0))?.lifet.get_map_stats(&GunfightMap::GulagShowers),
        Some(&MapStats { losses: 1, wins: 0 }),
    );
    Ok(())
}
