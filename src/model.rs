use vstd::prelude::*;

use crate::map::{lemma_map_at, lemma_map_index, map_at, map_index, GunfightMap, MAP_COUNT};
use crate::record::{CalendarDay, GamePlayed};

verus! {

/// What one map has seen in one scope, as numbers.
pub struct MapTally {
    pub wins: nat,
    pub losses: nat,
}

/// One scope's aggregate, as numbers.
#[verifier::ext_equal]
pub struct GroupView {
    pub wins: nat,
    pub losses: nat,
    pub high_win_streak: nat,
    pub high_loss_streak: nat,
    pub win_streak: nat,
    pub loss_streak: nat,
    pub last_was_win: bool,
    pub map_stats: Map<GunfightMap, MapTally>,
}

/// Both scopes' aggregates, as numbers.
#[verifier::ext_equal]
pub struct StatsView {
    pub lifet: GroupView,
    pub today: GroupView,
}

pub open spec fn larger(a: nat, b: nat) -> nat {
    if a >= b {
        a
    } else {
        b
    }
}

/// A scope that has seen no game.
pub open spec fn empty_group() -> GroupView {
    GroupView {
        wins: 0,
        losses: 0,
        high_win_streak: 0,
        high_loss_streak: 0,
        win_streak: 0,
        loss_streak: 0,
        last_was_win: true,
        map_stats: Map::empty(),
    }
}

/// The tally of a map, zero where the map has no entry.
pub open spec fn tally_of(maps: Map<GunfightMap, MapTally>, m: GunfightMap) -> MapTally {
    if maps.contains_key(m) {
        maps[m]
    } else {
        MapTally { wins: 0, losses: 0 }
    }
}

/// A scope after one more game on `map`, won or lost.
pub open spec fn group_after(g: GroupView, map: GunfightMap, won: bool) -> GroupView {
    let t = tally_of(g.map_stats, map);
    if won {
        GroupView {
            wins: g.wins + 1,
            losses: g.losses,
            high_win_streak: larger(g.high_win_streak, g.win_streak + 1),
            high_loss_streak: larger(g.high_loss_streak, g.loss_streak),
            win_streak: g.win_streak + 1,
            loss_streak: 0,
            last_was_win: true,
            map_stats: g.map_stats.insert(map, MapTally { wins: t.wins + 1, losses: t.losses }),
        }
    } else {
        GroupView {
            wins: g.wins,
            losses: g.losses + 1,
            high_win_streak: larger(g.high_win_streak, g.win_streak),
            high_loss_streak: larger(g.high_loss_streak, g.loss_streak + 1),
            win_streak: 0,
            loss_streak: g.loss_streak + 1,
            last_was_win: false,
            map_stats: g.map_stats.insert(map, MapTally { wins: t.wins, losses: t.losses + 1 }),
        }
    }
}

/// A scope that has seen exactly `games`, in order.
pub open spec fn group_over(games: Seq<GamePlayed>) -> GroupView
    decreases games.len(),
{
    if games.len() == 0 {
        empty_group()
    } else {
        group_after(group_over(games.drop_last()), games.last().map, games.last().did_win)
    }
}

/// The games of a list that were played on `day`, in order.
pub open spec fn played_on(games: Seq<GamePlayed>, day: CalendarDay) -> Seq<GamePlayed> {
    games.filter(|g: GamePlayed| g.date_time.spec_calendar_day() == day)
}

/// Both scopes after one more game, where `today` is the day the engine counts as today.
pub open spec fn stats_after(s: StatsView, game: GamePlayed, won: bool, today: CalendarDay) -> StatsView {
    StatsView {
        lifet: group_after(s.lifet, game.map, won),
        today: if game.date_time.spec_calendar_day() == today {
            group_after(s.today, game.map, won)
        } else {
            s.today
        },
    }
}

/// Both scopes built from a record list: all of it for the lifetime, the games of `today` for today.
pub open spec fn stats_from(games: Seq<GamePlayed>, today: CalendarDay) -> StatsView {
    StatsView { lifet: group_over(games), today: group_over(played_on(games, today)) }
}

/// Both scopes after applying the games of a list one at a time, from empty ones.
pub open spec fn stats_folded(games: Seq<GamePlayed>, today: CalendarDay) -> StatsView
    decreases games.len(),
{
    if games.len() == 0 {
        StatsView { lifet: empty_group(), today: empty_group() }
    } else {
        stats_after(
            stats_folded(games.drop_last(), today),
            games.last(),
            games.last().did_win,
            today,
        )
    }
}

/// Wins (or losses) of a tally.
pub open spec fn tally_count(t: MapTally, wins: bool) -> nat {
    if wins {
        t.wins
    } else {
        t.losses
    }
}

/// Wins (or losses) summed over the maps at the first `n` positions.
pub open spec fn count_on_first_maps(maps: Map<GunfightMap, MapTally>, n: nat, wins: bool) -> nat
    decreases n,
{
    if n == 0 {
        0
    } else {
        count_on_first_maps(maps, (n - 1) as nat, wins) + tally_count(
            tally_of(maps, map_at(n - 1)),
            wins,
        )
    }
}

/// Wins summed over every map.
pub open spec fn map_wins_total(maps: Map<GunfightMap, MapTally>) -> nat {
    count_on_first_maps(maps, MAP_COUNT as nat, true)
}

/// Losses summed over every map.
pub open spec fn map_losses_total(maps: Map<GunfightMap, MapTally>) -> nat {
    count_on_first_maps(maps, MAP_COUNT as nat, false)
}

/// The totals agree with the per-map tallies.
pub open spec fn totals_match_maps(g: GroupView) -> bool {
    &&& g.wins == map_wins_total(g.map_stats)
    &&& g.losses == map_losses_total(g.map_stats)
}

/// The streaks are bounded by their high-water marks, and at most one of them runs.
pub open spec fn streaks_consistent(g: GroupView) -> bool {
    &&& g.win_streak <= g.high_win_streak
    &&& g.loss_streak <= g.high_loss_streak
    &&& g.win_streak == 0 || g.loss_streak == 0
}

/// Everything that holds of a scope built from games.
pub open spec fn group_consistent(g: GroupView) -> bool {
    &&& totals_match_maps(g)
    &&& streaks_consistent(g)
    &&& g.high_win_streak <= g.wins
    &&& g.high_loss_streak <= g.losses
    &&& g.last_was_win ==> g.loss_streak == 0
    &&& !g.last_was_win ==> g.win_streak == 0
}

/// Setting one map's tally moves a per-map sum by the change of that tally.
pub proof fn lemma_count_insert(
    maps: Map<GunfightMap, MapTally>,
    k: GunfightMap,
    t: MapTally,
    n: nat,
    wins: bool,
)
    requires
        n <= MAP_COUNT,
    ensures
        count_on_first_maps(maps.insert(k, t), n, wins) == count_on_first_maps(maps, n, wins) + (
        if map_index(k) < n {
            tally_count(t, wins) - tally_count(tally_of(maps, k), wins)
        } else {
            0
        }),
    decreases n,
{
    if n > 0 {
        lemma_count_insert(maps, k, t, (n - 1) as nat, wins);
        lemma_map_at(n - 1);
        lemma_map_index(k);
    }
}

/// One map's tally is part of the per-map sum.
pub proof fn lemma_count_bound(maps: Map<GunfightMap, MapTally>, k: GunfightMap, n: nat, wins: bool)
    requires
        n <= MAP_COUNT,
        map_index(k) < n,
    ensures
        tally_count(tally_of(maps, k), wins) <= count_on_first_maps(maps, n, wins),
    decreases n,
{
    lemma_map_index(k);
    if map_index(k) < n - 1 {
        lemma_count_bound(maps, k, (n - 1) as nat, wins);
    }
}

/// A map with no entries sums to zero.
pub proof fn lemma_count_empty(n: nat, wins: bool)
    ensures
        count_on_first_maps(Map::empty(), n, wins) == 0,
    decreases n,
{
    if n > 0 {
        lemma_count_empty((n - 1) as nat, wins);
    }
}

/// A scope with no games is consistent.
pub proof fn lemma_empty_consistent()
    ensures
        group_consistent(empty_group()),
{
    lemma_count_empty(MAP_COUNT as nat, true);
    lemma_count_empty(MAP_COUNT as nat, false);
}

/// One more game keeps a scope consistent.
pub proof fn lemma_after_consistent(g: GroupView, map: GunfightMap, won: bool)
    requires
        group_consistent(g),
    ensures
        group_consistent(group_after(g, map, won)),
{
    let t = tally_of(g.map_stats, map);
    let nt = if won {
        MapTally { wins: t.wins + 1, losses: t.losses }
    } else {
        MapTally { wins: t.wins, losses: t.losses + 1 }
    };
    lemma_map_index(map);
    lemma_count_insert(g.map_stats, map, nt, MAP_COUNT as nat, true);
    lemma_count_insert(g.map_stats, map, nt, MAP_COUNT as nat, false);
}

/// A scope built from games is consistent.
pub proof fn lemma_group_over_consistent(games: Seq<GamePlayed>)
    ensures
        group_consistent(group_over(games)),
    decreases games.len(),
{
    if games.len() == 0 {
        lemma_empty_consistent();
    } else {
        lemma_group_over_consistent(games.drop_last());
        lemma_after_consistent(
            group_over(games.drop_last()),
            games.last().map,
            games.last().did_win,
        );
    }
}

/// Building from a list with one more game is applying that game to what the list built.
pub proof fn lemma_stats_from_push(games: Seq<GamePlayed>, game: GamePlayed, today: CalendarDay)
    ensures
        stats_from(games.push(game), today) == stats_after(
            stats_from(games, today),
            game,
            game.did_win,
            today,
        ),
{
    let pred = |g: GamePlayed| g.date_time.spec_calendar_day() == today;
    assert(games.push(game).drop_last() =~= games);
    games.lemma_filter_push(game, pred);
    if pred(game) {
        assert(played_on(games, today).push(game).drop_last() =~= played_on(games, today));
    }
}

} // verus!
