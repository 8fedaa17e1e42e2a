use vstd::prelude::*;

use crate::map::{lemma_map_at, map_at, MAP_COUNT};
use crate::model::{
    group_after, lemma_group_over_consistent, lemma_stats_from_push, stats_after, stats_folded,
    stats_from, streaks_consistent, totals_match_maps, StatsView,
};
use crate::record::{CalendarDay, GamePlayed};
use crate::stats::{Stats, StatsGroup};

verus! {

/// In both scopes built from any record list, the total wins equal the per-map wins summed
/// over all maps, and likewise for losses.
pub proof fn law_totals_match_maps(games: Seq<GamePlayed>, today: CalendarDay)
    ensures
        totals_match_maps(stats_from(games, today).lifet),
        totals_match_maps(stats_from(games, today).today),
{
    lemma_group_over_consistent(games);
    lemma_group_over_consistent(crate::model::played_on(games, today));
}

/// Every well-formed scope, and so every one the engine builds or updates, has totals that
/// equal its per-map sums.
pub proof fn law_group_totals_match_maps(g: StatsGroup)
    requires
        g.wf(),
    ensures
        totals_match_maps(g@),
{
}

/// In both scopes built from any record list, each streak is at most its high-water mark,
/// and at most one of the two streaks is nonzero.
pub proof fn law_streaks_consistent(games: Seq<GamePlayed>, today: CalendarDay)
    ensures
        streaks_consistent(stats_from(games, today).lifet),
        streaks_consistent(stats_from(games, today).today),
{
    lemma_group_over_consistent(games);
    lemma_group_over_consistent(crate::model::played_on(games, today));
}

/// Every well-formed scope has streaks bounded by their high-water marks, at most one of
/// them running.
pub proof fn law_group_streaks_consistent(g: StatsGroup)
    requires
        g.wf(),
    ensures
        streaks_consistent(g@),
{
}

/// Two well-formed scopes with the same aggregate agree field by field, slot by slot.
pub proof fn law_same_view_same_fields(a: StatsGroup, b: StatsGroup)
    requires
        a.wf(),
        b.wf(),
        a@ == b@,
    ensures
        a.wins == b.wins,
        a.losses == b.losses,
        a.high_win_streak == b.high_win_streak,
        a.high_loss_streak == b.high_loss_streak,
        a.win_streak == b.win_streak,
        a.loss_streak == b.loss_streak,
        a.last_was_win == b.last_was_win,
        a.map_stats@ == b.map_stats@,
{
    assert forall|j: int| 0 <= j < MAP_COUNT implies a.map_stats@[j] == b.map_stats@[j] by {
        lemma_map_at(j);
        let m = map_at(j);
        assert(a@.map_stats.contains_key(m) == b@.map_stats.contains_key(m));
        if a@.map_stats.contains_key(m) {
            assert(a@.map_stats[m] == b@.map_stats[m]);
        }
    }
    assert(a.map_stats@ =~= b.map_stats@);
}

/// Building from one record list and one reference day twice gives the same aggregates,
/// down to every field and map slot.
pub proof fn law_construction_deterministic(
    games: Seq<GamePlayed>,
    today: CalendarDay,
    a: Stats,
    b: Stats,
)
    requires
        a.wf(),
        b.wf(),
        a@ == stats_from(games, today),
        b@ == stats_from(games, today),
    ensures
        a@ == b@,
        a.lifet.map_stats@ == b.lifet.map_stats@,
        a.today.map_stats@ == b.today.map_stats@,
{
    law_same_view_same_fields(a.lifet, b.lifet);
    law_same_view_same_fields(a.today, b.today);
}

/// Applying the records one at a time, in order and with one reference day, gives what
/// building from the whole list gives.
pub proof fn law_incremental_matches_batch(games: Seq<GamePlayed>, today: CalendarDay)
    ensures
        stats_folded(games, today) == stats_from(games, today),
    decreases games.len(),
{
    if games.len() == 0 {
        assert(crate::model::played_on(games, today) =~= games) by {
            reveal(Seq::filter);
        }
    } else {
        let init = games.drop_last();
        law_incremental_matches_batch(init, today);
        lemma_stats_from_push(init, games.last(), today);
        assert(init.push(games.last()) =~= games);
    }
}

/// A game of another day than the reference day leaves today's scope as it was, and always
/// counts once more in the lifetime scope; also when the list is built at once.
pub proof fn law_other_day_only_lifetime(
    s: StatsView,
    games: Seq<GamePlayed>,
    game: GamePlayed,
    won: bool,
    today: CalendarDay,
)
    requires
        game.date_time.spec_calendar_day() != today,
    ensures
        stats_after(s, game, won, today).today == s.today,
        stats_after(s, game, won, today).lifet == group_after(s.lifet, game.map, won),
        stats_after(s, game, won, today).lifet.wins + stats_after(s, game, won, today).lifet.losses
            == s.lifet.wins + s.lifet.losses + 1,
        stats_from(games.push(game), today).today == stats_from(games, today).today,
{
    lemma_stats_from_push(games, game, today);
}

} // verus!
