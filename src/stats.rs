use vstd::prelude::*;

use crate::error::Error;
use crate::map::{
    lemma_map_index, lemma_rate_total, lemma_rate_transitive, map_at, map_index, rate_at_least,
    GunfightMap, MapStats, MAP_COUNT,
};
use crate::model::{
    empty_group, group_after, group_consistent, lemma_after_consistent, lemma_count_bound,
    lemma_empty_consistent, lemma_stats_from_push, played_on, stats_after, stats_from, tally_of,
    GroupView, MapTally, StatsView,
};
use crate::record::{CalendarDay, GamePlayed, LocalDateTime};

verus! {

/// One scope's aggregate: totals, streaks, high-water marks and a per-map breakdown.
///
/// `map_stats` holds one slot per map, at the map's position in declaration order;
/// a slot is `None` until a game on that map is counted.
#[derive(Debug, PartialEq, Eq)]
pub struct StatsGroup {
    pub wins: usize,
    pub losses: usize,
    pub high_win_streak: usize,
    pub high_loss_streak: usize,
    pub win_streak: usize,
    pub loss_streak: usize,
    pub last_was_win: bool,
    pub map_stats: Vec<Option<MapStats>>,
}

/// The tallies that a table of map slots holds.
pub open spec fn table_view(t: Seq<Option<MapStats>>) -> Map<GunfightMap, MapTally> {
    Map::new(
        |m: GunfightMap| t[map_index(m) as int] is Some,
        |m: GunfightMap|
            MapTally {
                wins: t[map_index(m) as int]->0.wins as nat,
                losses: t[map_index(m) as int]->0.losses as nat,
            },
    )
}

/// The filled slots among the first `n`, as (map, entry) pairs in slot order.
pub open spec fn entries_upto(t: Seq<Option<MapStats>>, n: nat) -> Seq<(GunfightMap, MapStats)>
    decreases n,
{
    if n == 0 {
        Seq::empty()
    } else {
        let prev = entries_upto(t, (n - 1) as nat);
        match t[n - 1] {
            Some(s) => prev.push((map_at(n - 1), s)),
            None => prev,
        }
    }
}

/// Entries ordered from the highest win percentage down.
pub open spec fn by_rate_descending(s: Seq<(GunfightMap, MapStats)>) -> bool {
    forall|i: int, j: int| 0 <= i < j < s.len() ==> rate_at_least(#[trigger] s[i].1, #[trigger] s[j].1)
}

/// Inserting an element into a sequence adds it to the multiset of its elements.
proof fn lemma_insert_to_multiset<A>(s: Seq<A>, p: int, e: A)
    requires
        0 <= p <= s.len(),
    ensures
        s.insert(p, e).to_multiset() =~= s.to_multiset().insert(e),
{
    broadcast use vstd::seq_lib::group_to_multiset_ensures;

    let t = s.insert(p, e);
    s.insert_ensures(p, e);
    assert(t.remove(p) =~= s);
    assert(t.contains(e)) by {
        assert(t[p] == e);
    }
}

impl View for StatsGroup {
    type V = GroupView;

    open spec fn view(&self) -> GroupView {
        GroupView {
            wins: self.wins as nat,
            losses: self.losses as nat,
            high_win_streak: self.high_win_streak as nat,
            high_loss_streak: self.high_loss_streak as nat,
            win_streak: self.win_streak as nat,
            loss_streak: self.loss_streak as nat,
            last_was_win: self.last_was_win,
            map_stats: table_view(self.map_stats@),
        }
    }
}

impl StatsGroup {
    /// One slot per map, and an aggregate that games could have produced.
    pub open spec fn wf(&self) -> bool {
        &&& self.map_stats@.len() == MAP_COUNT
        &&& group_consistent(self@)
    }

    /// A scope that has seen no game.
    pub fn empty() -> (r: StatsGroup)
        ensures
            r.wf(),
            r@ == empty_group(),
    {
        let mut map_stats: Vec<Option<MapStats>> = Vec::new();
        let mut i: usize = 0;
        while i < MAP_COUNT
            invariant
                i <= MAP_COUNT,
                map_stats@.len() == i,
                forall|j: int| 0 <= j < i ==> map_stats@[j] is None,
            decreases MAP_COUNT - i,
        {
            map_stats.push(None);
            i = i + 1;
        }
        let r = StatsGroup {
            wins: 0,
            losses: 0,
            high_win_streak: 0,
            high_loss_streak: 0,
            win_streak: 0,
            loss_streak: 0,
            last_was_win: true,
            map_stats,
        };
        proof {
            assert forall|m: GunfightMap| !#[trigger] r@.map_stats.contains_key(m) by {
                lemma_map_index(m);
            }
            assert(r@.map_stats =~= Map::empty());
            assert(r@ =~= empty_group());
            lemma_empty_consistent();
        }
        r
    }

    /// Counts one more game on `map`, won or lost.
    fn record(&mut self, map: GunfightMap, won: bool)
        requires
            old(self).wf(),
            old(self).wins + old(self).losses < usize::MAX,
        ensures
            final(self).wf(),
            final(self)@ == group_after(old(self)@, map, won),
    {
        let ghost g = self@;
        let i = map.index();
        proof {
            lemma_map_index(map);
            lemma_count_bound(g.map_stats, map, MAP_COUNT as nat, true);
            lemma_count_bound(g.map_stats, map, MAP_COUNT as nat, false);
        }
        let updated = match self.map_stats[i] {
            Some(s) => if won {
                MapStats { wins: s.wins + 1, losses: s.losses }
            } else {
                MapStats { wins: s.wins, losses: s.losses + 1 }
            },
            None => if won {
                MapStats { wins: 1, losses: 0 }
            } else {
                MapStats { wins: 0, losses: 1 }
            },
        };
        self.map_stats.set(i, Some(updated));
        if won {
            self.wins = self.wins + 1;
            self.last_was_win = true;
            self.win_streak = self.win_streak + 1;
            if self.high_win_streak < self.win_streak {
                self.high_win_streak = self.win_streak;
            }
            if self.high_loss_streak < self.loss_streak {
                self.high_loss_streak = self.loss_streak;
            }
            self.loss_streak = 0;
        } else {
            self.losses = self.losses + 1;
            self.last_was_win = false;
            self.loss_streak = self.loss_streak + 1;
            if self.high_loss_streak < self.loss_streak {
                self.high_loss_streak = self.loss_streak;
            }
            if self.high_win_streak < self.win_streak {
                self.high_win_streak = self.win_streak;
            }
            self.win_streak = 0;
        }
        proof {
            let t = tally_of(g.map_stats, map);
            let nt = if won {
                MapTally { wins: t.wins + 1, losses: t.losses }
            } else {
                MapTally { wins: t.wins, losses: t.losses + 1 }
            };
            assert forall|m: GunfightMap|
                #[trigger] self@.map_stats.contains_key(m) == g.map_stats.insert(
                    map,
                    nt,
                ).contains_key(m) && (self@.map_stats.contains_key(m) ==> self@.map_stats[m]
                    == g.map_stats.insert(map, nt)[m]) by {
                lemma_map_index(m);
                crate::map::lemma_map_index_injective(m, map);
            }
            assert(self@.map_stats =~= g.map_stats.insert(map, nt));
            assert(self@ =~= group_after(g, map, won));
            lemma_after_consistent(g, map, won);
        }
    }

    /// The per-map entries of this scope, in declaration order of the maps.
    pub open spec fn map_entries(&self) -> Seq<(GunfightMap, MapStats)> {
        entries_upto(self.map_stats@, MAP_COUNT as nat)
    }

    /// All per-map entries of this scope, in declaration order of the maps.
    pub fn get_all_map_stats(&self) -> (r: Vec<(GunfightMap, MapStats)>)
        requires
            self.wf(),
        ensures
            r@ == self.map_entries(),
            r@.map_values(|e: (GunfightMap, MapStats)| e.0) == crate::map::all_maps().filter(
                |m: GunfightMap| self@.map_stats.contains_key(m),
            ),
            forall|i: int|
                0 <= i < r@.len() ==> self@.map_stats[#[trigger] r@[i].0] == (MapTally {
                    wins: r@[i].1.wins as nat,
                    losses: r@[i].1.losses as nat,
                }),
    {
        let ghost pred = |m: GunfightMap| self@.map_stats.contains_key(m);
        let ghost all = crate::map::all_maps();
        let mut r: Vec<(GunfightMap, MapStats)> = Vec::new();
        let mut i: usize = 0;
        while i < MAP_COUNT
            invariant
                i <= MAP_COUNT,
                self.wf(),
                pred == (|m: GunfightMap| self@.map_stats.contains_key(m)),
                all == crate::map::all_maps(),
                r@ == entries_upto(self.map_stats@, i as nat),
                r@.map_values(|e: (GunfightMap, MapStats)| e.0) == all.take(i as int).filter(pred),
                forall|j: int|
                    0 <= j < r@.len() ==> self@.map_stats[#[trigger] r@[j].0] == (MapTally {
                        wins: r@[j].1.wins as nat,
                        losses: r@[j].1.losses as nat,
                    }),
            decreases MAP_COUNT - i,
        {
            let m = GunfightMap::from_index(i);
            proof {
                assert(all.take(i + 1) =~= all.take(i as int).push(m));
                all.take(i as int).lemma_filter_push(m, pred);
            }
            match self.map_stats[i] {
                Some(s) => {
                    let ghost before = r@;
                    r.push((m, s));
                    assert(r@.map_values(|e: (GunfightMap, MapStats)| e.0) =~= before.map_values(
                        |e: (GunfightMap, MapStats)| e.0,
                    ).push(m));
                },
                None => {},
            }
            i = i + 1;
        }
        assert(all.take(MAP_COUNT as int) =~= all);
        r
    }

    /// All per-map entries of this scope, from the highest win percentage down.
    pub fn map_stats_by_win_percentage(&self) -> (r: Vec<(GunfightMap, MapStats)>)
        requires
            self.wf(),
        ensures
            r@.to_multiset() == self.map_entries().to_multiset(),
            by_rate_descending(r@),
    {
        let entries = self.get_all_map_stats();
        let mut r: Vec<(GunfightMap, MapStats)> = Vec::new();
        let mut k: usize = 0;
        assert(entries@.take(0) =~= Seq::<(GunfightMap, MapStats)>::empty());
        while k < entries.len()
            invariant
                k <= entries@.len(),
                r@.to_multiset() == entries@.take(k as int).to_multiset(),
                by_rate_descending(r@),
            decreases entries@.len() - k,
        {
            let e = entries[k];
            let mut p: usize = 0;
            while p < r.len() && r[p].1.win_rate_at_least(&e.1)
                invariant
                    p <= r@.len(),
                    forall|i: int| 0 <= i < p ==> rate_at_least(#[trigger] r@[i].1, e.1),
                decreases r@.len() - p,
            {
                p = p + 1;
            }
            let ghost old_r = r@;
            proof {
                if p < old_r.len() {
                    lemma_rate_total(old_r[p as int].1, e.1);
                }
                assert forall|j: int| p <= j < old_r.len() implies rate_at_least(
                    e.1,
                    #[trigger] old_r[j].1,
                ) by {
                    if j > p {
                        lemma_rate_transitive(e.1, old_r[p as int].1, old_r[j].1);
                    }
                }
                old_r.insert_ensures(p as int, e);
                lemma_insert_to_multiset(old_r, p as int, e);
                assert(entries@.take(k + 1) =~= entries@.take(k as int).push(e));
            }
            r.insert(p, e);
            proof {
                entries@.take(k as int).to_multiset_ensures();
                assert(r@.to_multiset() =~= entries@.take(k + 1).to_multiset());
                assert forall|i: int, j: int| 0 <= i < j < r@.len() implies rate_at_least(
                    #[trigger] r@[i].1,
                    #[trigger] r@[j].1,
                ) by {
                    if j < p {
                        assert(r@[i] == old_r[i] && r@[j] == old_r[j]);
                    } else if j == p {
                        assert(r@[i] == old_r[i]);
                    } else if i < p {
                        assert(r@[i] == old_r[i] && r@[j] == old_r[j - 1]);
                    } else if i == p {
                        assert(r@[j] == old_r[j - 1]);
                    } else {
                        assert(r@[i] == old_r[i - 1] && r@[j] == old_r[j - 1]);
                    }
                }
            }
            k = k + 1;
        }
        assert(entries@.take(entries@.len() as int) =~= entries@);
        r
    }

    /// The entry of one map, if a game on it was counted in this scope.
    pub fn get_map_stats(&self, map: &GunfightMap) -> (r: Option<&MapStats>)
        requires
            self.wf(),
        ensures
            r is Some <==> self@.map_stats.contains_key(*map),
            r is Some ==> self@.map_stats[*map] == (MapTally {
                wins: r->0.wins as nat,
                losses: r->0.losses as nat,
            }),
    {
        self.map_stats[map.index()].as_ref()
    }
}

/// The two scopes of the engine: every game, and the games of one day.
#[derive(Debug, PartialEq, Eq)]
pub struct Stats {
    pub lifet: StatsGroup,
    pub today: StatsGroup,
}

impl View for Stats {
    type V = StatsView;

    open spec fn view(&self) -> StatsView {
        StatsView { lifet: self.lifet@, today: self.today@ }
    }
}

impl Stats {
    /// Both scopes well formed, today's holding no more games than the lifetime scope.
    pub open spec fn wf(&self) -> bool {
        &&& self.lifet.wf()
        &&& self.today.wf()
        &&& self.today.wins + self.today.losses <= self.lifet.wins + self.lifet.losses
    }

    /// Builds both scopes from a record list, counting as today the games on the day of `today`.
    ///
    /// The games are applied in list order. Failures would be gathered into one error;
    /// there are none.
    pub fn new(games: &mut [GamePlayed], today: LocalDateTime) -> (r: Result<Self, Error>)
        ensures
            final(games)@ == old(games)@,
            r is Ok,
            r matches Ok(stats) && stats.wf() && stats@ == stats_from(
                old(games)@,
                today.spec_calendar_day(),
            ),
    {
        let day = today.calendar_day();
        let mut stats = Stats { lifet: StatsGroup::empty(), today: StatsGroup::empty() };
        let mut errors: Vec<Error> = Vec::new();
        assert(games@.take(0) =~= Seq::<GamePlayed>::empty());
        assert(played_on(Seq::<GamePlayed>::empty(), day) =~= Seq::<GamePlayed>::empty()) by {
            reveal(Seq::filter);
        }
        let mut i: usize = 0;
        while i < games.len()
            invariant
                i <= games@.len(),
                games@ == old(games)@,
                day == today.spec_calendar_day(),
                stats.wf(),
                stats@ == stats_from(games@.take(i as int), day),
                stats.lifet.wins + stats.lifet.losses == i,
                errors@.len() == 0,
            decreases games@.len() - i,
        {
            let game = games[i];
            proof {
                assert(games@.take(i + 1) =~= games@.take(i as int).push(game));
                lemma_stats_from_push(games@.take(i as int), game, day);
            }
            match stats.add_game(&game, &day) {
                Ok(()) => {},
                Err(e) => {
                    errors.push(e);
                },
            }
            i = i + 1;
        }
        assert(games@.take(games@.len() as int) =~= games@);
        if errors.len() > 0 {
            return Err(Error::FailedCreatingStats(errors));
        }
        Ok(stats)
    }

    /// Counts `game` as a win: in the lifetime scope always, in today's only when it was
    /// played on `today`.
    pub fn add_win(&mut self, game: &GamePlayed, today: &CalendarDay) -> (r: Result<(), Error>)
        requires
            old(self).wf(),
            old(self).lifet.wins + old(self).lifet.losses < usize::MAX,
        ensures
            r is Ok,
            final(self).wf(),
            final(self)@ == stats_after(old(self)@, *game, true, *today),
    {
        if game.date_time.calendar_day() == *today {
            self.today.record(game.map, true);
        }
        self.lifet.record(game.map, true);
        Ok(())
    }

    /// Counts `game` as a loss: in the lifetime scope always, in today's only when it was
    /// played on `today`.
    pub fn add_loss(&mut self, game: &GamePlayed, today: &CalendarDay) -> (r: Result<(), Error>)
        requires
            old(self).wf(),
            old(self).lifet.wins + old(self).lifet.losses < usize::MAX,
        ensures
            r is Ok,
            final(self).wf(),
            final(self)@ == stats_after(old(self)@, *game, false, *today),
    {
        if game.date_time.calendar_day() == *today {
            self.today.record(game.map, false);
        }
        self.lifet.record(game.map, false);
        Ok(())
    }

    /// Counts `game` as what it was, a win or a loss.
    pub fn add_game(&mut self, game: &GamePlayed, today: &CalendarDay) -> (r: Result<(), Error>)
        requires
            old(self).wf(),
            old(self).lifet.wins + old(self).lifet.losses < usize::MAX,
        ensures
            r is Ok,
            final(self).wf(),
            final(self)@ == stats_after(old(self)@, *game, game.did_win, *today),
    {
        if game.did_win {
            self.add_win(game, today)
        } else {
            self.add_loss(game, today)
        }
    }
}

} // verus!
