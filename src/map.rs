use vstd::prelude::*;

verus! {

/// Number of variants of [`GunfightMap`].
pub const MAP_COUNT: usize = 27;

/// The closed set of gunfight arenas, in declaration order.
#[derive(Clone, Copy, Debug, PartialEq, Eq, Structural, Hash, Default)]
pub enum GunfightMap {
    // Both
    Rust,
    Shipment,
    // MW
    Asile9,
    Atrium,
    Bazaar,
    Cargo,
    Docks,
    Drainage,
    GulagShowers,
    Hill,
    King,
    Livestock,
    Pine,
    Shoothouse,
    Speedball,
    Stack,
    Station,
    Trench,
    VerdanskStadium,
    // MW3
    DasHaus,
    StashHouse,
    Alley,
    Blacksite,
    Exhibit,
    Meat,
    TrainingFacility,
    // Both
    #[default]
    Back,
}

/// The game a session records maps for.
#[derive(Clone, Copy, Debug, PartialEq, Eq, Structural)]
pub enum CodVersion {
    MW,
    MW3,
}

/// Position of a map in declaration order.
pub open spec fn map_index(m: GunfightMap) -> nat {
    match m {
        GunfightMap::Rust => 0,
        GunfightMap::Shipment => 1,
        GunfightMap::Asile9 => 2,
        GunfightMap::Atrium => 3,
        GunfightMap::Bazaar => 4,
        GunfightMap::Cargo => 5,
        GunfightMap::Docks => 6,
        GunfightMap::Drainage => 7,
        GunfightMap::GulagShowers => 8,
        GunfightMap::Hill => 9,
        GunfightMap::King => 10,
        GunfightMap::Livestock => 11,
        GunfightMap::Pine => 12,
        GunfightMap::Shoothouse => 13,
        GunfightMap::Speedball => 14,
        GunfightMap::Stack => 15,
        GunfightMap::Station => 16,
        GunfightMap::Trench => 17,
        GunfightMap::VerdanskStadium => 18,
        GunfightMap::DasHaus => 19,
        GunfightMap::StashHouse => 20,
        GunfightMap::Alley => 21,
        GunfightMap::Blacksite => 22,
        GunfightMap::Exhibit => 23,
        GunfightMap::Meat => 24,
        GunfightMap::TrainingFacility => 25,
        GunfightMap::Back => 26,
    }
}

/// The map at a position in declaration order (`Back` past the end).
pub open spec fn map_at(i: int) -> GunfightMap {
    if i == 0 {
        GunfightMap::Rust
    } else if i == 1 {
        GunfightMap::Shipment
    } else if i == 2 {
        GunfightMap::Asile9
    } else if i == 3 {
        GunfightMap::Atrium
    } else if i == 4 {
        GunfightMap::Bazaar
    } else if i == 5 {
        GunfightMap::Cargo
    } else if i == 6 {
        GunfightMap::Docks
    } else if i == 7 {
        GunfightMap::Drainage
    } else if i == 8 {
        GunfightMap::GulagShowers
    } else if i == 9 {
        GunfightMap::Hill
    } else if i == 10 {
        GunfightMap::King
    } else if i == 11 {
        GunfightMap::Livestock
    } else if i == 12 {
        GunfightMap::Pine
    } else if i == 13 {
        GunfightMap::Shoothouse
    } else if i == 14 {
        GunfightMap::Speedball
    } else if i == 15 {
        GunfightMap::Stack
    } else if i == 16 {
        GunfightMap::Station
    } else if i == 17 {
        GunfightMap::Trench
    } else if i == 18 {
        GunfightMap::VerdanskStadium
    } else if i == 19 {
        GunfightMap::DasHaus
    } else if i == 20 {
        GunfightMap::StashHouse
    } else if i == 21 {
        GunfightMap::Alley
    } else if i == 22 {
        GunfightMap::Blacksite
    } else if i == 23 {
        GunfightMap::Exhibit
    } else if i == 24 {
        GunfightMap::Meat
    } else if i == 25 {
        GunfightMap::TrainingFacility
    } else {
        GunfightMap::Back
    }
}

/// Every map, in declaration order.
pub open spec fn all_maps() -> Seq<GunfightMap> {
    Seq::new(MAP_COUNT as nat, |i: int| map_at(i))
}

/// The maps that were added with MW3.
pub open spec fn mw3_only(m: GunfightMap) -> bool {
    match m {
        GunfightMap::DasHaus | GunfightMap::StashHouse | GunfightMap::Alley
        | GunfightMap::Blacksite | GunfightMap::Exhibit | GunfightMap::Meat
        | GunfightMap::TrainingFacility => true,
        _ => false,
    }
}

/// The entries that both games offer.
pub open spec fn in_both(m: GunfightMap) -> bool {
    match m {
        GunfightMap::Back | GunfightMap::Rust | GunfightMap::Shipment => true,
        _ => false,
    }
}

pub open spec fn spec_is_mw(m: GunfightMap) -> bool {
    !mw3_only(m)
}

pub open spec fn spec_is_mw3(m: GunfightMap) -> bool {
    mw3_only(m) || in_both(m)
}

/// The maps offered for a game version.
pub open spec fn offered_in(v: CodVersion, m: GunfightMap) -> bool {
    match v {
        CodVersion::MW => spec_is_mw(m),
        CodVersion::MW3 => spec_is_mw3(m),
    }
}

/// Positions and maps correspond one to one.
pub proof fn lemma_map_index(m: GunfightMap)
    ensures
        map_index(m) < MAP_COUNT,
        #[trigger] map_at(map_index(m) as int) == m,
{
}

/// Positions and maps correspond one to one.
pub proof fn lemma_map_at(i: int)
    requires
        0 <= i < MAP_COUNT,
    ensures
        #[trigger] map_index(map_at(i)) == i,
{
}

/// Two maps with one position are one map.
pub proof fn lemma_map_index_injective(a: GunfightMap, b: GunfightMap)
    ensures
        map_index(a) == map_index(b) <==> a == b,
{
    lemma_map_index(a);
    lemma_map_index(b);
}

impl GunfightMap {
    /// Position of this map in declaration order.
    pub fn index(&self) -> (r: usize)
        ensures
            r == map_index(*self),
            r < MAP_COUNT,
    {
        match self {
            GunfightMap::Rust => 0,
            GunfightMap::Shipment => 1,
            GunfightMap::Asile9 => 2,
            GunfightMap::Atrium => 3,
            GunfightMap::Bazaar => 4,
            GunfightMap::Cargo => 5,
            GunfightMap::Docks => 6,
            GunfightMap::Drainage => 7,
            GunfightMap::GulagShowers => 8,
            GunfightMap::Hill => 9,
            GunfightMap::King => 10,
            GunfightMap::Livestock => 11,
            GunfightMap::Pine => 12,
            GunfightMap::Shoothouse => 13,
            GunfightMap::Speedball => 14,
            GunfightMap::Stack => 15,
            GunfightMap::Station => 16,
            GunfightMap::Trench => 17,
            GunfightMap::VerdanskStadium => 18,
            GunfightMap::DasHaus => 19,
            GunfightMap::StashHouse => 20,
            GunfightMap::Alley => 21,
            GunfightMap::Blacksite => 22,
            GunfightMap::Exhibit => 23,
            GunfightMap::Meat => 24,
            GunfightMap::TrainingFacility => 25,
            GunfightMap::Back => 26,
        }
    }

    /// The map at a position in declaration order.
    pub fn from_index(i: usize) -> (r: Self)
        requires
            i < MAP_COUNT,
        ensures
            r == map_at(i as int),
            map_index(r) == i,
    {
        proof {
            lemma_map_at(i as int);
        }
        match i {
            0 => GunfightMap::Rust,
            1 => GunfightMap::Shipment,
            2 => GunfightMap::Asile9,
            3 => GunfightMap::Atrium,
            4 => GunfightMap::Bazaar,
            5 => GunfightMap::Cargo,
            6 => GunfightMap::Docks,
            7 => GunfightMap::Drainage,
            8 => GunfightMap::GulagShowers,
            9 => GunfightMap::Hill,
            10 => GunfightMap::King,
            11 => GunfightMap::Livestock,
            12 => GunfightMap::Pine,
            13 => GunfightMap::Shoothouse,
            14 => GunfightMap::Speedball,
            15 => GunfightMap::Stack,
            16 => GunfightMap::Station,
            17 => GunfightMap::Trench,
            18 => GunfightMap::VerdanskStadium,
            19 => GunfightMap::DasHaus,
            20 => GunfightMap::StashHouse,
            21 => GunfightMap::Alley,
            22 => GunfightMap::Blacksite,
            23 => GunfightMap::Exhibit,
            24 => GunfightMap::Meat,
            25 => GunfightMap::TrainingFacility,
            _ => GunfightMap::Back,
        }
    }

    /// Whether the map is offered in MW: every map but those added with MW3.
    pub fn is_mw(map: &Self) -> (r: bool)
        ensures
            r == spec_is_mw(*map),
    {
        !matches!(
            map,
            GunfightMap::DasHaus | GunfightMap::StashHouse | GunfightMap::Alley
                | GunfightMap::Blacksite | GunfightMap::Exhibit | GunfightMap::Meat
                | GunfightMap::TrainingFacility
        )
    }

    /// Whether the map is offered in MW3: those added with it, and those of both games.
    pub fn is_mw3(map: &Self) -> (r: bool)
        ensures
            r == spec_is_mw3(*map),
    {
        matches!(
            map,
            GunfightMap::DasHaus | GunfightMap::StashHouse | GunfightMap::Alley
                | GunfightMap::Blacksite | GunfightMap::Exhibit | GunfightMap::Meat
                | GunfightMap::TrainingFacility | GunfightMap::Back | GunfightMap::Rust
                | GunfightMap::Shipment
        )
    }

    /// The maps to choose from for a game version, in declaration order.
    pub fn choices_for(cod_version: &CodVersion) -> (r: Vec<Self>)
        ensures
            r@ == all_maps().filter(|m: GunfightMap| offered_in(*cod_version, m)),
    {
        let ghost pred = |m: GunfightMap| offered_in(*cod_version, m);
        let mut r: Vec<Self> = Vec::new();
        let mut i: usize = 0;
        while i < MAP_COUNT
            invariant
                i <= MAP_COUNT,
                pred == (|m: GunfightMap| offered_in(*cod_version, m)),
                r@ == all_maps().take(i as int).filter(pred),
            decreases MAP_COUNT - i,
        {
            let m = Self::from_index(i);
            proof {
                assert(all_maps().take(i + 1) =~= all_maps().take(i as int).push(m));
                all_maps().take(i as int).lemma_filter_push(m, pred);
            }
            let offered = match cod_version {
                CodVersion::MW => Self::is_mw(&m),
                CodVersion::MW3 => Self::is_mw3(&m),
            };
            if offered {
                r.push(m);
            }
            i = i + 1;
        }
        assert(all_maps().take(MAP_COUNT as int) =~= all_maps());
        r
    }
}

/// What one map has seen in one scope: how many games were won and lost on it.
#[derive(Clone, Copy, Debug, PartialEq, Eq, Structural)]
pub struct MapStats {
    pub wins: usize,
    pub losses: usize,
}

/// Whether the win percentage of `a` is at least that of `b`, where a map with no games
/// stands at zero percent. Percentages `wa / ta` and `wb / tb` compare as `wa * tb` and
/// `wb * ta` do.
pub open spec fn rate_at_least(a: MapStats, b: MapStats) -> bool {
    let ta = a.wins + a.losses;
    let tb = b.wins + b.losses;
    if ta == 0 {
        b.wins == 0
    } else if tb == 0 {
        true
    } else {
        a.wins * tb >= b.wins * ta
    }
}

/// Of two win percentages, one is at least the other.
pub proof fn lemma_rate_total(a: MapStats, b: MapStats)
    ensures
        rate_at_least(a, b) || rate_at_least(b, a),
{
}

/// Win percentages are ordered transitively.
pub proof fn lemma_rate_transitive(a: MapStats, b: MapStats, c: MapStats)
    requires
        rate_at_least(a, b),
        rate_at_least(b, c),
    ensures
        rate_at_least(a, c),
{
    let ta = a.wins + a.losses;
    let tb = b.wins + b.losses;
    let tc = c.wins + c.losses;
    if ta > 0 && tb > 0 && tc > 0 {
        let (aw, bw, cw) = (a.wins as int, b.wins as int, c.wins as int);
        assert(aw * tc >= cw * ta) by (nonlinear_arith)
            requires
                aw * tb >= bw * ta,
                bw * tc >= cw * tb,
                ta > 0,
                tb > 0,
                tc > 0,
        {
            assert(aw * tb * tc >= bw * ta * tc);
            assert(bw * tc * ta >= cw * tb * ta);
        }
    } else if ta > 0 && tb > 0 && tc == 0 {
    } else if tb > 0 && b.wins == 0 && tc > 0 {
        assert(c.wins == 0) by (nonlinear_arith)
            requires
                b.wins * tc >= c.wins * tb,
                b.wins == 0,
                c.wins >= 0,
                tb > 0,
        ;
    }
}

impl MapStats {
    /// Whether this map's win percentage is at least that of `other`.
    pub fn win_rate_at_least(&self, other: &MapStats) -> (r: bool)
        ensures
            r == rate_at_least(*self, *other),
    {
        if self.wins == 0 && self.losses == 0 {
            other.wins == 0
        } else if other.wins == 0 && other.losses == 0 {
            true
        } else {
            let aw = self.wins as u128;
            let al = self.losses as u128;
            let bw = other.wins as u128;
            let bl = other.losses as u128;
            assert(aw * bl <= u64::MAX * u64::MAX) by (nonlinear_arith)
                requires
                    aw <= u64::MAX,
                    bl <= u64::MAX,
            ;
            assert(bw * al <= u64::MAX * u64::MAX) by (nonlinear_arith)
                requires
                    bw <= u64::MAX,
                    al <= u64::MAX,
            ;
            assert((aw * bl >= bw * al) == (aw * (bw + bl) >= bw * (aw + al))) by (nonlinear_arith);
            aw * bl >= bw * al
        }
    }
}

} // verus!
