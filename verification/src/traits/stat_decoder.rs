use vstd::prelude::*;

use crate::text::{decimal, decimal_string};
use crate::traits::read::{
    namespaced_name, parse_f64_bits, parse_namespaced, parse_u32, yields, DataReaders, Pos, Src,
};
use crate::value::{assoc_insert, float_view, Object, Value, ValueView};

verus! {

/// The stat trackers of a save, in order: each skill (or other subject) with the names of
/// its stats, by stat id.
pub open spec fn stat_skills() -> Seq<(&'static str, Seq<&'static str>)> {
    seq![
        ("woodcutting", seq!["Actions", "TimeSpent", "LogsCut", "BirdNestsGotten"]),
        ("fishing", seq!["FishCaught", "JunkCaught", "SpecialItemsCaught", "TimeSpent", "Actions", "GPEarned"]),
        ("firemaking", seq!["LogsBurnt", "GPBurnt", "TimeSpent", "BonusBonfireXP", "TotalActions", "BonfiresLit", "ItemsPreserved", "GPEarned", "CoalGained"]),
        ("cooking", seq!["FoodCooked", "FoodBurnt", "TimeSpent", "SuccessfulActions", "PerfectCooks", "PassiveCooks", "ItemsUsed", "ItemsPreserved"]),
        ("mining", seq!["Actions", "EmptyOresMined", "TimeSpent", "OresGained", "GemsGained", "RockHPPreserved", "RocksDepleted", "OnyxGemNodesFound", "TotalOnyxGemNodeHPFound", "OrichaGemNodesFound", "TotalOrichaGemNodeHPFound", "CeruleanGemNodesFound", "TotalCeruleanGemNodeHPFound", "NightopalGemNodesFound", "TotalNightopalGemNodeHPFound", "ShadowpearlGemNodesFound", "TotalShadowpearlGemNodeHPFound", "MoonstoneGemNodesFound", "TotalMoonstoneGemNodeHPFound", "VoidheartGemNodesFound", "TotalVoidheartGemNodeHPFound"]),
        ("smithing", seq!["SmeltingActions", "SmithingActions", "TimeSpent", "BarsUsed", "BarsPreserved", "OresUsed", "OresPreserved", "TotalItemsSmithed", "TotalBarsSmelted"]),
        ("attack", seq![]),
        ("strength", seq![]),
        ("defence", seq![]),
        ("hitpoints", seq![]),
        ("thieving", seq!["SuccessfulPickpockets", "FailedPickpockets", "DamageTakenFromNPCs", "TimeSpentStunned", "TimeSpent", "GPStolen", "CommonDrops", "RareDrops", "AreaDrops", "NpcDrops"]),
        ("farming", seq!["AllotmentsHarvested", "CompostUsed", "CropsDied", "TimeSpentWaitingForCrops", "TimeSpentWaitingForDeadCrops", "GloopUsed", "HerbsHarvested", "TreesHarvested", "SeedsPlanted", "HerbsGained", "LogsGained", "FoodGained"]),
        ("ranged", seq![]),
        ("fletching", seq!["ArrowShaftsMade", "ItemsFletched", "TimeSpent", "ItemsUsed", "ItemsPreserved", "Actions"]),
        ("crafting", seq!["ItemsCrafted", "TimeSpent", "ItemsUsed", "ItemsPreserved", "Actions", "GPUsed", "GPPreserved"]),
        ("runecrafting", seq!["ItemsCrafted", "TimeSpent", "ItemsUsed", "ItemsPreserved", "Actions"]),
        ("magic", seq![]),
        ("prayer", seq!["BonesBuried", "PrayerPointsEarned", "PrayerPointsSpent", "PrayerPointsPreserved", "SoulsReleased", "SoulPointsEarned", "SoulPointsSpent", "SoulPointsPreserved"]),
        ("slayer", seq!["SlayerCoinsEarned", "MonstersKilledOnTask"]),
        ("herblore", seq!["PotionsMade", "TimeSpent", "PotionsUsed", "ChargesUsed", "ItemsUsed", "ItemsPreserved", "Actions"]),
        ("agility", seq!["ObstaclesCompleted", "CoursesCompleted", "GPEarned", "TimeSpent", "SlayerCoinsEarned", "ItemsEarned"]),
        ("summoning", seq!["Actions", "TimeSpent", "ItemsMade", "ItemsUsed", "ItemsPreserved", "GPUsed", "GPPreserved", "SCUsed", "SCPreserved", "TabletsUsed"]),
        ("items", seq!["TimesFound", "TimesSold", "GpFromSale", "TimesLostToDeath", "DamageTaken", "DamageDealt", "MissedAttacks", "TimesEaten", "HealedFor", "TotalAttacks", "AmountUsedInCombat", "TimeWaited", "TimesDied", "TimesGrown", "HarvestAmount", "EnemiesKilled", "TimesOpened", "TimesTransformed", "TimesBuried", "TimesReleased"]),
        ("monster", seq!["DamageDealtToPlayer", "DamageTakenFromPlayer", "KilledByPlayer", "KilledPlayer", "HitsToPlayer", "HitsFromPlayer", "EnemyMissed", "PlayerMissed", "Seen", "RanAway"]),
        ("general", seq!["TotalGPEarned", "TotalItemsSold", "UsernameChanges", "AccountCreationDate", "SignetRingHalvesMissed"]),
        ("combat", seq!["MonstersKilled", "DamageDealt", "DamageTaken", "AttacksMissed", "Deaths", "FoodConsumed", "HPFromFood", "TimeSpentSpawning", "TimeSpentFighting", "TimeSpentPaused", "ItemsLooted", "GPEarned", "DungeonRewards"]),
        ("raid", seq!["GolbinsKilled", "HighestWave", "RaidCoinsEarned", "TotalTimeSpent", "LongestRaid", "TotalDeath", "WavesCompleted"]),
        ("astrology", seq!["TimeSpent", "StandardRerolls", "UniqueRerolls", "MaxRollsHit", "MinRollsHit", "Actions", "MeteoritesLocated", "TotalMeteoriteHP", "AbyciteLocated", "TotalAbyciteHP", "MysticiteLoated", "TotalMysticiteHP", "EchociteLocated", "TotalEchociteHP"]),
        ("shop", seq!["PurchasesMade", "ItemsPurchased", "GPSpent", "SCSpent", "RCSpent", "ItemsSpent", "GloveChargesPurchased"]),
        ("township", seq![]),
        ("cartography", seq![]),
        ("archaeology", seq![]),
        ("corruption", seq![]),
        ("harvesting", seq![]),
    ]
}

/// The entry `i` of the stat table.
fn stat_skill(i: usize) -> (skill: (&'static str, &'static [&'static str]))
    requires
        i < stat_skills().len(),
    ensures
        skill.0 == stat_skills()[i as int].0,
        skill.1@ == stat_skills()[i as int].1,
{
    match i {
        0 => ("woodcutting", &["Actions", "TimeSpent", "LogsCut", "BirdNestsGotten"]),
        1 => ("fishing", &["FishCaught", "JunkCaught", "SpecialItemsCaught", "TimeSpent", "Actions", "GPEarned"]),
        2 => ("firemaking", &["LogsBurnt", "GPBurnt", "TimeSpent", "BonusBonfireXP", "TotalActions", "BonfiresLit", "ItemsPreserved", "GPEarned", "CoalGained"]),
        3 => ("cooking", &["FoodCooked", "FoodBurnt", "TimeSpent", "SuccessfulActions", "PerfectCooks", "PassiveCooks", "ItemsUsed", "ItemsPreserved"]),
        4 => ("mining", &["Actions", "EmptyOresMined", "TimeSpent", "OresGained", "GemsGained", "RockHPPreserved", "RocksDepleted", "OnyxGemNodesFound", "TotalOnyxGemNodeHPFound", "OrichaGemNodesFound", "TotalOrichaGemNodeHPFound", "CeruleanGemNodesFound", "TotalCeruleanGemNodeHPFound", "NightopalGemNodesFound", "TotalNightopalGemNodeHPFound", "ShadowpearlGemNodesFound", "TotalShadowpearlGemNodeHPFound", "MoonstoneGemNodesFound", "TotalMoonstoneGemNodeHPFound", "VoidheartGemNodesFound", "TotalVoidheartGemNodeHPFound"]),
        5 => ("smithing", &["SmeltingActions", "SmithingActions", "TimeSpent", "BarsUsed", "BarsPreserved", "OresUsed", "OresPreserved", "TotalItemsSmithed", "TotalBarsSmelted"]),
        6 => ("attack", &[]),
        7 => ("strength", &[]),
        8 => ("defence", &[]),
        9 => ("hitpoints", &[]),
        10 => ("thieving", &["SuccessfulPickpockets", "FailedPickpockets", "DamageTakenFromNPCs", "TimeSpentStunned", "TimeSpent", "GPStolen", "CommonDrops", "RareDrops", "AreaDrops", "NpcDrops"]),
        11 => ("farming", &["AllotmentsHarvested", "CompostUsed", "CropsDied", "TimeSpentWaitingForCrops", "TimeSpentWaitingForDeadCrops", "GloopUsed", "HerbsHarvested", "TreesHarvested", "SeedsPlanted", "HerbsGained", "LogsGained", "FoodGained"]),
        12 => ("ranged", &[]),
        13 => ("fletching", &["ArrowShaftsMade", "ItemsFletched", "TimeSpent", "ItemsUsed", "ItemsPreserved", "Actions"]),
        14 => ("crafting", &["ItemsCrafted", "TimeSpent", "ItemsUsed", "ItemsPreserved", "Actions", "GPUsed", "GPPreserved"]),
        15 => ("runecrafting", &["ItemsCrafted", "TimeSpent", "ItemsUsed", "ItemsPreserved", "Actions"]),
        16 => ("magic", &[]),
        17 => ("prayer", &["BonesBuried", "PrayerPointsEarned", "PrayerPointsSpent", "PrayerPointsPreserved", "SoulsReleased", "SoulPointsEarned", "SoulPointsSpent", "SoulPointsPreserved"]),
        18 => ("slayer", &["SlayerCoinsEarned", "MonstersKilledOnTask"]),
        19 => ("herblore", &["PotionsMade", "TimeSpent", "PotionsUsed", "ChargesUsed", "ItemsUsed", "ItemsPreserved", "Actions"]),
        20 => ("agility", &["ObstaclesCompleted", "CoursesCompleted", "GPEarned", "TimeSpent", "SlayerCoinsEarned", "ItemsEarned"]),
        21 => ("summoning", &["Actions", "TimeSpent", "ItemsMade", "ItemsUsed", "ItemsPreserved", "GPUsed", "GPPreserved", "SCUsed", "SCPreserved", "TabletsUsed"]),
        22 => ("items", &["TimesFound", "TimesSold", "GpFromSale", "TimesLostToDeath", "DamageTaken", "DamageDealt", "MissedAttacks", "TimesEaten", "HealedFor", "TotalAttacks", "AmountUsedInCombat", "TimeWaited", "TimesDied", "TimesGrown", "HarvestAmount", "EnemiesKilled", "TimesOpened", "TimesTransformed", "TimesBuried", "TimesReleased"]),
        23 => ("monster", &["DamageDealtToPlayer", "DamageTakenFromPlayer", "KilledByPlayer", "KilledPlayer", "HitsToPlayer", "HitsFromPlayer", "EnemyMissed", "PlayerMissed", "Seen", "RanAway"]),
        24 => ("general", &["TotalGPEarned", "TotalItemsSold", "UsernameChanges", "AccountCreationDate", "SignetRingHalvesMissed"]),
        25 => ("combat", &["MonstersKilled", "DamageDealt", "DamageTaken", "AttacksMissed", "Deaths", "FoodConsumed", "HPFromFood", "TimeSpentSpawning", "TimeSpentFighting", "TimeSpentPaused", "ItemsLooted", "GPEarned", "DungeonRewards"]),
        26 => ("raid", &["GolbinsKilled", "HighestWave", "RaidCoinsEarned", "TotalTimeSpent", "LongestRaid", "TotalDeath", "WavesCompleted"]),
        27 => ("astrology", &["TimeSpent", "StandardRerolls", "UniqueRerolls", "MaxRollsHit", "MinRollsHit", "Actions", "MeteoritesLocated", "TotalMeteoriteHP", "AbyciteLocated", "TotalAbyciteHP", "MysticiteLoated", "TotalMysticiteHP", "EchociteLocated", "TotalEchociteHP"]),
        28 => ("shop", &["PurchasesMade", "ItemsPurchased", "GPSpent", "SCSpent", "RCSpent", "ItemsSpent", "GloveChargesPurchased"]),
        29 => ("township", &[]),
        30 => ("cartography", &[]),
        31 => ("archaeology", &[]),
        32 => ("corruption", &[]),
        _ => ("harvesting", &[]),
    }
}

/// The subjects whose stats are kept per namespaced object.
pub open spec fn is_mapped_tracker(name: &str) -> bool {
    name@ == "items"@ || name@ == "monster"@
}

fn str_eq(a: &str, b: &str) -> (eq: bool)
    ensures
        eq == (a@ == b@),
{
    String::from_str(a) == String::from_str(b)
}

/// The key of a stat: the name of its `u32` id in `names`, or else the id in decimal.
pub open spec fn parse_stat_key(names: Seq<&str>, src: Src, pos: Pos) -> (Seq<char>, Pos) {
    let (id, p) = parse_u32(src, pos);
    (
        if (id as int) < names.len() {
            names[id as int]@
        } else {
            decimal(id as nat)
        },
        p,
    )
}

/// `n` stats, each a key and a double, inserted in order.
pub open spec fn parse_stat_entries(names: Seq<&str>, src: Src, pos: Pos, n: nat) -> (
    Seq<(Seq<char>, ValueView)>,
    Pos,
)
    decreases n,
{
    if n == 0 {
        (Seq::empty(), pos)
    } else {
        let (m, p) = parse_stat_entries(names, src, pos, (n - 1) as nat);
        match p {
            Some(_) => {
                let (key, p1) = parse_stat_key(names, src, p);
                match p1 {
                    Some(_) => {
                        let (bits, p2) = parse_f64_bits(src, p1);
                        (assoc_insert(m, key, float_view(bits)), p2)
                    },
                    None => (m, None),
                }
            },
            None => (m, None),
        }
    }
}

/// A stat tracker: `{stats: {name: value}}`, a `u32` count of stats, each a `u32` id
/// (named through `names`) and a double.
pub open spec fn parse_stat_tracker(names: Seq<&str>, src: Src, pos: Pos) -> (ValueView, Pos) {
    let (n, p) = parse_u32(src, pos);
    let (stats, p) = match p {
        Some(_) => parse_stat_entries(names, src, p, n as nat),
        None => (Seq::empty(), None),
    };
    (ValueView::Object(assoc_insert(Seq::empty(), "stats"@, ValueView::Object(stats))), p)
}

/// `n` stat trackers, each keyed by a namespaced name, inserted in order.
pub open spec fn parse_mapped_entries(names: Seq<&str>, src: Src, pos: Pos, n: nat) -> (
    Seq<(Seq<char>, ValueView)>,
    Pos,
)
    decreases n,
{
    if n == 0 {
        (Seq::empty(), pos)
    } else {
        let (m, p) = parse_mapped_entries(names, src, pos, (n - 1) as nat);
        match p {
            Some(_) => {
                let (o, p1) = parse_namespaced(src, p);
                match p1 {
                    Some(_) => {
                        let (tracker, p2) = parse_stat_tracker(names, src, p1);
                        (assoc_insert(m, namespaced_name(o), tracker), p2)
                    },
                    None => (m, None),
                }
            },
            None => (m, None),
        }
    }
}

/// A mapped stat tracker: `{stats_map: {name: tracker}}`, one stat tracker per namespaced
/// object.
pub open spec fn parse_mapped_stat_tracker(names: Seq<&str>, src: Src, pos: Pos) -> (ValueView, Pos) {
    let (n, p) = parse_u32(src, pos);
    let (trackers, p) = match p {
        Some(_) => parse_mapped_entries(names, src, p, n as nat),
        None => (Seq::empty(), None),
    };
    (ValueView::Object(assoc_insert(Seq::empty(), "stats_map"@, ValueView::Object(trackers))), p)
}

/// The stats of one subject: kept per namespaced object for items and monsters.
pub open spec fn parse_subject_stats(name: &str, names: Seq<&str>, src: Src, pos: Pos) -> (
    ValueView,
    Pos,
) {
    if is_mapped_tracker(name) {
        parse_mapped_stat_tracker(names, src, pos)
    } else {
        parse_stat_tracker(names, src, pos)
    }
}

/// The trackers of the first `n` subjects of the stat table, inserted in order.
pub open spec fn parse_stats_upto(src: Src, pos: Pos, n: nat) -> (
    Seq<(Seq<char>, ValueView)>,
    Pos,
)
    decreases n,
{
    if n == 0 {
        (Seq::empty(), pos)
    } else {
        let (m, p) = parse_stats_upto(src, pos, (n - 1) as nat);
        match p {
            Some(_) => {
                let skill = stat_skills()[n - 1];
                let (v, q) = parse_subject_stats(skill.0, skill.1, src, p);
                (assoc_insert(m, skill.0@, v), q)
            },
            None => (m, None),
        }
    }
}

/// All the stats of a save: one tracker per entry of the stat table.
pub open spec fn parse_stats(src: Src, pos: Pos) -> (ValueView, Pos) {
    let (m, p) = parse_stats_upto(src, pos, stat_skills().len());
    (ValueView::Object(m), p)
}

proof fn lemma_stat_entries_failure_stays(names: Seq<&str>, src: Src, pos: Pos, i: nat, n: nat)
    requires
        i <= n,
        parse_stat_entries(names, src, pos, i).1 is None,
    ensures
        parse_stat_entries(names, src, pos, n).1 is None,
    decreases n,
{
    if n > i {
        lemma_stat_entries_failure_stays(names, src, pos, i, (n - 1) as nat);
    }
}

proof fn lemma_mapped_entries_failure_stays(names: Seq<&str>, src: Src, pos: Pos, i: nat, n: nat)
    requires
        i <= n,
        parse_mapped_entries(names, src, pos, i).1 is None,
    ensures
        parse_mapped_entries(names, src, pos, n).1 is None,
    decreases n,
{
    if n > i {
        lemma_mapped_entries_failure_stays(names, src, pos, i, (n - 1) as nat);
    }
}

proof fn lemma_stats_failure_stays(src: Src, pos: Pos, i: nat, n: nat)
    requires
        i <= n,
        parse_stats_upto(src, pos, i).1 is None,
    ensures
        parse_stats_upto(src, pos, n).1 is None,
    decreases n,
{
    if n > i {
        lemma_stats_failure_stays(src, pos, i, (n - 1) as nat);
    }
}

fn decode_stat_key<R: DataReaders + ?Sized>(r: &mut R, name_map: &[&str]) -> (res: Option<String>)
    ensures
        yields(old(r)@, final(r)@, res, parse_stat_key(name_map@, old(r)@.src, Some(old(r)@.offset))),
{
    let id = r.read_uint32()?;
    if (id as usize) < name_map.len() {
        Some(String::from_str(name_map[id as usize]))
    } else {
        Some(decimal_string(id))
    }
}

pub trait StatDecoder: DataReaders {
    fn decode_stats(&mut self) -> (res: Option<Value>)
        ensures
            yields(old(self)@, final(self)@, res, parse_stats(old(self)@.src, Some(old(self)@.offset))),
    {
        let ghost src = self@.src;
        let ghost start = Some(self@.offset);
        let count = 34usize;
        let mut map = Object::new();
        let mut i: usize = 0;
        while i < count
            invariant
                count == stat_skills().len(),
                self@.src == src,
                src == old(self)@.src,
                start == Some(old(self)@.offset),
                0 <= i <= count,
                parse_stats_upto(src, start, i as nat) == (map@, Some(self@.offset)),
            decreases count - i,
        {
            let (name, names) = stat_skill(i);
            let tracker = if str_eq(name, "items") || str_eq(name, "monster") {
                self.decode_mapped_stat_tracker(names)
            } else {
                self.decode_stat_tracker(names)
            };
            let tracker = match tracker {
                Some(t) => t,
                None => {
                    proof {
                        lemma_stats_failure_stays(src, start, (i + 1) as nat, count as nat);
                    }
                    return None;
                },
            };
            map.put(name, tracker);
            i = i + 1;
        }
        Some(Value::from_object(map))
    }

    fn decode_stat_tracker(&mut self, name_map: &[&str]) -> (res: Option<Value>)
        ensures
            yields(old(self)@, final(self)@, res, parse_stat_tracker(name_map@, old(self)@.src, Some(old(self)@.offset))),
    {
        let ghost src = self@.src;
        let size = self.read_uint32()?;
        let ghost start = Some(self@.offset);
        let mut stats = Object::new();
        let mut i: u32 = 0;
        while i < size
            invariant
                self@.src == src,
                src == old(self)@.src,
                parse_stat_tracker(name_map@, src, Some(old(self)@.offset)) == ({
                    let (m, p) = parse_stat_entries(name_map@, src, start, size as nat);
                    (ValueView::Object(assoc_insert(Seq::empty(), "stats"@, ValueView::Object(m))), p)
                }),
                0 <= i <= size,
                parse_stat_entries(name_map@, src, start, i as nat) == (stats@, Some(self@.offset)),
            decreases size - i,
        {
            let key = match decode_stat_key(self, name_map) {
                Some(k) => k,
                None => {
                    proof {
                        lemma_stat_entries_failure_stays(name_map@, src, start, (i + 1) as nat, size as nat);
                    }
                    return None;
                },
            };
            let bits = match self.read_float64() {
                Some(b) => b,
                None => {
                    proof {
                        lemma_stat_entries_failure_stays(name_map@, src, start, (i + 1) as nat, size as nat);
                    }
                    return None;
                },
            };
            stats.insert(key, Value::from_float_bits(bits));
            i = i + 1;
        }
        let mut map = Object::new();
        map.put("stats", Value::from_object(stats));
        Some(Value::from_object(map))
    }

    fn decode_mapped_stat_tracker(&mut self, name_map: &[&str]) -> (res: Option<Value>)
        ensures
            yields(old(self)@, final(self)@, res, parse_mapped_stat_tracker(name_map@, old(self)@.src, Some(old(self)@.offset))),
    {
        let ghost src = self@.src;
        let size = self.read_uint32()?;
        let ghost start = Some(self@.offset);
        let mut trackers = Object::new();
        let mut i: u32 = 0;
        while i < size
            invariant
                self@.src == src,
                src == old(self)@.src,
                parse_mapped_stat_tracker(name_map@, src, Some(old(self)@.offset)) == ({
                    let (m, p) = parse_mapped_entries(name_map@, src, start, size as nat);
                    (ValueView::Object(assoc_insert(Seq::empty(), "stats_map"@, ValueView::Object(m))), p)
                }),
                0 <= i <= size,
                parse_mapped_entries(name_map@, src, start, i as nat) == (trackers@, Some(self@.offset)),
            decreases size - i,
        {
            let key = match self.read_namespaced_object() {
                Some(o) => o.as_name(),
                None => {
                    proof {
                        lemma_mapped_entries_failure_stays(name_map@, src, start, (i + 1) as nat, size as nat);
                    }
                    return None;
                },
            };
            let tracker = match self.decode_stat_tracker(name_map) {
                Some(t) => t,
                None => {
                    proof {
                        lemma_mapped_entries_failure_stays(name_map@, src, start, (i + 1) as nat, size as nat);
                    }
                    return None;
                },
            };
            trackers.insert(key, tracker);
            i = i + 1;
        }
        let mut map = Object::new();
        map.put("stats_map", Value::from_object(trackers));
        Some(Value::from_object(map))
    }
}

} // verus!
