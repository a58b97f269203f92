//! What the bot reads out of a scan of the entities around it: where a
//! player is, which thrown ender pearls sit in stasis chambers, and which
//! hostile mob is nearest.
use crate::floats::{f64_bits_lt, f64_lt};
use crate::identity::{is_hostile, is_hostile_name};
use crate::json::opt_text;
use crate::shared::{block_containing, BlockPos, Vec3};
use crate::text::{eq_ignore_ascii_case, eq_ignoring_ascii_case, same_text};
use vstd::prelude::*;

verus! {

/// One entity of a scan (the bot itself and entities of other worlds left
/// out): its kind by registry name ("player", "ender_pearl", "zombie"), its
/// profile name when it has one, and its position (bit patterns of `f64`s).
pub struct Scanned {
    pub kind: String,
    pub name: Option<String>,
    pub pos: Vec3,
}

/// Entity `i` of the scan is the player `name` (compared ignoring ASCII case).
pub open spec fn is_player_named(seen: Seq<Scanned>, i: int, name: Seq<char>) -> bool {
    0 <= i < seen.len() && seen[i].kind@ == "player"@ && match opt_text(seen[i].name) {
        Some(n) => eq_ignoring_ascii_case(n, name),
        None => false,
    }
}

/// The player called `name` in a scan: the index of the first such entity.
pub fn find_player(seen: &Vec<Scanned>, name: &str) -> (r: Option<usize>)
    ensures
        match r {
            Some(i) => is_player_named(seen@, i as int, name@) && forall|j: int|
                0 <= j < i ==> !is_player_named(seen@, j, name@),
            None => forall|j: int| 0 <= j < seen@.len() ==> !is_player_named(seen@, j, name@),
        },
{
    let mut i: usize = 0;
    while i < seen.len()
        invariant
            i <= seen@.len(),
            forall|j: int| 0 <= j < i ==> !is_player_named(seen@, j, name@),
        decreases seen@.len() - i,
    {
        let e = &seen[i];
        let hit = same_text(e.kind.as_str(), "player") && match &e.name {
            Some(n) => eq_ignore_ascii_case(n.as_str(), name),
            None => false,
        };
        if hit {
            return Some(i);
        }
        i = i + 1;
    }
    None
}

/// The stasis chambers among the first `n` entities: each ender pearl, as its
/// block and its thrower's name, in scan order.
pub open spec fn stasis_found(seen: Seq<Scanned>, n: int) -> Seq<(BlockPos, Option<String>)>
    decreases n,
{
    if n <= 0 {
        Seq::empty()
    } else if seen[n - 1].kind@ == "ender_pearl"@ {
        stasis_found(seen, n - 1).push((block_containing(seen[n - 1].pos), seen[n - 1].name))
    } else {
        stasis_found(seen, n - 1)
    }
}

/// The stasis chambers in a scan: every ender pearl held in place, whatever
/// lies under it. Returns each chamber's pearl block and thrower.
pub fn find_stasis(seen: &Vec<Scanned>) -> (r: Vec<(BlockPos, Option<String>)>)
    ensures
        r@.len() == stasis_found(seen@, seen@.len() as int).len(),
        forall|i: int|
            0 <= i < r@.len() ==> r@[i].0 == stasis_found(seen@, seen@.len() as int)[i].0
                && opt_text(r@[i].1) == opt_text(stasis_found(seen@, seen@.len() as int)[i].1),
{
    let mut out: Vec<(BlockPos, Option<String>)> = Vec::new();
    let mut i: usize = 0;
    while i < seen.len()
        invariant
            i <= seen@.len(),
            out@.len() == stasis_found(seen@, i as int).len(),
            forall|k: int|
                0 <= k < out@.len() ==> out@[k].0 == stasis_found(seen@, i as int)[k].0
                    && opt_text(out@[k].1) == opt_text(stasis_found(seen@, i as int)[k].1),
        decreases seen@.len() - i,
    {
        let e = &seen[i];
        if same_text(e.kind.as_str(), "ender_pearl") {
            let name = match &e.name {
                Some(n) => Some(n.clone()),
                None => None,
            };
            out.push((BlockPos::containing(&e.pos), name));
        }
        i = i + 1;
    }
    out
}

/// Entity `i` is a target: a hostile mob no farther than `max_range` (its
/// distance is not greater) and in sight. Distances are bit patterns of `f64`s.
pub open spec fn is_target(seen: Seq<Scanned>, dists: Seq<u64>, visible: Seq<bool>, max_range: u64, i: int) -> bool {
    is_hostile_name(seen[i].kind@) && !f64_lt(max_range, dists[i]) && visible[i]
}

/// The nearest target among the first `n` entities, with its distance: a
/// later target replaces the one kept only when it is strictly nearer.
pub open spec fn nearest_target(
    seen: Seq<Scanned>,
    dists: Seq<u64>,
    visible: Seq<bool>,
    max_range: u64,
    n: int,
) -> Option<(int, u64)>
    decreases n,
{
    if n <= 0 {
        None
    } else {
        let kept = nearest_target(seen, dists, visible, max_range, n - 1);
        let i = n - 1;
        if is_target(seen, dists, visible, max_range, i) && match kept {
            None => true,
            Some((_, d)) => f64_lt(dists[i], d),
        } {
            Some((i, dists[i]))
        } else {
            kept
        }
    }
}

/// The nearest hostile mob in sight within `max_range`: `dists[i]` is the
/// distance from the bot's eyes to entity `i` (aimed 1.3 blocks above its
/// feet) and `visible[i]` whether nothing blocks the line to it; ties keep
/// the first found.
pub fn nearest_hostile_index(seen: &Vec<Scanned>, dists: &Vec<u64>, visible: &Vec<bool>, max_range: u64) -> (r: Option<usize>)
    requires
        dists@.len() == seen@.len(),
        visible@.len() == seen@.len(),
    ensures
        match nearest_target(seen@, dists@, visible@, max_range, seen@.len() as int) {
            Some((i, _)) => r == Some(i as usize),
            None => r is None,
        },
{
    let mut best: Option<(usize, u64)> = None;
    let mut i: usize = 0;
    while i < seen.len()
        invariant
            i <= seen@.len(),
            dists@.len() == seen@.len(),
            visible@.len() == seen@.len(),
            match nearest_target(seen@, dists@, visible@, max_range, i as int) {
                Some((k, d)) => best == Some((k as usize, d)) && 0 <= k < i,
                None => best is None,
            },
        decreases seen@.len() - i,
    {
        let d = dists[i];
        let target = is_hostile(seen[i].kind.as_str()) && !f64_bits_lt(max_range, d) && visible[i];
        if target {
            let nearer = match best {
                None => true,
                Some((_, bd)) => f64_bits_lt(d, bd),
            };
            if nearer {
                best = Some((i, d));
            }
        }
        i = i + 1;
    }
    match best {
        Some((k, _)) => Some(k),
        None => None,
    }
}

} // verus!
