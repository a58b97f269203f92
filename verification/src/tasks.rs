//! The long jobs a bot runs on request: mining the selected box, pulling a
//! stasis chamber, depositing trash into a chest and dropping trash. The game
//! actions (walking, clicking, waiting) are the caller's; every decision and
//! every message is here.
use crate::floats::{f64_bits_le, f64_le};
use crate::handler::{whisper, whisper_line};
use crate::identity::{is_keep_name, is_trash, item_at, slot_item};
use crate::json::opt_text;
use crate::shared::{bot_event, stasis_views, BlockPos, BotCtx, Mode, Runtime, RuntimeView, Stasis, StasisView};
use crate::text::{
    decimal, decimal_digits, decimal_text, ends_with, eq_ignore_ascii_case, eq_ignoring_ascii_case,
    parse_unsigned, parse_unsigned_text, push_decimal_digits, same_text, text_ends_with,
};
use vstd::prelude::*;

verus! {

impl BotCtx {
    /// Logs `text` for the mod and returns the line that whispers it to the
    /// player who started the job, when there is one.
    pub fn report(&mut self, text: &str) -> (r: Option<String>)
        ensures
            final(self).events() == old(self).events().push(
                bot_event(old(self).bot_id(), "log"@, "text"@, text@),
            ),
            final(self).state() == old(self).state(),
            final(self).bot_id() == old(self).bot_id(),
            opt_text(r) == whisper_line(old(self).state().command_sender, text@),
    {
        let who = match &self.rt.command_sender {
            Some(s) => Some(s.as_str()),
            None => None,
        };
        let line = whisper(who, text);
        self.log(text);
        line
    }
}

/// The box between the two corners of a mining selection.
#[derive(Debug, Clone, Copy, PartialEq, Eq, Structural)]
pub struct MineBox {
    pub min_x: i32,
    pub max_x: i32,
    pub min_y: i32,
    pub max_y: i32,
    pub min_z: i32,
    pub max_z: i32,
}

/// The box spanned by two corners, each axis from its lower to its higher value.
pub open spec fn box_of(a: BlockPos, b: BlockPos) -> MineBox {
    MineBox {
        min_x: if a.x <= b.x {
            a.x
        } else {
            b.x
        },
        max_x: if a.x <= b.x {
            b.x
        } else {
            a.x
        },
        min_y: if a.y <= b.y {
            a.y
        } else {
            b.y
        },
        max_y: if a.y <= b.y {
            b.y
        } else {
            a.y
        },
        min_z: if a.z <= b.z {
            a.z
        } else {
            b.z
        },
        max_z: if a.z <= b.z {
            b.z
        } else {
            a.z
        },
    }
}

/// Whether the block `p` lies in the box.
pub open spec fn in_box(bx: MineBox, p: BlockPos) -> bool {
    bx.min_x <= p.x <= bx.max_x && bx.min_y <= p.y <= bx.max_y && bx.min_z <= p.z <= bx.max_z
}

/// Whether the box is well formed: each lower bound at most its upper bound.
pub open spec fn box_ok(bx: MineBox) -> bool {
    bx.min_x <= bx.max_x && bx.min_y <= bx.max_y && bx.min_z <= bx.max_z
}

/// The order blocks are mined in: the top layer first; within a layer by
/// increasing x, then by increasing z.
pub open spec fn mined_before(p: BlockPos, q: BlockPos) -> bool {
    p.y > q.y || (p.y == q.y && (p.x < q.x || (p.x == q.x && p.z < q.z)))
}

/// Law: the box spanned by two corners holds exactly the blocks lying
/// between the corners on every axis, whichever corner is lower.
pub proof fn lemma_box_holds_what_lies_between(a: BlockPos, b: BlockPos, p: BlockPos)
    ensures
        ({
            let bx = box_of(a, b);
            (bx.min_x <= p.x <= bx.max_x && bx.min_y <= p.y <= bx.max_y && bx.min_z <= p.z
                <= bx.max_z) <==> ((a.x <= p.x <= b.x || b.x <= p.x <= a.x) && (a.y <= p.y <= b.y
                || b.y <= p.y <= a.y) && (a.z <= p.z <= b.z || b.z <= p.z <= a.z))
        }),
{
}

/// The box between the two selected corners.
pub fn mine_box(a: BlockPos, b: BlockPos) -> (r: MineBox)
    ensures
        r == box_of(a, b),
        forall|p: BlockPos|
            #![trigger in_box(r, p)]
            in_box(r, p) <==> ((a.x <= p.x <= b.x || b.x <= p.x <= a.x) && (a.y <= p.y <= b.y
                || b.y <= p.y <= a.y) && (a.z <= p.z <= b.z || b.z <= p.z <= a.z)),
        box_ok(r),
{
    MineBox {
        min_x: if a.x <= b.x {
            a.x
        } else {
            b.x
        },
        max_x: if a.x <= b.x {
            b.x
        } else {
            a.x
        },
        min_y: if a.y <= b.y {
            a.y
        } else {
            b.y
        },
        max_y: if a.y <= b.y {
            b.y
        } else {
            a.y
        },
        min_z: if a.z <= b.z {
            a.z
        } else {
            b.z
        },
        max_z: if a.z <= b.z {
            b.z
        } else {
            a.z
        },
    }
}

/// The first block mined in a box: every other block of the box comes after it.
pub fn first_mine_position(bx: MineBox) -> (r: BlockPos)
    requires
        box_ok(bx),
    ensures
        in_box(bx, r),
        forall|q: BlockPos| in_box(bx, q) && q != r ==> mined_before(r, q),
{
    BlockPos { x: bx.min_x, y: bx.max_y, z: bx.min_z }
}

/// The block mined right after `p`: the next one in mining order, with no
/// block of the box between them; `None` once `p` was the last.
pub fn next_mine_position(bx: MineBox, p: BlockPos) -> (r: Option<BlockPos>)
    requires
        in_box(bx, p),
    ensures
        match r {
            Some(q) => in_box(bx, q) && mined_before(p, q) && forall|s: BlockPos|
                in_box(bx, s) && mined_before(p, s) ==> s == q || mined_before(q, s),
            None => forall|s: BlockPos| in_box(bx, s) ==> !mined_before(p, s),
        },
{
    if p.z < bx.max_z {
        Some(BlockPos { x: p.x, y: p.y, z: p.z + 1 })
    } else if p.x < bx.max_x {
        Some(BlockPos { x: p.x + 1, y: p.y, z: bx.min_z })
    } else if p.y > bx.min_y {
        Some(BlockPos { x: bx.min_x, y: p.y - 1, z: bx.min_z })
    } else {
        None
    }
}

/// Mining cannot start: no job runs.
#[verifier::opaque]
pub open spec fn mining_stopped(rt: RuntimeView) -> RuntimeView {
    RuntimeView { mining_active: false, ..rt }
}

/// Mining is over: no job runs, and a bot still in mining mode goes idle.
#[verifier::opaque]
pub open spec fn mining_ended(rt: RuntimeView) -> RuntimeView {
    RuntimeView {
        mining_active: false,
        mode: if rt.mode == Mode::Mine {
            Mode::Idle
        } else {
            rt.mode
        },
        ..rt
    }
}

fn stop_mining(rt: &mut Runtime)
    ensures
        final(rt)@ == mining_stopped(old(rt)@),
{
    reveal(mining_stopped);
    rt.mining_active = false;
}

fn end_mining(rt: &mut Runtime)
    ensures
        final(rt)@ == mining_ended(old(rt)@),
{
    reveal(mining_ended);
    rt.mining_active = false;
    if rt.mode == Mode::Mine {
        rt.mode = Mode::Idle;
    }
}

impl BotCtx {
    /// Starts a mining job. Without both corners selected the job ends at
    /// once, silently; otherwise it reports "Mining started." and returns the
    /// box to mine with the whisper for the report.
    pub fn start_mining(&mut self) -> (r: Option<(MineBox, Option<String>)>)
        ensures
            final(self).bot_id() == old(self).bot_id(),
            match (old(self).state().sel1, old(self).state().sel2) {
                (Some(a), Some(b)) => {
                    &&& final(self).state() == old(self).state()
                    &&& final(self).events() == old(self).events().push(
                        bot_event(old(self).bot_id(), "log"@, "text"@, "Mining started."@),
                    )
                    &&& match r {
                        Some((bx, line)) => bx == box_of(a, b) && opt_text(line) == whisper_line(
                            old(self).state().command_sender,
                            "Mining started."@,
                        ),
                        None => false,
                    }
                },
                _ => r is None && final(self).state() == mining_stopped(old(self).state())
                    && final(self).events() == old(self).events(),
            },
    {
        match (self.rt.sel1, self.rt.sel2) {
            (Some(a), Some(b)) => {
                let line = self.report("Mining started.");
                Some((mine_box(a, b), line))
            },
            _ => {
                stop_mining(&mut self.rt);
                None
            },
        }
    }

    /// Whether the mining job goes on: only while the bot is in mining mode.
    pub fn mining_continues(&self) -> (r: bool)
        ensures
            r == (self.state().mode == Mode::Mine),
    {
        self.rt.mode == Mode::Mine
    }

    /// Ends a mining job: reports "Mining finished.", no job runs any more,
    /// and a bot still in mining mode goes idle.
    pub fn finish_mining(&mut self) -> (r: Option<String>)
        ensures
            final(self).bot_id() == old(self).bot_id(),
            final(self).state() == mining_ended(old(self).state()),
            final(self).events() == old(self).events().push(
                bot_event(old(self).bot_id(), "log"@, "text"@, "Mining finished."@),
            ),
            opt_text(r) == whisper_line(old(self).state().command_sender, "Mining finished."@),
    {
        let line = self.report("Mining finished.");
        end_mining(&mut self.rt);
        line
    }
}

/// A chamber found by a world scan: the pearl's block and its thrower, if known.
pub open spec fn found_views(found: Seq<(BlockPos, Option<String>)>) -> Seq<(BlockPos, Option<Seq<char>>)> {
    found.map_values(|f: (BlockPos, Option<String>)| (f.0, opt_text(f.1)))
}

/// Entry `k` is the first chamber of `list` at `pos`.
pub open spec fn is_first_at(list: Seq<StasisView>, pos: BlockPos, k: int) -> bool {
    0 <= k < list.len() && list[k].pos == pos && forall|j: int| 0 <= j < k ==> list[j].pos != pos
}

/// The id the chamber at `pos` already has in `list` (the first one there).
pub open spec fn known_id(list: Seq<StasisView>, pos: BlockPos) -> Option<u32> {
    if exists|k: int| is_first_at(list, pos, k) {
        Some(list[choose|k: int| is_first_at(list, pos, k)].id)
    } else {
        None
    }
}

/// The first `n` chambers found, each with its id: a chamber already known
/// (at the same block) keeps its id, a new one takes the next free id. Also
/// gives the next free id afterwards.
pub open spec fn assign_ids(
    list: Seq<StasisView>,
    found: Seq<(BlockPos, Option<Seq<char>>)>,
    n: int,
    next: nat,
) -> (Seq<StasisView>, nat)
    decreases n,
{
    if n <= 0 {
        (Seq::empty(), next)
    } else {
        let (done, free) = assign_ids(list, found, n - 1, next);
        let f = found[n - 1];
        match known_id(list, f.0) {
            Some(id) => (done.push(StasisView { id, pos: f.0, owner: f.1 }), free),
            None => (done.push(StasisView { id: free as u32, pos: f.0, owner: f.1 }), free + 1),
        }
    }
}

/// The runtime after a scan found the chambers `found`: the list is replaced
/// by them, in the order found, with ids as `assign_ids` gives them.
#[verifier::opaque]
pub open spec fn refreshed(rt: RuntimeView, found: Seq<(BlockPos, Option<Seq<char>>)>) -> RuntimeView {
    let (list, next) = assign_ids(rt.stasis, found, found.len() as int, rt.next_stasis_id as nat);
    RuntimeView { stasis: list, next_stasis_id: next as u32, ..rt }
}

/// Ids advance by at most one per chamber found.
pub proof fn lemma_assign_ids_bound(
    list: Seq<StasisView>,
    found: Seq<(BlockPos, Option<Seq<char>>)>,
    n: int,
    next: nat,
)
    requires
        0 <= n <= found.len(),
    ensures
        assign_ids(list, found, n, next).0.len() == n,
        next <= assign_ids(list, found, n, next).1 <= next + n,
    decreases n,
{
    if n > 0 {
        lemma_assign_ids_bound(list, found, n - 1, next);
    }
}

/// The first `m` entries of a longer assignment are the assignment of the
/// first `m` chambers, and the next free id only grows.
pub proof fn lemma_assign_ids_stable(
    list: Seq<StasisView>,
    found: Seq<(BlockPos, Option<Seq<char>>)>,
    m: int,
    n: int,
    next: nat,
)
    requires
        0 <= m <= n <= found.len(),
    ensures
        assign_ids(list, found, n, next).0.subrange(0, m) == assign_ids(list, found, m, next).0,
        assign_ids(list, found, m, next).1 <= assign_ids(list, found, n, next).1,
    decreases n,
{
    lemma_assign_ids_bound(list, found, n, next);
    lemma_assign_ids_bound(list, found, m, next);
    if m < n {
        lemma_assign_ids_stable(list, found, m, n - 1, next);
        lemma_assign_ids_bound(list, found, n - 1, next);
        assert(assign_ids(list, found, n, next).0.subrange(0, m) =~= assign_ids(
            list,
            found,
            n - 1,
            next,
        ).0.subrange(0, m));
    } else {
        assert(assign_ids(list, found, n, next).0.subrange(0, n) =~= assign_ids(
            list,
            found,
            n,
            next,
        ).0);
    }
}

/// The ids a refresh hands out: a chamber found at a block the list already
/// had keeps the id it had there; a new chamber gets an id no lower than the
/// old next free id and below the new one, and new chambers found later get
/// higher ids. So, when every id of the list was below its next free id,
/// no new chamber ever takes an id the list had.
pub proof fn lemma_refresh_ids(
    list: Seq<StasisView>,
    found: Seq<(BlockPos, Option<Seq<char>>)>,
    next: nat,
    i: int,
    j: int,
)
    requires
        0 <= i < found.len(),
        0 <= j < found.len(),
        next + found.len() <= u32::MAX,
    ensures
        ({
            let (out, free) = assign_ids(list, found, found.len() as int, next);
            &&& out[i].pos == found[i].0 && out[i].owner == found[i].1
            &&& known_id(list, found[i].0) matches Some(id) ==> out[i].id == id
            &&& known_id(list, found[i].0) is None ==> next <= out[i].id < free
            &&& known_id(list, found[i].0) is None && known_id(list, found[j].0) is None && i < j
                ==> out[i].id < out[j].id
            &&& known_id(list, found[i].0) is None && (forall|k: int|
                0 <= k < list.len() ==> list[k].id < next) ==> forall|k: int|
                0 <= k < list.len() ==> list[k].id != out[i].id
        }),
{
    let n = found.len() as int;
    lemma_assign_ids_bound(list, found, n, next);
    lemma_assign_ids_bound(list, found, i, next);
    lemma_assign_ids_bound(list, found, i + 1, next);
    lemma_assign_ids_bound(list, found, j, next);
    lemma_assign_ids_bound(list, found, j + 1, next);
    lemma_assign_ids_stable(list, found, i + 1, n, next);
    lemma_assign_ids_stable(list, found, j + 1, n, next);
    assert(assign_ids(list, found, n, next).0[i] == assign_ids(list, found, i + 1, next).0[i]) by {
        assert(assign_ids(list, found, n, next).0.subrange(0, i + 1)[i] == assign_ids(
            list,
            found,
            n,
            next,
        ).0[i]);
    }
    assert(assign_ids(list, found, n, next).0[j] == assign_ids(list, found, j + 1, next).0[j]) by {
        assert(assign_ids(list, found, n, next).0.subrange(0, j + 1)[j] == assign_ids(
            list,
            found,
            n,
            next,
        ).0[j]);
    }
    if i < j {
        lemma_assign_ids_stable(list, found, i + 1, j, next);
    }
}

/// Law: a refresh keeps every chamber's id below the next free id, so ids
/// handed out later never collide with ids in use.
pub proof fn lemma_refresh_ids_below_next(rt: RuntimeView, found: Seq<(BlockPos, Option<Seq<char>>)>)
    requires
        forall|k: int| 0 <= k < rt.stasis.len() ==> rt.stasis[k].id < rt.next_stasis_id,
        rt.next_stasis_id + found.len() <= u32::MAX,
    ensures
        forall|k: int|
            0 <= k < refreshed(rt, found).stasis.len() ==> refreshed(rt, found).stasis[k].id
                < refreshed(rt, found).next_stasis_id,
{
    reveal(refreshed);
    let list = rt.stasis;
    let next = rt.next_stasis_id as nat;
    let n = found.len() as int;
    lemma_assign_ids_bound(list, found, n, next);
    let (out, free) = assign_ids(list, found, n, next);
    assert forall|k: int| 0 <= k < out.len() implies out[k].id < free as u32 by {
        lemma_refresh_ids(list, found, next, k, k);
        if let Some(id) = known_id(list, found[k].0) {
            let c = choose|x: int| is_first_at(list, found[k].0, x);
            assert(is_first_at(list, found[k].0, c));
            assert(list[c].id < next);
        }
    }
}

/// The id the first chamber at `pos` in `list` has.
fn find_known_id(list: &Vec<Stasis>, pos: BlockPos) -> (r: Option<u32>)
    ensures
        r == known_id(stasis_views(list@), pos),
{
    let ghost views = stasis_views(list@);
    proof {
        reveal(stasis_views);
    }
    let mut k: usize = 0;
    while k < list.len()
        invariant
            k <= list@.len(),
            views == stasis_views(list@),
            views.len() == list@.len(),
            forall|j: int| 0 <= j < list@.len() ==> views[j] == list@[j]@,
            forall|j: int| 0 <= j < k ==> views[j].pos != pos,
        decreases list@.len() - k,
    {
        if list[k].pos == pos {
            proof {
                assert(is_first_at(views, pos, k as int));
                let c = choose|x: int| is_first_at(views, pos, x);
                if c < k {
                    assert(views[c].pos != pos);
                }
                if c > k {
                    assert(views[k as int].pos != pos);
                }
            }
            return Some(list[k].id);
        }
        k = k + 1;
    }
    None
}

/// Replaces the chamber list by what a scan found (see `refreshed`).
pub fn refresh_stasis(rt: &mut Runtime, found: Vec<(BlockPos, Option<String>)>)
    requires
        old(rt).next_stasis_id + found@.len() <= u32::MAX,
    ensures
        final(rt)@ == refreshed(old(rt)@, found_views(found@)),
        final(rt)@.command_sender == old(rt)@.command_sender,
{
    let ghost old_list = old(rt)@.stasis;
    let ghost fv = found_views(found@);
    let ghost next0 = old(rt).next_stasis_id as nat;
    let mut list: Vec<Stasis> = Vec::new();
    let mut next = rt.next_stasis_id;
    let mut i: usize = 0;
    proof {
        reveal(stasis_views);
        assert(stasis_views(list@) =~= assign_ids(old_list, fv, 0, next0).0);
    }
    while i < found.len()
        invariant
            i <= found@.len(),
            fv == found_views(found@),
            old_list == stasis_views(rt.stasis@),
            next0 + found@.len() <= u32::MAX,
            stasis_views(list@) == assign_ids(old_list, fv, i as int, next0).0,
            next as nat == assign_ids(old_list, fv, i as int, next0).1,
            next <= next0 + i,
        decreases found@.len() - i,
    {
        let pos = found[i].0;
        let owner = match &found[i].1 {
            Some(o) => Some(o.clone()),
            None => None,
        };
        proof {
            lemma_assign_ids_bound(old_list, fv, i as int, next0);
        }
        let id = match find_known_id(&rt.stasis, pos) {
            Some(id) => id,
            None => {
                let id = next;
                next = next + 1;
                id
            },
        };
        let ghost before = list@;
        list.push(Stasis { id, pos, owner });
        proof {
            reveal(stasis_views);
            assert(stasis_views(list@) =~= stasis_views(before).push(list@[i as int]@));
        }
        i = i + 1;
    }
    proof {
        reveal(refreshed);
        assert(fv.len() == found@.len());
    }
    rt.stasis = list;
    rt.next_stasis_id = next;
    assert(rt@.command_sender == old(rt)@.command_sender);
}

/// Entry `k` is the first chamber of `list` that `p` accepts.
pub open spec fn is_first_match(list: Seq<StasisView>, p: spec_fn(StasisView) -> bool, k: int) -> bool {
    0 <= k < list.len() && p(list[k]) && forall|j: int| 0 <= j < k ==> !p(list[j])
}

/// The first chamber of `list` that `p` accepts.
pub open spec fn first_match(list: Seq<StasisView>, p: spec_fn(StasisView) -> bool) -> Option<int> {
    if exists|k: int| is_first_match(list, p, k) {
        Some(choose|k: int| is_first_match(list, p, k))
    } else {
        None
    }
}

/// Only one entry is the first match.
pub proof fn lemma_first_match_unique(list: Seq<StasisView>, p: spec_fn(StasisView) -> bool, a: int, b: int)
    requires
        is_first_match(list, p, a),
        is_first_match(list, p, b),
    ensures
        a == b,
{
    if a < b {
        assert(!p(list[a]));
    }
    if b < a {
        assert(!p(list[b]));
    }
}

/// Chambers with the id `id`.
pub open spec fn has_id(id: nat) -> spec_fn(StasisView) -> bool {
    |s: StasisView| s.id == id
}

/// Chambers whose pearl was thrown by `name` (ignoring ASCII case).
pub open spec fn thrown_by(name: Seq<char>) -> spec_fn(StasisView) -> bool {
    |s: StasisView|
        match s.owner {
            Some(o) => eq_ignoring_ascii_case(o, name),
            None => false,
        }
}

/// The chamber a `!pull` argument selects: `health_low` the first one, a
/// number (as `u32` parses it) the first with that id, anything else the first
/// whose pearl that player threw.
pub open spec fn chosen_stasis(list: Seq<StasisView>, arg: Seq<char>) -> Option<int> {
    if arg == "health_low"@ {
        if list.len() > 0 {
            Some(0)
        } else {
            None
        }
    } else {
        match parse_unsigned(arg, u32::MAX as nat) {
            Some(id) => first_match(list, has_id(id)),
            None => first_match(list, thrown_by(arg)),
        }
    }
}

/// Index of the chamber a `!pull` argument selects (see `chosen_stasis`).
pub fn choose_stasis(list: &Vec<Stasis>, arg: &str) -> (r: Option<usize>)
    ensures
        match chosen_stasis(stasis_views(list@), arg@) {
            Some(k) => r == Some(k as usize),
            None => r is None,
        },
{
    let ghost views = stasis_views(list@);
    proof {
        reveal(stasis_views);
    }
    if same_text(arg, "health_low") {
        return if list.len() > 0 {
            Some(0)
        } else {
            None
        };
    }
    let wanted = parse_unsigned_text(arg, 0xFFFF_FFFF);
    let ghost p = match parse_unsigned(arg@, u32::MAX as nat) {
        Some(id) => has_id(id),
        None => thrown_by(arg@),
    };
    let mut k: usize = 0;
    while k < list.len()
        invariant
            k <= list@.len(),
            views == stasis_views(list@),
            views.len() == list@.len(),
            forall|j: int| 0 <= j < list@.len() ==> views[j] == list@[j]@,
            forall|j: int| 0 <= j < k ==> !p(views[j]),
            arg@ != "health_low"@,
            p == (match parse_unsigned(arg@, u32::MAX as nat) {
                Some(id) => has_id(id),
                None => thrown_by(arg@),
            }),
            match parse_unsigned(arg@, u32::MAX as nat) {
                None => wanted is None,
                Some(v) => wanted == Some(v as u64),
            },
        decreases list@.len() - k,
    {
        let hit = match wanted {
            Some(id) => list[k].id as u64 == id,
            None => match &list[k].owner {
                Some(o) => eq_ignore_ascii_case(o.as_str(), arg),
                None => false,
            },
        };
        if hit {
            proof {
                assert(views[k as int] == list@[k as int]@);
                assert(p(views[k as int]));
                assert(is_first_match(views, p, k as int));
                assert(arg@ != "health_low"@);
                assert(chosen_stasis(views, arg@) == first_match(views, p));
                lemma_first_match_unique(views, p, k as int, choose|x: int| is_first_match(views, p, x));
            }
            return Some(k);
        }
        k = k + 1;
    }
    None
}

/// The pull job is over.
#[verifier::opaque]
pub open spec fn pull_ended(rt: RuntimeView) -> RuntimeView {
    RuntimeView { pull_active: false, ..rt }
}

fn end_pull(rt: &mut Runtime)
    ensures
        final(rt)@ == pull_ended(old(rt)@),
{
    reveal(pull_ended);
    rt.pull_active = false;
}

/// `Stasis <id> at <x> <y> <z> (owner: <name>)`, the name `unknown` when not known.
pub open spec fn stasis_line(s: StasisView) -> Seq<char> {
    "Stasis "@ + decimal(s.id as int) + " at "@ + decimal(s.pos.x as int) + " "@ + decimal(
        s.pos.y as int,
    ) + " "@ + decimal(s.pos.z as int) + " (owner: "@ + match s.owner {
        Some(o) => o,
        None => "unknown"@,
    } + ")"@
}

/// `Found <n> stasis chamber(s). Use !pull <id> or !pull <owner>.`
pub open spec fn found_message(n: nat) -> Seq<char> {
    "Found "@ + decimal_digits(n) + " stasis chamber(s). Use !pull <id> or !pull <owner>."@
}

fn stasis_text(s: &Stasis) -> (r: String)
    ensures
        r@ == stasis_line(s@),
{
    let id = decimal_text(s.id as i64);
    let x = decimal_text(s.pos.x as i64);
    let y = decimal_text(s.pos.y as i64);
    let z = decimal_text(s.pos.z as i64);
    let owner = match &s.owner {
        Some(o) => o.as_str(),
        None => "unknown",
    };
    String::from_str("Stasis ").concat(id.as_str()).concat(" at ").concat(x.as_str()).concat(
        " ",
    ).concat(y.as_str()).concat(" ").concat(z.as_str()).concat(" (owner: ").concat(owner).concat(
        ")",
    )
}

/// One line per chamber, as `stasis_line` gives it.
fn stasis_lines(list: &Vec<Stasis>) -> (r: Vec<String>)
    ensures
        r@.map_values(|t: String| t@) == stasis_views(list@).map_values(|s: StasisView| stasis_line(s)),
{
    proof {
        reveal(stasis_views);
    }
    let mut out: Vec<String> = Vec::new();
    let mut i: usize = 0;
    while i < list.len()
        invariant
            i <= list@.len(),
            out@.len() == i,
            forall|j: int| 0 <= j < i ==> out@[j]@ == stasis_line(list@[j]@),
        decreases list@.len() - i,
    {
        out.push(stasis_text(&list[i]));
        i = i + 1;
    }
    assert(out@.map_values(|t: String| t@) =~= stasis_views(list@).map_values(
        |s: StasisView| stasis_line(s),
    ));
    out
}

impl BotCtx {
    /// Logs each text, in order.
    pub fn log_all(&mut self, texts: &Vec<String>)
        ensures
            final(self).events() == old(self).events() + logs_of(
                old(self).bot_id(),
                texts@.map_values(|t: String| t@),
            ),
            final(self).state() == old(self).state(),
            final(self).bot_id() == old(self).bot_id(),
    {
        let ghost id = self.bot_id();
        let ghost before = self.events();
        let mut i: usize = 0;
        while i < texts.len()
            invariant
                i <= texts@.len(),
                self.bot_id() == id,
                self.state() == old(self).state(),
                self.events() == before + logs_of(
                    id,
                    texts@.subrange(0, i as int).map_values(|t: String| t@),
                ),
            decreases texts@.len() - i,
        {
            self.log(texts[i].as_str());
            proof {
                assert(logs_of(id, texts@.subrange(0, i + 1).map_values(|t: String| t@)) =~= logs_of(
                    id,
                    texts@.subrange(0, i as int).map_values(|t: String| t@),
                ).push(bot_event(id, "log"@, "text"@, texts@[i as int]@)));
            }
            i = i + 1;
        }
        assert(texts@.subrange(0, texts@.len() as int) =~= texts@);
    }
}

/// How a pull job goes on after it looked for chambers.
pub enum PullStart {
    /// The job is over; the whisper for its last report, if any.
    Done(Option<String>),
    /// Pull the chamber whose pearl is in this block.
    Pull(BlockPos),
}

/// One log event of the bot `id` for each text.
pub open spec fn logs_of(id: Seq<char>, texts: Seq<Seq<char>>) -> Seq<Seq<char>> {
    texts.map_values(|t: Seq<char>| bot_event(id, "log"@, "text"@, t))
}

impl BotCtx {
    /// Starts a pull job with the argument of `!pull` and the chambers a scan
    /// just found. The chamber list is refreshed first. With no chamber the job
    /// reports "No stasis chamber found nearby."; with the argument `manual` it
    /// logs one line per chamber and reports how many there are; when the
    /// argument selects no chamber it reports "That stasis was not found.".
    /// Each of these ends the job. Otherwise the chamber to pull is returned.
    pub fn begin_pull(&mut self, arg: &str, found: Vec<(BlockPos, Option<String>)>) -> (r: PullStart)
        requires
            old(self).state().next_stasis_id + found@.len() <= u32::MAX,
        ensures
            final(self).bot_id() == old(self).bot_id(),
            ({
                let rt = refreshed(old(self).state(), found_views(found@));
                let list = rt.stasis;
                let id = old(self).bot_id();
                let sender = old(self).state().command_sender;
                if list.len() == 0 {
                    let msg = "No stasis chamber found nearby."@;
                    &&& final(self).state() == pull_ended(rt)
                    &&& final(self).events() == old(self).events().push(
                        bot_event(id, "log"@, "text"@, msg),
                    )
                    &&& r matches PullStart::Done(w) && opt_text(w) == whisper_line(sender, msg)
                } else if arg@ == "manual"@ {
                    let msg = found_message(list.len());
                    &&& final(self).state() == pull_ended(rt)
                    &&& final(self).events() == old(self).events() + logs_of(
                        id,
                        list.map_values(|s: StasisView| stasis_line(s)),
                    ) + seq![bot_event(id, "log"@, "text"@, msg)]
                    &&& r matches PullStart::Done(w) && opt_text(w) == whisper_line(sender, msg)
                } else {
                    match chosen_stasis(list, arg@) {
                        None => {
                            let msg = "That stasis was not found."@;
                            &&& final(self).state() == pull_ended(rt)
                            &&& final(self).events() == old(self).events().push(
                                bot_event(id, "log"@, "text"@, msg),
                            )
                            &&& r matches PullStart::Done(w) && opt_text(w) == whisper_line(
                                sender,
                                msg,
                            )
                        },
                        Some(k) => {
                            &&& final(self).state() == rt
                            &&& final(self).events() == old(self).events()
                            &&& r == PullStart::Pull(list[k].pos)
                        },
                    }
                }
            }),
    {
        refresh_stasis(&mut self.rt, found);
        let ghost rt = self.state();
        let ghost before = self.events();
        let ghost id = self.bot_id();
        proof {
            reveal(stasis_views);
        }
        let n = self.rt.stasis.len();
        if n == 0 {
            let line = self.report("No stasis chamber found nearby.");
            end_pull(&mut self.rt);
            return PullStart::Done(line);
        }
        if same_text(arg, "manual") {
            let lines = stasis_lines(&self.rt.stasis);
            self.log_all(&lines);
            let mut msg = String::from_str("Found ");
            push_decimal_digits(&mut msg, n as u64);
            let msg = msg.concat(" stasis chamber(s). Use !pull <id> or !pull <owner>.");
            let ghost listed = self.events();
            let line = self.report(msg.as_str());
            end_pull(&mut self.rt);
            proof {
                assert(msg@ == found_message(rt.stasis.len()));
            }
            return PullStart::Done(line);
        }
        match choose_stasis(&self.rt.stasis, arg) {
            Some(k) => PullStart::Pull(self.rt.stasis[k].pos),
            None => {
                let line = self.report("That stasis was not found.");
                end_pull(&mut self.rt);
                PullStart::Done(line)
            },
        }
    }
}

/// How many times the bot tries a trapdoor before it gives up.
pub const PULL_ATTEMPTS: u32 = 5;

/// How a pull job goes on after one attempt.
pub enum PullStep {
    /// The pearl is gone: the pull worked. The whisper for the report.
    Pulled(Option<String>),
    /// The pearl is still there: try again.
    Retry,
    /// The pearl is still there after the last attempt. The whisper for the report.
    GaveUp(Option<String>),
}

/// `Pull attempt <n> did not work, retrying...`
pub open spec fn retry_message(n: nat) -> Seq<char> {
    "Pull attempt "@ + decimal_digits(n) + " did not work, retrying..."@
}

/// Whether a chamber of `list` has its pearl in the block `pearl`.
pub open spec fn pearl_still_there(list: Seq<StasisView>, pearl: BlockPos) -> bool {
    exists|k: int| 0 <= k < list.len() && list[k].pos == pearl
}

fn still_there(list: &Vec<Stasis>, pearl: BlockPos) -> (r: bool)
    ensures
        r == pearl_still_there(stasis_views(list@), pearl),
{
    proof {
        reveal(stasis_views);
    }
    let mut k: usize = 0;
    while k < list.len()
        invariant
            k <= list@.len(),
            stasis_views(list@).len() == list@.len(),
            forall|j: int| 0 <= j < list@.len() ==> stasis_views(list@)[j] == list@[j]@,
            forall|j: int| 0 <= j < k ==> stasis_views(list@)[j].pos != pearl,
        decreases list@.len() - k,
    {
        if list[k].pos == pearl {
            assert(stasis_views(list@)[k as int].pos == pearl);
            return true;
        }
        k = k + 1;
    }
    false
}

impl BotCtx {
    /// No trapdoor next to the chosen pearl: the job reports it and ends.
    pub fn no_trapdoor(&mut self) -> (r: Option<String>)
        ensures
            final(self).bot_id() == old(self).bot_id(),
            final(self).state() == pull_ended(old(self).state()),
            final(self).events() == old(self).events().push(
                bot_event(
                    old(self).bot_id(),
                    "log"@,
                    "text"@,
                    "No trapdoor or lever found next to that pearl."@,
                ),
            ),
            opt_text(r) == whisper_line(
                old(self).state().command_sender,
                "No trapdoor or lever found next to that pearl."@,
            ),
    {
        let line = self.report("No trapdoor or lever found next to that pearl.");
        end_pull(&mut self.rt);
        line
    }

    /// After attempt number `attempt` (from 0) at the trapdoor, with the
    /// chambers a new scan found. The chamber list is refreshed; when no
    /// chamber is left in the pearl's block the pull worked, the job reports
    /// "Pulled successfully." and ends. Otherwise the attempt is logged as
    /// failed, and after the last of `PULL_ATTEMPTS` attempts the job reports
    /// "Could not pull after several attempts." and ends.
    pub fn after_pull_attempt(
        &mut self,
        pearl: BlockPos,
        attempt: u32,
        found: Vec<(BlockPos, Option<String>)>,
    ) -> (r: PullStep)
        requires
            attempt < PULL_ATTEMPTS,
            old(self).state().next_stasis_id + found@.len() <= u32::MAX,
        ensures
            final(self).bot_id() == old(self).bot_id(),
            ({
                let rt = refreshed(old(self).state(), found_views(found@));
                let id = old(self).bot_id();
                let sender = old(self).state().command_sender;
                let failed = retry_message((attempt + 1) as nat);
                if !pearl_still_there(rt.stasis, pearl) {
                    &&& final(self).state() == pull_ended(rt)
                    &&& final(self).events() == old(self).events().push(
                        bot_event(id, "log"@, "text"@, "Pulled successfully."@),
                    )
                    &&& r matches PullStep::Pulled(w) && opt_text(w) == whisper_line(
                        sender,
                        "Pulled successfully."@,
                    )
                } else if attempt + 1 < PULL_ATTEMPTS {
                    &&& final(self).state() == rt
                    &&& final(self).events() == old(self).events().push(
                        bot_event(id, "log"@, "text"@, failed),
                    )
                    &&& r is Retry
                } else {
                    let msg = "Could not pull after several attempts."@;
                    &&& final(self).state() == pull_ended(rt)
                    &&& final(self).events() == old(self).events().push(
                        bot_event(id, "log"@, "text"@, failed),
                    ).push(bot_event(id, "log"@, "text"@, msg))
                    &&& r matches PullStep::GaveUp(w) && opt_text(w) == whisper_line(sender, msg)
                }
            }),
    {
        refresh_stasis(&mut self.rt, found);
        if !still_there(&self.rt.stasis, pearl) {
            let line = self.report("Pulled successfully.");
            end_pull(&mut self.rt);
            return PullStep::Pulled(line);
        }
        let mut text = String::from_str("Pull attempt ");
        push_decimal_digits(&mut text, (attempt + 1) as u64);
        let text = text.concat(" did not work, retrying...");
        self.log(text.as_str());
        if attempt + 1 < PULL_ATTEMPTS {
            PullStep::Retry
        } else {
            let line = self.report("Could not pull after several attempts.");
            end_pull(&mut self.rt);
            PullStep::GaveUp(line)
        }
    }
}

/// How many blocks around a pearl are searched for its trapdoor.
pub const TRAPDOOR_SPOTS: usize = 150;

/// The offset of search spot `i` from the pearl: x from -2 to 2, within it y
/// from -3 to 2, within it z from -2 to 2.
pub open spec fn trapdoor_offset(i: int) -> (int, int, int) {
    (i / 30 - 2, (i / 5) % 6 - 3, i % 5 - 2)
}

/// Whether every search spot around `pearl` has coordinates that fit in `i32`.
pub open spec fn spots_fit(pearl: BlockPos) -> bool {
    i32::MIN + 3 <= pearl.x && pearl.x <= i32::MAX - 2 && i32::MIN + 3 <= pearl.y && pearl.y
        <= i32::MAX - 2 && i32::MIN + 3 <= pearl.z && pearl.z <= i32::MAX - 2
}

/// Search spot `i` around `pearl`.
pub open spec fn trapdoor_spot(pearl: BlockPos, i: int) -> BlockPos {
    let o = trapdoor_offset(i);
    BlockPos { x: (pearl.x + o.0) as i32, y: (pearl.y + o.1) as i32, z: (pearl.z + o.2) as i32 }
}

/// Search spot `i` around `pearl`.
pub fn trapdoor_spot_at(pearl: BlockPos, i: usize) -> (r: BlockPos)
    requires
        i < TRAPDOOR_SPOTS,
        spots_fit(pearl),
    ensures
        r == trapdoor_spot(pearl, i as int),
{
    let dx = (i / 30) as i32 - 2;
    let dy = ((i / 5) % 6) as i32 - 3;
    let dz = (i % 5) as i32 - 2;
    BlockPos { x: pearl.x + dx, y: pearl.y + dy, z: pearl.z + dz }
}

/// The blocks searched for a pearl's trapdoor, in search order.
pub fn trapdoor_candidates(pearl: BlockPos) -> (r: Vec<BlockPos>)
    requires
        spots_fit(pearl),
    ensures
        r@.len() == TRAPDOOR_SPOTS,
        forall|i: int| 0 <= i < TRAPDOOR_SPOTS ==> r@[i] == trapdoor_spot(pearl, i),
{
    let mut out: Vec<BlockPos> = Vec::new();
    let mut i: usize = 0;
    while i < TRAPDOOR_SPOTS
        invariant
            i <= TRAPDOOR_SPOTS,
            spots_fit(pearl),
            out@.len() == i,
            forall|j: int| 0 <= j < i ==> out@[j] == trapdoor_spot(pearl, j),
        decreases TRAPDOOR_SPOTS - i,
    {
        out.push(trapdoor_spot_at(pearl, i));
        i = i + 1;
    }
    out
}

/// Whether the block id at search spot `i` names a trapdoor ("oak_trapdoor",
/// "iron_trapdoor", ...). `ids[i]` is the registry id of the block at spot
/// `i`, `None` where the world is not loaded.
pub open spec fn trapdoor_at(ids: Seq<Option<String>>, i: int) -> bool {
    match slot_item(ids, i) {
        Some(id) => ends_with(id, "trapdoor"@),
        None => false,
    }
}

/// The first search spot around a pearl that holds a trapdoor. `block_ids[i]`
/// is the registry id of the block at `trapdoor_candidates(pearl)[i]`.
pub fn find_trapdoor_near(pearl: BlockPos, block_ids: &Vec<Option<String>>) -> (r: Option<BlockPos>)
    requires
        spots_fit(pearl),
    ensures
        match r {
            Some(p) => exists|i: int|
                0 <= i < TRAPDOOR_SPOTS && trapdoor_at(block_ids@, i) && p == trapdoor_spot(pearl, i)
                    && forall|j: int| 0 <= j < i ==> !trapdoor_at(block_ids@, j),
            None => forall|j: int| 0 <= j < TRAPDOOR_SPOTS ==> !trapdoor_at(block_ids@, j),
        },
{
    let mut i: usize = 0;
    while i < TRAPDOOR_SPOTS
        invariant
            i <= TRAPDOOR_SPOTS,
            spots_fit(pearl),
            forall|j: int| 0 <= j < i ==> !trapdoor_at(block_ids@, j),
        decreases TRAPDOOR_SPOTS - i,
    {
        let hit = match item_at(block_ids, i) {
            Some(id) => text_ends_with(id, "trapdoor"),
            None => false,
        };
        if hit {
            let p = trapdoor_spot_at(pearl, i);
            assert(trapdoor_at(block_ids@, i as int));
            return Some(p);
        }
        i = i + 1;
    }
    None
}

/// Whether slot `i` holds trash.
pub open spec fn trash_at(slots: Seq<Option<String>>, i: int) -> bool {
    match slot_item(slots, i) {
        Some(n) => !is_keep_name(n),
        None => false,
    }
}

/// The slots in `start..end` that hold trash, in increasing order.
pub open spec fn trash_in(slots: Seq<Option<String>>, start: int, end: int) -> Seq<usize>
    decreases end - start,
{
    if end <= start {
        Seq::empty()
    } else if trash_at(slots, end - 1) {
        trash_in(slots, start, end - 1).push((end - 1) as usize)
    } else {
        trash_in(slots, start, end - 1)
    }
}

/// The slots in `start..end` whose items are trash, in increasing order: what
/// a deposit moves into the chest and what dropping trash throws away.
pub fn trash_slots(slots: &Vec<Option<String>>, start: usize, end: usize) -> (r: Vec<usize>)
    requires
        start <= end,
    ensures
        r@ == trash_in(slots@, start as int, end as int),
{
    let mut out: Vec<usize> = Vec::new();
    let mut i: usize = start;
    while i < end
        invariant
            start <= i <= end,
            out@ == trash_in(slots@, start as int, i as int),
        decreases end - i,
    {
        let trash = match item_at(slots, i) {
            Some(name) => is_trash(name),
            None => false,
        };
        if trash {
            out.push(i);
        }
        i = i + 1;
    }
    out
}

/// How a deposit ended.
pub enum DepositOutcome {
    /// No chest nearby.
    NoChest,
    /// The chest would not open.
    CouldNotOpen,
    /// These slots were shift-clicked into the chest, one stack each.
    Moved(Vec<usize>),
}

/// The deposit job is over.
#[verifier::opaque]
pub open spec fn deposit_ended(rt: RuntimeView) -> RuntimeView {
    RuntimeView { deposit_active: false, ..rt }
}

/// Dropping trash is over.
#[verifier::opaque]
pub open spec fn drop_trash_ended(rt: RuntimeView) -> RuntimeView {
    RuntimeView { drop_trash_active: false, ..rt }
}

fn end_deposit(rt: &mut Runtime)
    ensures
        final(rt)@ == deposit_ended(old(rt)@),
{
    reveal(deposit_ended);
    rt.deposit_active = false;
}

fn end_drop_trash(rt: &mut Runtime)
    ensures
        final(rt)@ == drop_trash_ended(old(rt)@),
{
    reveal(drop_trash_ended);
    rt.drop_trash_active = false;
}

/// What a deposit logs at its end.
pub open spec fn deposit_message(outcome: DepositOutcome) -> Seq<char> {
    match outcome {
        DepositOutcome::NoChest => "No chest found nearby."@,
        DepositOutcome::CouldNotOpen => "Could not open the chest."@,
        DepositOutcome::Moved(slots) => "Deposited "@ + decimal_digits(slots@.len()) + " item stack(s)."@,
    }
}

impl BotCtx {
    /// Ends a deposit: the job is over and its message logged. A failure is
    /// also whispered to the player who asked; the count of stacks moved is
    /// only logged.
    pub fn finish_deposit(&mut self, outcome: DepositOutcome) -> (r: Option<String>)
        ensures
            final(self).bot_id() == old(self).bot_id(),
            final(self).state() == deposit_ended(old(self).state()),
            final(self).events() == old(self).events().push(
                bot_event(old(self).bot_id(), "log"@, "text"@, deposit_message(outcome)),
            ),
            opt_text(r) == match outcome {
                DepositOutcome::Moved(_) => None,
                _ => whisper_line(old(self).state().command_sender, deposit_message(outcome)),
            },
    {
        let line = match outcome {
            DepositOutcome::NoChest => self.report("No chest found nearby."),
            DepositOutcome::CouldNotOpen => self.report("Could not open the chest."),
            DepositOutcome::Moved(slots) => {
                let mut text = String::from_str("Deposited ");
                push_decimal_digits(&mut text, slots.len() as u64);
                let text = text.concat(" item stack(s).");
                self.log(text.as_str());
                None
            },
        };
        end_deposit(&mut self.rt);
        line
    }

    /// Ends dropping trash: logs how many stacks were dropped, one for each
    /// slot thrown out.
    pub fn finish_drop_trash(&mut self, dropped: Vec<usize>)
        ensures
            final(self).bot_id() == old(self).bot_id(),
            final(self).state() == drop_trash_ended(old(self).state()),
            final(self).events() == old(self).events().push(
                bot_event(
                    old(self).bot_id(),
                    "log"@,
                    "text"@,
                    "Dropped "@ + decimal_digits(dropped@.len()) + " trash stack(s)."@,
                ),
            ),
    {
        let mut text = String::from_str("Dropped ");
        push_decimal_digits(&mut text, dropped.len() as u64);
        let text = text.concat(" trash stack(s).");
        self.log(text.as_str());
        end_drop_trash(&mut self.rt);
    }
}

/// 6.0, the health at or below which long jobs pause.
pub const CRITICAL_HEALTH: u64 = 0x4018_0000_0000_0000;

/// Whether the bot is in danger and long jobs should pause: health (the bit
/// pattern of an `f64`) at or below `CRITICAL_HEALTH`.
pub fn unsafe_now(health: u64) -> (r: bool)
    ensures
        r == f64_le(health, CRITICAL_HEALTH),
{
    f64_bits_le(health, CRITICAL_HEALTH)
}

} // verus!
