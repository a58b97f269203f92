//! What a bot decides on each game tick: which long jobs to start, when to
//! eat, when to refresh its gear and what to swap, when to report telemetry,
//! when to glance around, when to warn that it cannot see its player, and
//! the water-bucket clutch. The caller reads the world and carries out the
//! decisions.
use crate::floats::{f64_bits_le, f64_bits_lt, f64_le, f64_lt};
use crate::human::ticks;
use crate::identity::{
    armor_info, armor_of, armor_slot_index, armor_target_slot, best_armor, best_armor_in_storage,
    find_storage_slot, first_hotbar_slot, first_storage_slot, food_slot, hotbar_slot, is_shield,
    is_best_armor, is_first_storage, is_totem, item_at, lemma_best_armor_unique, slot_item,
    storage_armor_rank, ArmorSlot, ItemClass, PLAYER_OFFHAND, PLAYER_STORAGE_END,
    PLAYER_STORAGE_START,
};
use crate::json::opt_text;
use crate::shared::{bot_event, copy_opt_text, BlockPos, BotCtx, Mode, Runtime, RuntimeView};
use vstd::prelude::*;

verus! {

/// Ticks the bot holds still while it eats.
pub const EAT_DURATION_TICKS: u32 = 36;

/// Telemetry goes out every this many ticks.
pub const TELEMETRY_EVERY_TICKS: u32 = 10;

/// The least number of ticks between two anti-AFK glances.
pub const ANTI_AFK_EVERY_TICKS: u32 = 200;

/// Gear is checked every this many ticks.
pub const EQUIP_EVERY_TICKS: u32 = 20;

/// How often (in ticks, 20/s) the "I can't see you" warning may repeat.
pub const CANT_SEE_EVERY_TICKS: u32 = 100;

/// The long jobs to start on this tick.
pub struct TaskStarts {
    pub mine: bool,
    /// The argument of a stasis pull to start.
    pub pull: Option<String>,
    pub deposit: bool,
    pub drop_trash: bool,
}

/// Whether a mining job starts: in mining mode with none running.
pub open spec fn starts_mining(rt: RuntimeView) -> bool {
    rt.mode == Mode::Mine && !rt.mining_active
}

/// The pull that starts: the pending request, unless a pull already runs.
pub open spec fn starts_pull(rt: RuntimeView) -> Option<Seq<char>> {
    if rt.pull_active {
        None
    } else {
        rt.pull_request
    }
}

/// Whether a deposit starts: requested with none running.
pub open spec fn starts_deposit(rt: RuntimeView) -> bool {
    rt.deposit_request && !rt.deposit_active
}

/// Whether dropping trash starts: requested with none running.
pub open spec fn starts_drop_trash(rt: RuntimeView) -> bool {
    rt.drop_trash_request && !rt.drop_trash_active
}

/// The runtime with the job flags set: each running flag as given, and every
/// request used up.
#[verifier::opaque]
pub open spec fn with_job_flags(rt: RuntimeView, mine: bool, pull: bool, deposit: bool, drop_trash: bool) -> RuntimeView {
    RuntimeView {
        mining_active: mine,
        pull_request: None,
        pull_active: pull,
        deposit_request: false,
        deposit_active: deposit,
        drop_trash_request: false,
        drop_trash_active: drop_trash,
        ..rt
    }
}

/// The runtime once the jobs of this tick are started: each job started is
/// marked running, and every pending request is used up (a pull requested
/// while one runs is dropped).
pub open spec fn tasks_started(rt: RuntimeView) -> RuntimeView {
    with_job_flags(
        rt,
        rt.mining_active || starts_mining(rt),
        rt.pull_active || starts_pull(rt) is Some,
        rt.deposit_active || starts_deposit(rt),
        rt.drop_trash_active || starts_drop_trash(rt),
    )
}

fn set_job_flags(rt: &mut Runtime, mine: bool, pull: bool, deposit: bool, drop_trash: bool)
    ensures
        final(rt)@ == with_job_flags(old(rt)@, mine, pull, deposit, drop_trash),
{
    reveal(with_job_flags);
    rt.mining_active = mine;
    rt.pull_request = None;
    rt.pull_active = pull;
    rt.deposit_request = false;
    rt.deposit_active = deposit;
    rt.drop_trash_request = false;
    rt.drop_trash_active = drop_trash;
}

/// Starts the long jobs requested: mining when in mining mode, a pending
/// stasis pull, a deposit, dropping trash, each only when no job of its kind
/// already runs.
pub fn maybe_start_tasks(rt: &mut Runtime) -> (r: TaskStarts)
    ensures
        final(rt)@ == tasks_started(old(rt)@),
        r.mine == starts_mining(old(rt)@),
        opt_text(r.pull) == starts_pull(old(rt)@),
        r.deposit == starts_deposit(old(rt)@),
        r.drop_trash == starts_drop_trash(old(rt)@),
{
    let mine = rt.mode == Mode::Mine && !rt.mining_active;
    let deposit = rt.deposit_request && !rt.deposit_active;
    let drop_trash = rt.drop_trash_request && !rt.drop_trash_active;
    let pull = if rt.pull_active {
        None
    } else {
        copy_opt_text(&rt.pull_request)
    };
    let mining_active = rt.mining_active || mine;
    let pull_active = rt.pull_active || pull.is_some();
    let deposit_active = rt.deposit_active || deposit;
    let drop_trash_active = rt.drop_trash_active || drop_trash;
    set_job_flags(rt, mining_active, pull_active, deposit_active, drop_trash_active);
    TaskStarts { mine, pull, deposit, drop_trash }
}

/// Starting jobs never runs two of a kind: a job starts only when none of
/// its kind runs, and it runs afterwards; every request is used up; and
/// starting again right away starts nothing and changes nothing.
pub proof fn lemma_tasks_start_once(rt: RuntimeView)
    ensures
        ({
            let after = tasks_started(rt);
            &&& starts_mining(rt) ==> !rt.mining_active && after.mining_active
            &&& starts_pull(rt) is Some ==> !rt.pull_active && after.pull_active
            &&& starts_deposit(rt) ==> !rt.deposit_active && after.deposit_active
            &&& starts_drop_trash(rt) ==> !rt.drop_trash_active && after.drop_trash_active
            &&& after.pull_request is None && !after.deposit_request && !after.drop_trash_request
            &&& !starts_mining(after) && starts_pull(after) is None && !starts_deposit(after)
                && !starts_drop_trash(after)
            &&& tasks_started(after) == after
        }),
{
    reveal(with_job_flags);
}

/// A countdown: one tick less, or `period` again once it has run out. The
/// event it paces is due when it has run out.
pub open spec fn countdown(left: u32, period: u32) -> u32 {
    if left > 0 {
        (left - 1) as u32
    } else {
        period
    }
}

/// The runtime after the telemetry countdown ticked.
/// The runtime with the telemetry countdown at `v`.
#[verifier::opaque]
pub open spec fn with_telemetry_cooldown(rt: RuntimeView, v: u32) -> RuntimeView {
    RuntimeView { telemetry_cooldown: v, ..rt }
}

/// The runtime after the telemetry countdown ticked.
pub open spec fn telemetry_ticked(rt: RuntimeView) -> RuntimeView {
    with_telemetry_cooldown(rt, countdown(rt.telemetry_cooldown, TELEMETRY_EVERY_TICKS))
}

fn set_telemetry_cooldown(rt: &mut Runtime, v: u32)
    ensures
        final(rt)@ == with_telemetry_cooldown(old(rt)@, v),
{
    reveal(with_telemetry_cooldown);
    rt.telemetry_cooldown = v;
}

/// Whether telemetry is due on this tick (every `TELEMETRY_EVERY_TICKS`).
pub fn telemetry_due(rt: &mut Runtime) -> (r: bool)
    ensures
        final(rt)@ == telemetry_ticked(old(rt)@),
        r == (old(rt).telemetry_cooldown == 0),
{
    let due = rt.telemetry_cooldown == 0;
    let next = if due {
        TELEMETRY_EVERY_TICKS
    } else {
        rt.telemetry_cooldown - 1
    };
    set_telemetry_cooldown(rt, next);
    due
}

/// The runtime after the gear countdown ticked.
/// The runtime with the equip countdown at `v`.
#[verifier::opaque]
pub open spec fn with_equip_cooldown(rt: RuntimeView, v: u32) -> RuntimeView {
    RuntimeView { equip_cooldown: v, ..rt }
}

/// The runtime after the equip countdown ticked.
pub open spec fn equip_ticked(rt: RuntimeView) -> RuntimeView {
    with_equip_cooldown(rt, countdown(rt.equip_cooldown, EQUIP_EVERY_TICKS))
}

fn set_equip_cooldown(rt: &mut Runtime, v: u32)
    ensures
        final(rt)@ == with_equip_cooldown(old(rt)@, v),
{
    reveal(with_equip_cooldown);
    rt.equip_cooldown = v;
}

/// Whether the gear is checked on this tick (every `EQUIP_EVERY_TICKS`).
pub fn equip_due(rt: &mut Runtime) -> (r: bool)
    ensures
        final(rt)@ == equip_ticked(old(rt)@),
        r == (old(rt).equip_cooldown == 0),
{
    let due = rt.equip_cooldown == 0;
    let next = if due {
        EQUIP_EVERY_TICKS
    } else {
        rt.equip_cooldown - 1
    };
    set_equip_cooldown(rt, next);
    due
}

/// What eating does on a tick.
#[derive(Debug, Clone, Copy, PartialEq, Eq, Structural)]
pub enum EatStep {
    /// Still chewing: hold still.
    Chewing,
    /// Select this hotbar slot and start eating; hold still.
    Eat(u8),
    /// Nothing to do.
    Nothing,
}

/// What eating does on a tick, with the food level `food` read from the game
/// (full, 20, when it cannot be read): while a bite lasts the countdown runs
/// and the bot holds still until it ends; otherwise, at or below the eat
/// threshold, the bot eats the first food in its hotbar.
pub open spec fn eat_step(rt: RuntimeView, food: u32, slots: Seq<Option<String>>) -> EatStep {
    if rt.eat_cooldown > 0 {
        if rt.eat_cooldown - 1 > 0 {
            EatStep::Chewing
        } else {
            EatStep::Nothing
        }
    } else if food > rt.eat_threshold {
        EatStep::Nothing
    } else {
        match first_hotbar_slot(slots, ItemClass::Food) {
            Some(h) => EatStep::Eat(h),
            None => EatStep::Nothing,
        }
    }
}

/// The runtime with the eating countdown at `v`.
#[verifier::opaque]
pub open spec fn with_eat_cooldown(rt: RuntimeView, v: u32) -> RuntimeView {
    RuntimeView { eat_cooldown: v, ..rt }
}

/// The runtime after the eating decision: the bite countdown runs, and a new
/// bite starts it again.
pub open spec fn eat_ticked(rt: RuntimeView, food: u32, slots: Seq<Option<String>>) -> RuntimeView {
    if rt.eat_cooldown > 0 {
        with_eat_cooldown(rt, (rt.eat_cooldown - 1) as u32)
    } else if eat_step(rt, food, slots) is Eat {
        with_eat_cooldown(rt, EAT_DURATION_TICKS)
    } else {
        rt
    }
}

fn set_eat_cooldown(rt: &mut Runtime, v: u32)
    ensures
        final(rt)@ == with_eat_cooldown(old(rt)@, v),
{
    reveal(with_eat_cooldown);
    rt.eat_cooldown = v;
}

/// Always on: the bot eats when its food level drops to or below the eat
/// threshold, the way a player eats when the hunger bar gets low, and holds
/// still while a bite lasts.
pub fn auto_eat(rt: &mut Runtime, food: u32, slots: &Vec<Option<String>>) -> (r: EatStep)
    ensures
        r == eat_step(old(rt)@, food, slots@),
        final(rt)@ == eat_ticked(old(rt)@, food, slots@),
{
    if rt.eat_cooldown > 0 {
        let left = rt.eat_cooldown - 1;
        set_eat_cooldown(rt, left);
        return if left > 0 {
            EatStep::Chewing
        } else {
            EatStep::Nothing
        };
    }
    if food > rt.eat_threshold {
        return EatStep::Nothing;
    }
    match food_slot(slots) {
        Some(h) => {
            set_eat_cooldown(rt, EAT_DURATION_TICKS);
            EatStep::Eat(h)
        },
        None => EatStep::Nothing,
    }
}

/// The anti-AFK counter after a tick, with `extra` random ticks added to the
/// period: it counts up, and is reset when the glance is due.
#[verifier::opaque]
pub open spec fn anti_afk_ticked(rt: RuntimeView, extra: u32) -> RuntimeView {
    if rt.anti_afk + 1 >= ANTI_AFK_EVERY_TICKS + extra {
        RuntimeView { anti_afk: 0, ..rt }
    } else {
        RuntimeView { anti_afk: (rt.anti_afk + 1) as u32, ..rt }
    }
}

/// One anti-AFK tick with `extra` ticks of jitter on the period; true when
/// the bot should glance around now.
pub fn anti_afk_step(rt: &mut Runtime, extra: u32) -> (r: bool)
    requires
        old(rt).anti_afk < u32::MAX,
        extra <= u32::MAX - ANTI_AFK_EVERY_TICKS,
    ensures
        r == (old(rt).anti_afk + 1 >= ANTI_AFK_EVERY_TICKS + extra),
        final(rt)@ == anti_afk_ticked(old(rt)@, extra),
{
    reveal(anti_afk_ticked);
    let count = rt.anti_afk + 1;
    let due = count >= ANTI_AFK_EVERY_TICKS + extra;
    let next = if due {
        0
    } else {
        count
    };
    rt.anti_afk = next;
    due
}

/// One anti-AFK tick: the bot glances after a slightly random gap, 200 to
/// 240 ticks, not on an exact clock. True when it should glance now.
pub fn anti_afk(rt: &mut Runtime) -> (r: bool)
    requires
        old(rt).anti_afk < u32::MAX,
    ensures
        exists|extra: u32|
            extra <= 40 && r == (old(rt).anti_afk + 1 >= ANTI_AFK_EVERY_TICKS + extra) && final(rt)@
                == anti_afk_ticked(old(rt)@, extra),
{
    let extra = ticks(0, 40);
    anti_afk_step(rt, extra)
}

/// The player a follow/protect command tracks: the one named, otherwise the
/// owner the mod reported, and nobody when neither is known.
pub open spec fn player_to_track(explicit: Option<Seq<char>>, owner: Seq<char>) -> Option<Seq<char>> {
    match explicit {
        Some(n) => Some(n),
        None => if owner.len() == 0 {
            None
        } else {
            Some(owner)
        },
    }
}

/// The player a follow/protect command should track: the explicit target if one
/// was given, otherwise the owner the mod reported (your own Minecraft name).
/// Returns `None` only when no target was given and no owner is known yet.
pub fn tracked_name(explicit: Option<String>, owner: &str) -> (r: Option<String>)
    ensures
        opt_text(r) == player_to_track(opt_text(explicit), owner@),
{
    match explicit {
        Some(n) => Some(n),
        None => if owner.unicode_len() == 0 {
            None
        } else {
            Some(String::from_str(owner))
        },
    }
}

/// The "I can't see <name>" warning.
pub open spec fn cant_see_message(name: Seq<char>) -> Seq<char> {
    "I can't see "@ + name
        + ". Make sure the bot is on the same server as you and you're within render distance."@
}

/// The runtime after the warning countdown ticked.
/// The runtime with the cant see countdown at `v`.
#[verifier::opaque]
pub open spec fn with_cant_see_cooldown(rt: RuntimeView, v: u32) -> RuntimeView {
    RuntimeView { cant_see_cooldown: v, ..rt }
}

/// The runtime after the cant see countdown ticked.
pub open spec fn cant_see_ticked(rt: RuntimeView) -> RuntimeView {
    with_cant_see_cooldown(rt, countdown(rt.cant_see_cooldown, CANT_SEE_EVERY_TICKS))
}

fn set_cant_see_cooldown(rt: &mut Runtime, v: u32)
    ensures
        final(rt)@ == with_cant_see_cooldown(old(rt)@, v),
{
    reveal(with_cant_see_cooldown);
    rt.cant_see_cooldown = v;
}

/// The runtime once the tracked player is seen: a later loss warns at once.
#[verifier::opaque]
pub open spec fn target_seen(rt: RuntimeView) -> RuntimeView {
    RuntimeView { cant_see_cooldown: 0, ..rt }
}

fn tick_cant_see(rt: &mut Runtime) -> (r: bool)
    ensures
        final(rt)@ == cant_see_ticked(old(rt)@),
        r == (old(rt).cant_see_cooldown == 0),
{
    let due = rt.cant_see_cooldown == 0;
    let next = if due {
        CANT_SEE_EVERY_TICKS
    } else {
        rt.cant_see_cooldown - 1
    };
    set_cant_see_cooldown(rt, next);
    due
}

fn reset_cant_see(rt: &mut Runtime)
    ensures
        final(rt)@ == target_seen(old(rt)@),
{
    reveal(target_seen);
    rt.cant_see_cooldown = 0;
}

impl BotCtx {
    /// The tracked player is in sight.
    pub fn saw_target(&mut self)
        ensures
            final(self).state() == target_seen(old(self).state()),
            final(self).events() == old(self).events(),
            final(self).bot_id() == old(self).bot_id(),
    {
        reset_cant_see(&mut self.rt);
    }

    /// Warn, at most once every `CANT_SEE_EVERY_TICKS` ticks, that the bot
    /// cannot see `name`: instead of standing there silently, the bot says why
    /// nothing is happening.
    pub fn warn_cant_see(&mut self, name: &str)
        ensures
            final(self).state() == cant_see_ticked(old(self).state()),
            final(self).events() == if old(self).state().cant_see_cooldown == 0 {
                old(self).events().push(
                    bot_event(old(self).bot_id(), "error"@, "text"@, cant_see_message(name@)),
                )
            } else {
                old(self).events()
            },
            final(self).bot_id() == old(self).bot_id(),
    {
        if tick_cant_see(&mut self.rt) {
            let text = String::from_str("I can't see ").concat(name).concat(
                ". Make sure the bot is on the same server as you and you're within render distance.",
            );
            self.error(text.as_str());
        }
    }
}

/// The runtime of a bot in goto mode without a target: it goes idle.
#[verifier::opaque]
pub open spec fn goto_without_target(rt: RuntimeView) -> RuntimeView {
    if rt.goto_target is None {
        RuntimeView { mode: Mode::Idle, ..rt }
    } else {
        rt
    }
}

/// The runtime once the goto target is reached: the path goal is forgotten,
/// the target cleared, and a bot still in goto mode goes idle.
#[verifier::opaque]
pub open spec fn goto_arrived(rt: RuntimeView) -> RuntimeView {
    RuntimeView {
        last_goal: None,
        goto_target: None,
        mode: if rt.mode == Mode::Goto {
            Mode::Idle
        } else {
            rt.mode
        },
        ..rt
    }
}

fn check_goto_target(rt: &mut Runtime) -> (r: Option<BlockPos>)
    ensures
        r == old(rt)@.goto_target,
        final(rt)@ == goto_without_target(old(rt)@),
{
    reveal(goto_without_target);
    let t = rt.goto_target;
    if t.is_none() {
        rt.mode = Mode::Idle;
    }
    t
}

fn arrive(rt: &mut Runtime)
    ensures
        final(rt)@ == goto_arrived(old(rt)@),
{
    reveal(goto_arrived);
    rt.last_goal = None;
    rt.goto_target = None;
    if rt.mode == Mode::Goto {
        rt.mode = Mode::Idle;
    }
}

impl BotCtx {
    /// The block a bot in goto mode walks to; without one it goes idle.
    pub fn goto_target(&mut self) -> (r: Option<BlockPos>)
        ensures
            r == old(self).state().goto_target,
            final(self).state() == goto_without_target(old(self).state()),
            final(self).events() == old(self).events(),
            final(self).bot_id() == old(self).bot_id(),
    {
        check_goto_target(&mut self.rt)
    }

    /// The goto target is reached: stop, clear the target, go idle, and log
    /// "Arrived at destination.".
    pub fn arrived(&mut self)
        ensures
            final(self).state() == goto_arrived(old(self).state()),
            final(self).events() == old(self).events().push(
                bot_event(old(self).bot_id(), "log"@, "text"@, "Arrived at destination."@),
            ),
            final(self).bot_id() == old(self).bot_id(),
    {
        arrive(&mut self.rt);
        self.log("Arrived at destination.");
    }
}

/// -0.4, the vertical speed below which a fall is dangerous.
pub const FALLING_SPEED: u64 = 0xBFD9_9999_9999_999A;

/// 3.0 blocks, the fall distance from which a fall hurts.
pub const HARMFUL_FALL: u64 = 0x4008_0000_0000_0000;

/// What the water-bucket clutch does on a tick.
#[derive(Debug, Clone, Copy, PartialEq, Eq, Structural)]
pub enum MlgStep {
    /// Select this hotbar slot, aim straight down and use the water bucket;
    /// nothing else happens this tick.
    Clutch(u8),
    /// Landed: select this hotbar slot (an empty bucket), aim down and scoop
    /// the water back up, when there is a bucket.
    Scoop(Option<u8>),
    /// Nothing to do.
    Nothing,
}

/// Whether the bot falls dangerously: in the air, falling faster than 0.4
/// blocks per tick, 3 blocks or more already, and not in water. Speeds and
/// distances are bit patterns of `f64`s.
pub open spec fn falling_danger(on_ground: bool, velocity_y: u64, fall_distance: u64, in_water: bool) -> bool {
    !on_ground && f64_lt(velocity_y, FALLING_SPEED) && f64_le(HARMFUL_FALL, fall_distance) && !in_water
}

/// What the clutch does: in a dangerous fall with a water bucket in the
/// hotbar, clutch with it; once a clutch landed (on the ground or in water),
/// scoop the water back up with the first empty bucket.
pub open spec fn mlg_step(
    clutching: bool,
    on_ground: bool,
    velocity_y: u64,
    fall_distance: u64,
    in_water: bool,
    slots: Seq<Option<String>>,
) -> MlgStep {
    if falling_danger(on_ground, velocity_y, fall_distance, in_water) && first_hotbar_slot(
        slots,
        ItemClass::WaterBucket,
    ) is Some {
        MlgStep::Clutch(first_hotbar_slot(slots, ItemClass::WaterBucket)->0)
    } else if clutching && (on_ground || in_water) {
        MlgStep::Scoop(first_hotbar_slot(slots, ItemClass::EmptyBucket))
    } else {
        MlgStep::Nothing
    }
}

/// The runtime with the clutch marked in progress or not.
#[verifier::opaque]
pub open spec fn with_clutch(rt: RuntimeView, on: bool) -> RuntimeView {
    RuntimeView { mlg_placed: on, ..rt }
}

fn set_clutch(rt: &mut Runtime, on: bool)
    ensures
        final(rt)@ == with_clutch(old(rt)@, on),
{
    reveal(with_clutch);
    rt.mlg_placed = on;
}

impl BotCtx {
    /// Emergency water-bucket clutch (MLG): when the bot is falling far enough
    /// to get hurt and holds a water bucket in its hotbar, it aims the bucket
    /// straight down (logging "Clutching with water (MLG)." when the clutch
    /// begins), then picks the water back up once it is safely down.
    pub fn auto_mlg(
        &mut self,
        on_ground: bool,
        velocity_y: u64,
        fall_distance: u64,
        in_water: bool,
        slots: &Vec<Option<String>>,
    ) -> (r: MlgStep)
        ensures
            final(self).bot_id() == old(self).bot_id(),
            r == mlg_step(
                old(self).state().mlg_placed,
                on_ground,
                velocity_y,
                fall_distance,
                in_water,
                slots@,
            ),
            final(self).state() == match r {
                MlgStep::Clutch(_) => with_clutch(old(self).state(), true),
                MlgStep::Scoop(_) => with_clutch(old(self).state(), false),
                MlgStep::Nothing => old(self).state(),
            },
            final(self).events() == if r is Clutch && !old(self).state().mlg_placed {
                old(self).events().push(
                    bot_event(old(self).bot_id(), "log"@, "text"@, "Clutching with water (MLG)."@),
                )
            } else {
                old(self).events()
            },
    {
        let clutching = self.rt.mlg_placed;
        let danger = !on_ground && f64_bits_lt(velocity_y, FALLING_SPEED) && f64_bits_le(
            HARMFUL_FALL,
            fall_distance,
        ) && !in_water;
        if danger {
            if let Some(h) = hotbar_slot(slots, ItemClass::WaterBucket) {
                if !clutching {
                    self.log("Clutching with water (MLG).");
                }
                set_clutch(&mut self.rt, true);
                return MlgStep::Clutch(h);
            }
        }
        if clutching && (on_ground || in_water) {
            let h = hotbar_slot(slots, ItemClass::EmptyBucket);
            set_clutch(&mut self.rt, false);
            return MlgStep::Scoop(h);
        }
        MlgStep::Nothing
    }
}

/// `slots` with the items of slots `a` and `b` exchanged: what clicking `a`,
/// then `b`, then `a` again does (pick up, swap, put down).
pub open spec fn swapped(slots: Seq<Option<String>>, a: int, b: int) -> Seq<Option<String>> {
    if 0 <= a < slots.len() && 0 <= b < slots.len() {
        slots.update(a, slots[b]).update(b, slots[a])
    } else {
        slots
    }
}

/// The storage slot whose item goes to the offhand, if any: a Totem of
/// Undying when auto-totem wants one and none is held; otherwise a shield,
/// unless a wanted totem or a shield is already held.
pub open spec fn offhand_source(slots: Seq<Option<String>>, auto_totem: bool) -> Option<usize> {
    let off = slot_item(slots, PLAYER_OFFHAND as int);
    let holds_totem = off == Some("totem_of_undying"@);
    let holds_shield = off == Some("shield"@);
    let totem = if auto_totem && !holds_totem {
        first_storage_slot(slots, ItemClass::Totem)
    } else {
        None
    };
    if totem is Some {
        totem
    } else if !(auto_totem && holds_totem) && !holds_shield {
        first_storage_slot(slots, ItemClass::Shield)
    } else {
        None
    }
}

/// The rank of the armor worn for `want` (0 when none).
pub open spec fn worn_rank(slots: Seq<Option<String>>, want: ArmorSlot) -> u8 {
    match slot_item(slots, armor_slot_index(want) as int) {
        Some(n) => match armor_of(n) {
            Some((_, r)) => r,
            None => 0,
        },
        None => 0,
    }
}

/// The armor swap for `want`, if any: the best piece in storage, when it
/// ranks above what is worn, goes to the armor slot.
pub open spec fn armor_swap(slots: Seq<Option<String>>, want: ArmorSlot) -> Option<(usize, usize)> {
    match best_armor(slots, want) {
        Some((i, r)) => if r > worn_rank(slots, want) {
            Some((i, armor_slot_index(want)))
        } else {
            None
        },
        None => None,
    }
}

/// The slots after a swap, if there is one.
pub open spec fn after_swap(slots: Seq<Option<String>>, s: Option<(usize, usize)>) -> Seq<Option<String>> {
    match s {
        Some((a, b)) => swapped(slots, a as int, b as int),
        None => slots,
    }
}

/// A swap, if there is one, as a list.
pub open spec fn swap_list(s: Option<(usize, usize)>) -> Seq<(usize, usize)> {
    match s {
        Some(p) => seq![p],
        None => Seq::empty(),
    }
}

/// The offhand swap, if any.
pub open spec fn offhand_swap(slots: Seq<Option<String>>, auto_totem: bool) -> Option<(usize, usize)> {
    match offhand_source(slots, auto_totem) {
        Some(i) => Some((i, PLAYER_OFFHAND)),
        None => None,
    }
}

/// The gear swaps, in order, each after the ones before it: the offhand
/// first, then with auto-armor each armor slot from helmet to boots.
pub open spec fn gear_swaps(slots: Seq<Option<String>>, auto_totem: bool, auto_armor: bool) -> Seq<
    (usize, usize),
> {
    let o = offhand_swap(slots, auto_totem);
    let m0 = after_swap(slots, o);
    if !auto_armor {
        swap_list(o)
    } else {
        let h = armor_swap(m0, ArmorSlot::Helmet);
        let m1 = after_swap(m0, h);
        let c = armor_swap(m1, ArmorSlot::Chestplate);
        let m2 = after_swap(m1, c);
        let l = armor_swap(m2, ArmorSlot::Leggings);
        let m3 = after_swap(m2, l);
        let b = armor_swap(m3, ArmorSlot::Boots);
        swap_list(o) + swap_list(h) + swap_list(c) + swap_list(l) + swap_list(b)
    }
}

/// The menu after the swaps of `plan`, carried out in order.
pub open spec fn apply_swaps(slots: Seq<Option<String>>, plan: Seq<(usize, usize)>) -> Seq<
    Option<String>,
>
    decreases plan.len(),
{
    if plan.len() == 0 {
        slots
    } else {
        apply_swaps(swapped(slots, plan[0].0 as int, plan[0].1 as int), plan.drop_first())
    }
}

/// No armor slot holds armor of another kind (a helmet in the boots slot,
/// say), as the game never allows.
pub open spec fn armor_slots_fit(slots: Seq<Option<String>>) -> bool {
    forall|k: ArmorSlot|
        #![trigger armor_slot_index(k)]
        match slot_item(slots, armor_slot_index(k) as int) {
            Some(n) => match armor_of(n) {
                Some((l, _)) => l == k,
                None => true,
            },
            None => true,
        }
}

/// Nothing in storage outranks the armor worn for `k`.
pub open spec fn armor_settled(slots: Seq<Option<String>>, k: ArmorSlot) -> bool {
    forall|j: int|
        #![trigger storage_armor_rank(slots, k, j)]
        PLAYER_STORAGE_START <= j <= PLAYER_STORAGE_END && storage_armor_rank(slots, k, j) is Some
            ==> storage_armor_rank(slots, k, j)->0 <= worn_rank(slots, k)
}

/// Law: with auto-armor on, once the gear plan is carried out, no armor
/// piece in storage outranks the one worn in its slot, for the helmet, the
/// chestplate, the leggings and the boots alike.
pub proof fn lemma_gear_plan_wears_the_best_armor(slots: Seq<Option<String>>, auto_totem: bool)
    requires
        armor_slots_fit(slots),
    ensures
        forall|k: ArmorSlot, j: int|
            #![trigger storage_armor_rank(apply_swaps(slots, gear_swaps(slots, auto_totem, true)), k, j)]
            PLAYER_STORAGE_START <= j <= PLAYER_STORAGE_END && storage_armor_rank(
                apply_swaps(slots, gear_swaps(slots, auto_totem, true)),
                k,
                j,
            ) is Some ==> storage_armor_rank(
                apply_swaps(slots, gear_swaps(slots, auto_totem, true)),
                k,
                j,
            )->0 <= worn_rank(apply_swaps(slots, gear_swaps(slots, auto_totem, true)), k),
{
    let m0 = after_swap(slots, offhand_swap(slots, auto_totem));
    lemma_offhand_keeps_fit(slots, auto_totem);
    let m4 = lemma_gear_plan_steps(slots, auto_totem);
    lemma_armor_steps_settle(m0);
    assert forall|k: ArmorSlot, j: int|
        PLAYER_STORAGE_START <= j <= PLAYER_STORAGE_END && #[trigger] storage_armor_rank(m4, k, j) is Some
        implies storage_armor_rank(m4, k, j)->0 <= worn_rank(m4, k) by {
        assert(armor_settled(m4, k));
    }
}

/// The four armor steps, helmet to boots, starting from `m0`.
pub open spec fn armor_steps(m0: Seq<Option<String>>) -> Seq<Option<String>> {
    let m1 = after_swap(m0, armor_swap(m0, ArmorSlot::Helmet));
    let m2 = after_swap(m1, armor_swap(m1, ArmorSlot::Chestplate));
    let m3 = after_swap(m2, armor_swap(m2, ArmorSlot::Leggings));
    after_swap(m3, armor_swap(m3, ArmorSlot::Boots))
}

/// After the four armor steps every armor slot is settled.
proof fn lemma_armor_steps_settle(m0: Seq<Option<String>>)
    requires
        armor_slots_fit(m0),
    ensures
        forall|k: ArmorSlot| #[trigger] armor_settled(armor_steps(m0), k),
{
    let m1 = after_swap(m0, armor_swap(m0, ArmorSlot::Helmet));
    lemma_armor_step(m0, ArmorSlot::Helmet);
    let m2 = after_swap(m1, armor_swap(m1, ArmorSlot::Chestplate));
    lemma_armor_step(m1, ArmorSlot::Chestplate);
    let m3 = after_swap(m2, armor_swap(m2, ArmorSlot::Leggings));
    lemma_armor_step(m2, ArmorSlot::Leggings);
    let m4 = after_swap(m3, armor_swap(m3, ArmorSlot::Boots));
    lemma_armor_step(m3, ArmorSlot::Boots);
    assert(m4 == armor_steps(m0));
    assert forall|k: ArmorSlot| #[trigger] armor_settled(m4, k) by {
        match k {
            ArmorSlot::Helmet => {},
            ArmorSlot::Chestplate => {},
            ArmorSlot::Leggings => {},
            ArmorSlot::Boots => {},
        }
    }
}

/// Carrying out the gear plan with auto-armor is the offhand step, then the
/// four armor steps.
proof fn lemma_gear_plan_steps(slots: Seq<Option<String>>, auto_totem: bool) -> (m4: Seq<
    Option<String>,
>)
    ensures
        m4 == armor_steps(after_swap(slots, offhand_swap(slots, auto_totem))),
        m4 == apply_swaps(slots, gear_swaps(slots, auto_totem, true)),
{
    let o = offhand_swap(slots, auto_totem);
    let m0 = after_swap(slots, o);
    let h = armor_swap(m0, ArmorSlot::Helmet);
    let m1 = after_swap(m0, h);
    let c = armor_swap(m1, ArmorSlot::Chestplate);
    let m2 = after_swap(m1, c);
    let l = armor_swap(m2, ArmorSlot::Leggings);
    let m3 = after_swap(m2, l);
    let b = armor_swap(m3, ArmorSlot::Boots);
    let m4 = after_swap(m3, b);
    let plan = gear_swaps(slots, auto_totem, true);
    let e = Seq::<(usize, usize)>::empty();
    let r4 = swap_list(b) + e;
    let r3 = swap_list(l) + r4;
    let r2 = swap_list(c) + r3;
    let r1 = swap_list(h) + r2;
    assert(plan == swap_list(o) + swap_list(h) + swap_list(c) + swap_list(l) + swap_list(b));
    assert(plan =~= swap_list(o) + r1);
    lemma_apply_swap_list(slots, o, r1);
    lemma_apply_swap_list(m0, h, r2);
    lemma_apply_swap_list(m1, c, r3);
    lemma_apply_swap_list(m2, l, r4);
    lemma_apply_swap_list(m3, b, e);
    m4
}

/// Carrying out one optional swap and then a plan is carrying out both.
proof fn lemma_apply_swap_list(
    slots: Seq<Option<String>>,
    x: Option<(usize, usize)>,
    rest: Seq<(usize, usize)>,
)
    ensures
        apply_swaps(slots, swap_list(x) + rest) == apply_swaps(after_swap(slots, x), rest),
{
    match x {
        Some(p) => {
            let q = swap_list(x) + rest;
            assert(q[0] == p);
            assert(q.drop_first() =~= rest);
        },
        None => {
            assert(swap_list(x) + rest =~= rest);
        },
    }
}

/// The offhand swap touches no armor slot.
proof fn lemma_offhand_keeps_fit(slots: Seq<Option<String>>, auto_totem: bool)
    requires
        armor_slots_fit(slots),
    ensures
        armor_slots_fit(after_swap(slots, offhand_swap(slots, auto_totem))),
{
    let m = after_swap(slots, offhand_swap(slots, auto_totem));
    if let Some(i) = offhand_source(slots, auto_totem) {
        let off = slot_item(slots, PLAYER_OFFHAND as int);
        let holds_totem = off == Some("totem_of_undying"@);
        if auto_totem && !holds_totem && first_storage_slot(slots, ItemClass::Totem) is Some {
            let t = choose|x: int| is_first_storage(slots, ItemClass::Totem, x);
            assert(is_first_storage(slots, ItemClass::Totem, t));
        } else {
            let t = choose|x: int| is_first_storage(slots, ItemClass::Shield, x);
            assert(is_first_storage(slots, ItemClass::Shield, t));
        }
        assert(PLAYER_STORAGE_START <= i <= PLAYER_STORAGE_END);
        assert forall|k: ArmorSlot| #[trigger] armor_slot_index(k) < PLAYER_STORAGE_START implies slot_item(
            m,
            armor_slot_index(k) as int,
        ) == slot_item(slots, armor_slot_index(k) as int) by {}
        assert forall|k: ArmorSlot|
            #![trigger armor_slot_index(k)]
            match slot_item(m, armor_slot_index(k) as int) {
                Some(n) => match armor_of(n) {
                    Some((l, _)) => l == k,
                    None => true,
                },
                None => true,
            } by {
            assert(armor_slot_index(k) < PLAYER_STORAGE_START);
        }
    }
}

/// Some storage slot holds the best armor for `k` as soon as any holds such
/// armor.
proof fn lemma_best_armor_exists(slots: Seq<Option<String>>, k: ArmorSlot, j: int)
    requires
        PLAYER_STORAGE_START <= j <= PLAYER_STORAGE_END,
        storage_armor_rank(slots, k, j) is Some,
    ensures
        exists|i: int| is_best_armor(slots, k, i),
{
    let best = lemma_best_below(slots, k, PLAYER_STORAGE_END + 1);
    match best {
        Some((b, v)) => {
            assert(is_best_armor(slots, k, b));
        },
        None => {
            assert(storage_armor_rank(slots, k, j) is None);
        },
    }
}

/// The best armor for `k` among the storage slots below `i`, if any.
proof fn lemma_best_below(slots: Seq<Option<String>>, k: ArmorSlot, i: int) -> (best: Option<(int, u8)>)
    requires
        PLAYER_STORAGE_START <= i <= PLAYER_STORAGE_END + 1,
    ensures
        match best {
            None => forall|j: int|
                PLAYER_STORAGE_START <= j < i ==> storage_armor_rank(slots, k, j) is None,
            Some((b, v)) => PLAYER_STORAGE_START <= b < i && storage_armor_rank(slots, k, b) == Some(
                v,
            ) && (forall|j: int|
                #![trigger storage_armor_rank(slots, k, j)]
                PLAYER_STORAGE_START <= j < i && storage_armor_rank(slots, k, j) is Some
                    ==> storage_armor_rank(slots, k, j)->0 <= v) && (forall|j: int|
                #![trigger storage_armor_rank(slots, k, j)]
                PLAYER_STORAGE_START <= j < b && storage_armor_rank(slots, k, j) is Some
                    ==> storage_armor_rank(slots, k, j)->0 < v),
        },
    decreases i - PLAYER_STORAGE_START,
{
    if i == PLAYER_STORAGE_START {
        None
    } else {
        let prev = lemma_best_below(slots, k, i - 1);
        match storage_armor_rank(slots, k, i - 1) {
            Some(r) => match prev {
                None => Some((i - 1, r)),
                Some((b, v)) => if r > v {
                    Some((i - 1, r))
                } else {
                    prev
                },
            },
            None => prev,
        }
    }
}

/// One armor step: after it, nothing in storage outranks the armor worn for
/// `k`; every other slot that was settled stays settled; and armor slots
/// still hold their own kind.
proof fn lemma_armor_step(m: Seq<Option<String>>, k: ArmorSlot)
    requires
        armor_slots_fit(m),
    ensures
        armor_slots_fit(after_swap(m, armor_swap(m, k))),
        armor_settled(after_swap(m, armor_swap(m, k)), k),
        forall|l: ArmorSlot|
            l != k && armor_settled(m, l) ==> #[trigger] armor_settled(after_swap(m, armor_swap(m, k)), l),
{
    let m2 = after_swap(m, armor_swap(m, k));
    let idx = armor_slot_index(k) as int;
    if exists|i: int| is_best_armor(m, k, i) {
        let i = choose|i: int| is_best_armor(m, k, i);
        assert(is_best_armor(m, k, i));
        let r = storage_armor_rank(m, k, i)->0;
        assert(best_armor(m, k) == Some((i as usize, r)));
        if r > worn_rank(m, k) {
            assert(armor_swap(m, k) == Some((i as usize, armor_slot_index(k))));
            assert(slot_item(m, i) is Some);
            assert(i < m.len());
            assert(m2 == m.update(i, m[idx]).update(idx, m[i]));
            assert(slot_item(m2, idx) == slot_item(m, i));
            assert(slot_item(m2, i) == slot_item(m, idx));
            assert(worn_rank(m2, k) == r);
            assert forall|j: int|
                PLAYER_STORAGE_START <= j <= PLAYER_STORAGE_END && j != i implies slot_item(m2, j)
                == slot_item(m, j) by {}
            assert(armor_settled(m2, k)) by {
                assert forall|j: int|
                    PLAYER_STORAGE_START <= j <= PLAYER_STORAGE_END && #[trigger] storage_armor_rank(
                        m2,
                        k,
                        j,
                    ) is Some implies storage_armor_rank(m2, k, j)->0 <= worn_rank(m2, k) by {
                    if j != i {
                        assert(storage_armor_rank(m2, k, j) == storage_armor_rank(m, k, j));
                    } else {
                        assert(armor_slot_index(k) == armor_slot_index(k));
                    }
                }
            }
            assert forall|q: ArmorSlot| q != k implies #[trigger] armor_slot_index(q) != idx && slot_item(
                m2,
                armor_slot_index(q) as int,
            ) == slot_item(m, armor_slot_index(q) as int) by {}
            assert(armor_slots_fit(m2)) by {
                assert forall|q: ArmorSlot|
                    #![trigger armor_slot_index(q)]
                    match slot_item(m2, armor_slot_index(q) as int) {
                        Some(n) => match armor_of(n) {
                            Some((l, _)) => l == q,
                            None => true,
                        },
                        None => true,
                    } by {
                    if q != k {
                        assert(slot_item(m2, armor_slot_index(q) as int) == slot_item(
                            m,
                            armor_slot_index(q) as int,
                        ));
                    }
                }
            }
            assert forall|l: ArmorSlot| l != k && armor_settled(m, l) implies #[trigger] armor_settled(
                m2,
                l,
            ) by {
                assert(armor_slot_index(l) != idx);
                assert(slot_item(m2, armor_slot_index(l) as int) == slot_item(
                    m,
                    armor_slot_index(l) as int,
                ));
                assert(worn_rank(m2, l) == worn_rank(m, l));
                assert(armor_slot_index(k) == armor_slot_index(k));
                assert forall|j: int|
                    PLAYER_STORAGE_START <= j <= PLAYER_STORAGE_END && #[trigger] storage_armor_rank(
                        m2,
                        l,
                        j,
                    ) is Some implies storage_armor_rank(m2, l, j)->0 <= worn_rank(m2, l) by {
                    if j != i {
                        assert(storage_armor_rank(m2, l, j) == storage_armor_rank(m, l, j));
                    }
                }
            }
        } else {
            assert(armor_swap(m, k) is None);
            assert forall|j: int|
                PLAYER_STORAGE_START <= j <= PLAYER_STORAGE_END && #[trigger] storage_armor_rank(
                    m,
                    k,
                    j,
                ) is Some implies storage_armor_rank(m, k, j)->0 <= worn_rank(m, k) by {}
        }
    } else {
        assert(armor_swap(m, k) is None);
        assert forall|j: int|
            PLAYER_STORAGE_START <= j <= PLAYER_STORAGE_END && #[trigger] storage_armor_rank(m, k, j)
                is Some implies storage_armor_rank(m, k, j)->0 <= worn_rank(m, k) by {
            lemma_best_armor_exists(m, k, j);
        }
    }
}

fn swap_in(slots: &mut Vec<Option<String>>, a: usize, b: usize)
    ensures
        final(slots)@ == swapped(old(slots)@, a as int, b as int),
{
    if a < slots.len() && b < slots.len() && a != b {
        let mut held: Option<String> = None;
        slots.set_and_swap(a, &mut held);
        slots.set_and_swap(b, &mut held);
        slots.set_and_swap(a, &mut held);
        assert(slots@ =~= swapped(old(slots)@, a as int, b as int));
    } else if a == b {
        assert(slots@ =~= swapped(old(slots)@, a as int, b as int));
    }
}

fn take_step(slots: &mut Vec<Option<String>>, plan: &mut Vec<(usize, usize)>, s: Option<(usize, usize)>)
    ensures
        final(slots)@ == after_swap(old(slots)@, s),
        final(plan)@ == old(plan)@ + swap_list(s),
{
    match s {
        Some((a, b)) => {
            swap_in(slots, a, b);
            plan.push((a, b));
        },
        None => {
            assert(plan@ =~= plan@ + swap_list(s));
        },
    }
}

fn offhand_swap_for(slots: &Vec<Option<String>>, auto_totem: bool) -> (r: Option<(usize, usize)>)
    ensures
        r == offhand_swap(slots@, auto_totem),
{
    let off = item_at(slots, PLAYER_OFFHAND);
    let holds_totem = match off {
        Some(n) => is_totem(n),
        None => false,
    };
    let holds_shield = match off {
        Some(n) => is_shield(n),
        None => false,
    };
    let totem = if auto_totem && !holds_totem {
        find_storage_slot(slots, ItemClass::Totem)
    } else {
        None
    };
    let source = if totem.is_some() {
        totem
    } else if !(auto_totem && holds_totem) && !holds_shield {
        find_storage_slot(slots, ItemClass::Shield)
    } else {
        None
    };
    match source {
        Some(i) => Some((i, PLAYER_OFFHAND)),
        None => None,
    }
}

fn armor_swap_for(slots: &Vec<Option<String>>, want: ArmorSlot) -> (r: Option<(usize, usize)>)
    ensures
        r == armor_swap(slots@, want),
{
    let target = armor_target_slot(want);
    let worn = match item_at(slots, target) {
        Some(n) => match armor_info(n) {
            Some((_, r)) => r,
            None => 0,
        },
        None => 0,
    };
    match best_armor_in_storage(slots, want) {
        Some((i, r)) => if r > worn {
            Some((i, target))
        } else {
            None
        },
        None => None,
    }
}

/// Keep a totem (or else a shield) in the offhand and wear the best armor,
/// every `EQUIP_EVERY_TICKS` ticks. `slots` is the player menu. Returns the
/// swaps to make, in order: for each `(from, to)`, click `from`, then `to`,
/// then `from` again.
pub fn maintain_equipment(rt: &mut Runtime, slots: Vec<Option<String>>) -> (r: Vec<(usize, usize)>)
    ensures
        final(rt)@ == equip_ticked(old(rt)@),
        r@ == if old(rt).equip_cooldown > 0 {
            Seq::<(usize, usize)>::empty()
        } else {
            gear_swaps(slots@, old(rt).auto_totem, old(rt).auto_armor)
        },
{
    let auto_totem = rt.auto_totem;
    let auto_armor = rt.auto_armor;
    let mut plan: Vec<(usize, usize)> = Vec::new();
    if !equip_due(rt) {
        return plan;
    }
    let mut menu = slots;
    let o = offhand_swap_for(&menu, auto_totem);
    take_step(&mut menu, &mut plan, o);
    if auto_armor {
        let h = armor_swap_for(&menu, ArmorSlot::Helmet);
        take_step(&mut menu, &mut plan, h);
        let c = armor_swap_for(&menu, ArmorSlot::Chestplate);
        take_step(&mut menu, &mut plan, c);
        let l = armor_swap_for(&menu, ArmorSlot::Leggings);
        take_step(&mut menu, &mut plan, l);
        let b = armor_swap_for(&menu, ArmorSlot::Boots);
        take_step(&mut menu, &mut plan, b);
    }
    assert(plan@ =~= gear_swaps(slots@, auto_totem, auto_armor));
    plan
}

/// Whether the bot disconnects now: the feature is on and its health (the
/// bit pattern of an `f64`) is at or below the threshold.
pub open spec fn disconnect_due(rt: RuntimeView, health: u64) -> bool {
    rt.auto_disconnect && f64_le(health, rt.auto_disconnect_health)
}

/// `Health <h> <= <t>, disconnecting.`
pub open spec fn disconnect_message(health: Seq<char>, threshold: Seq<char>) -> Seq<char> {
    "Health "@ + health + " <= "@ + threshold + ", disconnecting."@
}

impl BotCtx {
    /// Disconnect cleanly when health drops to or below the configured
    /// threshold, with the feature on: log why and report the bot
    /// disconnected. `health` is the health as the bit pattern of an `f64`;
    /// `health_text` and `threshold_text` are the health and the threshold
    /// written with one decimal. True when the caller disconnects now.
    pub fn auto_disconnect(&mut self, health: u64, health_text: &str, threshold_text: &str) -> (r: bool)
        ensures
            r == disconnect_due(old(self).state(), health),
            final(self).state() == old(self).state(),
            final(self).bot_id() == old(self).bot_id(),
            final(self).events() == if r {
                old(self).events().push(
                    bot_event(
                        old(self).bot_id(),
                        "log"@,
                        "text"@,
                        disconnect_message(health_text@, threshold_text@),
                    ),
                ).push(bot_event(old(self).bot_id(), "status"@, "status"@, "disconnected"@))
            } else {
                old(self).events()
            },
    {
        if !self.rt.auto_disconnect {
            return false;
        }
        if f64_bits_le(health, self.rt.auto_disconnect_health) {
            let text = String::from_str("Health ").concat(health_text).concat(" <= ").concat(
                threshold_text,
            ).concat(", disconnecting.");
            self.log(text.as_str());
            self.status("disconnected");
            return true;
        }
        false
    }
}

/// The combat settings when the bot fights this tick: killaura on, or
/// protecting someone; then the killaura range (bit pattern of an `f64`) and
/// whether it stays still.
pub open spec fn combat_settings_of(rt: RuntimeView) -> Option<(u64, bool)> {
    if rt.killaura_on || rt.mode == Mode::Protect {
        Some((rt.killaura_range, rt.killaura_stay_still))
    } else {
        None
    }
}

impl BotCtx {
    /// Whether the bot fights this tick, and with which range and stance.
    pub fn combat_settings(&self) -> (r: Option<(u64, bool)>)
        ensures
            r == combat_settings_of(self.state()),
    {
        if self.rt.killaura_on || self.rt.mode == Mode::Protect {
            Some((self.rt.killaura_range, self.rt.killaura_stay_still))
        } else {
            None
        }
    }
}

/// What ended a tick. The checks run in a fixed order, each ending the
/// tick when it acts: the water-bucket clutch, then the low-health
/// disconnect, then eating; then gear, movement flags and long jobs; then
/// combat; and a tick that gets past all of them is `Completed`.
#[derive(Debug, Clone, Copy, PartialEq, Eq, Structural)]
pub enum TickEnd {
    Clutch,
    Disconnect,
    Eat,
    Combat,
    Completed,
}

/// How the survival checks end a tick, if one of them acted: survive first.
pub open spec fn survival_end_of(clutching: bool, disconnect_now: bool, eat: EatStep) -> Option<TickEnd> {
    if clutching {
        Some(TickEnd::Clutch)
    } else if disconnect_now {
        Some(TickEnd::Disconnect)
    } else if !(eat is Nothing) {
        Some(TickEnd::Eat)
    } else {
        None
    }
}

/// How a tick ends: survival before combat, combat before the mode's
/// movement.
pub open spec fn tick_end(clutching: bool, disconnect_now: bool, eat: EatStep, fighting: bool) -> TickEnd {
    match survival_end_of(clutching, disconnect_now, eat) {
        Some(e) => e,
        None => if fighting {
            TickEnd::Combat
        } else {
            TickEnd::Completed
        },
    }
}

/// The movement a mode carries out on a tick that got that far: following,
/// protecting, walking to a goto target, or holding position.
pub open spec fn moves_on_tick(m: Mode) -> bool {
    m is Follow || m is Protect || m is Goto || m is Hold
}

/// What the rest of a tick does once the checks have run.
#[derive(Debug, Clone, Copy, PartialEq, Eq, Structural)]
pub struct TickPlan {
    /// What ended the tick.
    pub end: TickEnd,
    /// The mode whose movement to carry out, when the tick completed and the
    /// mode moves the bot.
    pub movement: Option<Mode>,
    /// Whether to glance around (anti-AFK) now.
    pub glance: bool,
}

/// The checks a tick asks, in their order: the water-bucket clutch, the
/// low-health disconnect, eating, then gear, movement flags and long jobs
/// (upkeep), then combat.
#[derive(Debug, Clone, Copy, PartialEq, Eq, Structural)]
pub enum TickCheck {
    Clutch,
    Disconnect,
    Eat,
    Upkeep,
    Combat,
    Done,
}

/// The check asked after `step`, given whether `step` acted: a survival check
/// that acted ends the tick, so do combat and upkeep run their course.
pub open spec fn next_check_of(step: TickCheck, acted: bool) -> TickCheck {
    match step {
        TickCheck::Clutch => if acted {
            TickCheck::Done
        } else {
            TickCheck::Disconnect
        },
        TickCheck::Disconnect => if acted {
            TickCheck::Done
        } else {
            TickCheck::Eat
        },
        TickCheck::Eat => if acted {
            TickCheck::Done
        } else {
            TickCheck::Upkeep
        },
        TickCheck::Upkeep => TickCheck::Combat,
        _ => TickCheck::Done,
    }
}

/// The check to ask after `step`, given whether `step` acted (for `Eat`:
/// whether the bot is chewing or starts to eat; for `Upkeep` the answer is
/// not read).
pub fn next_check(step: TickCheck, acted: bool) -> (r: TickCheck)
    ensures
        r == next_check_of(step, acted),
{
    match step {
        TickCheck::Clutch => if acted {
            TickCheck::Done
        } else {
            TickCheck::Disconnect
        },
        TickCheck::Disconnect => if acted {
            TickCheck::Done
        } else {
            TickCheck::Eat
        },
        TickCheck::Eat => if acted {
            TickCheck::Done
        } else {
            TickCheck::Upkeep
        },
        TickCheck::Upkeep => TickCheck::Combat,
        _ => TickCheck::Done,
    }
}

/// Law: walking the checks from the clutch reaches upkeep and combat exactly
/// when no survival check ended the tick, which is what `tick_plan` judges.
pub proof fn lemma_checks_reach_upkeep(clutching: bool, disconnect_now: bool, eat: EatStep)
    ensures
        (next_check_of(TickCheck::Clutch, clutching) is Disconnect && next_check_of(
            TickCheck::Disconnect,
            disconnect_now,
        ) is Eat && next_check_of(TickCheck::Eat, !(eat is Nothing)) is Upkeep)
            <==> survival_end_of(clutching, disconnect_now, eat) is None,
        next_check_of(TickCheck::Upkeep, false) is Combat,
{
}

/// The line the say bar queued, taken out of the runtime so that it is said
/// once.
#[verifier::opaque]
pub open spec fn say_taken(rt: RuntimeView) -> RuntimeView {
    RuntimeView { pending_say: None, ..rt }
}

/// Takes the line queued by the `say` command, leaving none queued: the
/// caller says it in game chat this tick, once.
pub fn take_pending_say(rt: &mut Runtime) -> (r: Option<String>)
    ensures
        opt_text(r) == old(rt)@.pending_say,
        final(rt)@ == say_taken(old(rt)@),
{
    reveal(say_taken);
    let line = copy_opt_text(&rt.pending_say);
    rt.pending_say = None;
    line
}

/// How the survival checks end a tick, if one of them acted (`None`: the
/// tick goes on to gear, movement flags, long jobs and combat).
pub fn survival_end(clutching: bool, disconnect_now: bool, eat: EatStep) -> (r: Option<TickEnd>)
    ensures
        r == survival_end_of(clutching, disconnect_now, eat),
{
    if clutching {
        Some(TickEnd::Clutch)
    } else if disconnect_now {
        Some(TickEnd::Disconnect)
    } else {
        match eat {
            EatStep::Nothing => None,
            _ => Some(TickEnd::Eat),
        }
    }
}

/// The per-tick priority order: survive, then fight, then move. Given what
/// the clutch, the disconnect check, eating and combat did this tick (each
/// asked only while the ones before it did not end the tick), says how the
/// tick ended, which mode's movement runs, and whether to glance around. Only
/// a completed tick moves the bot and counts towards the next glance, which
/// comes after a random gap of 200 to 240 ticks; a counter that has run out
/// stays as it is.
pub fn tick_plan(rt: &mut Runtime, clutching: bool, disconnect_now: bool, eat: EatStep, fighting: bool) -> (r: TickPlan)
    ensures
        r.end == tick_end(clutching, disconnect_now, eat, fighting),
        r.movement == (if r.end is Completed && moves_on_tick(old(rt).mode) {
            Some(old(rt).mode)
        } else {
            None
        }),
        (r.end is Completed && old(rt).anti_afk < u32::MAX) ==> exists|extra: u32|
            extra <= 40 && r.glance == (old(rt).anti_afk + 1 >= ANTI_AFK_EVERY_TICKS + extra)
                && final(rt)@ == anti_afk_ticked(old(rt)@, extra),
        !(r.end is Completed && old(rt).anti_afk < u32::MAX) ==> !r.glance && final(rt)@ == old(rt)@,
{
    let end = match survival_end(clutching, disconnect_now, eat) {
        Some(e) => e,
        None => if fighting {
            TickEnd::Combat
        } else {
            TickEnd::Completed
        },
    };
    match end {
        TickEnd::Completed => {
            let mode = rt.mode;
            let movement = match mode {
                Mode::Follow | Mode::Protect | Mode::Goto | Mode::Hold => Some(mode),
                _ => None,
            };
            let glance = if rt.anti_afk < u32::MAX {
                anti_afk(rt)
            } else {
                false
            };
            TickPlan { end, movement, glance }
        },
        _ => TickPlan { end, movement: None, glance: false },
    }
}

/// Law: the survival checks come first: a tick in which the clutch, the
/// disconnect or eating acted ends there, neither fighting nor moving, and
/// a fight ends the tick before any movement.
pub proof fn lemma_survive_before_combat_before_follow(
    clutching: bool,
    disconnect_now: bool,
    eat: EatStep,
    fighting: bool,
)
    ensures
        (clutching || disconnect_now || !(eat is Nothing)) ==> !(tick_end(
            clutching,
            disconnect_now,
            eat,
            fighting,
        ) is Combat) && !(tick_end(clutching, disconnect_now, eat, fighting) is Completed),
        clutching ==> tick_end(clutching, disconnect_now, eat, fighting) is Clutch,
        fighting ==> !(tick_end(clutching, disconnect_now, eat, fighting) is Completed),
{
}

} // verus!
