//! Per-bot runtime state, the JSON command protocol that drives it, and the
//! process-wide registry of bots.
//!
//! Every account gets its own `BotCtx` with its own `Runtime`; a command from
//! the mod reaches exactly the bots its `"bot"` field selects.
use crate::config::Config;
use crate::floats::{
    f64_at_least_zero, f64_at_least_zero_bits, f64_clamp, f64_clamp_bits, f64_floor_i32,
    f64_floor_to_i32, f64_is_infinite, f64_is_nan, f64_key, f64_lt,
};
use crate::json::{
    json_bool_at, json_bool_field, json_f64_bits_at, json_f64_bits_field, json_object2,
    json_object3, json_object_list_then_string, json_str_at, json_str_field, json_text_parses,
    json_u64_at, json_u64_field, object2, object3, object_list_then_string, opt_text,
    json_quote, json_string_literal,
    parses_as_json,
};
use crate::text::{
    decimal_digits, lemma_text_before_asymmetric, lemma_text_before_total,
    lemma_text_before_transitive, push_char,
    push_decimal_digits, same_text, text_before, text_lt,
};
use tokio::sync::broadcast;
use vstd::prelude::*;

verus! {

/// What a bot is currently doing.
#[derive(Debug, Clone, Copy, PartialEq, Eq, Structural)]
pub enum Mode {
    Idle,
    Follow,
    Protect,
    Hold,
    Mine,
    Goto,
}

/// Lowercase wire name of a mode, as sent in telemetry.
pub open spec fn mode_name(m: Mode) -> Seq<char> {
    match m {
        Mode::Idle => "idle"@,
        Mode::Follow => "follow"@,
        Mode::Protect => "protect"@,
        Mode::Hold => "hold"@,
        Mode::Mine => "mine"@,
        Mode::Goto => "goto"@,
    }
}

impl Mode {
    /// Lowercase wire name used in telemetry.
    pub fn as_str(self) -> (r: &'static str)
        ensures
            r@ == mode_name(self),
    {
        match self {
            Mode::Idle => "idle",
            Mode::Follow => "follow",
            Mode::Protect => "protect",
            Mode::Hold => "hold",
            Mode::Mine => "mine",
            Mode::Goto => "goto",
        }
    }
}

/// A block position (integer coordinates).
#[derive(Debug, Clone, Copy, PartialEq, Eq, Structural)]
pub struct BlockPos {
    pub x: i32,
    pub y: i32,
    pub z: i32,
}

impl BlockPos {
    pub fn new(x: i32, y: i32, z: i32) -> (r: BlockPos)
        ensures
            r == (BlockPos { x, y, z }),
    {
        BlockPos { x, y, z }
    }

    /// The block that contains the point `p`: each coordinate floored and cast
    /// to `i32` (saturating, NaN to zero).
    pub fn containing(p: &Vec3) -> (r: BlockPos)
        ensures
            r == block_containing(*p),
    {
        BlockPos { x: f64_floor_to_i32(p.x), y: f64_floor_to_i32(p.y), z: f64_floor_to_i32(p.z) }
    }
}

/// The block that contains the point `p`.
pub open spec fn block_containing(p: Vec3) -> BlockPos {
    BlockPos { x: f64_floor_i32(p.x), y: f64_floor_i32(p.y), z: f64_floor_i32(p.z) }
}

/// A point in the world, each coordinate as the bit pattern of its `f64`.
#[derive(Debug, Clone, Copy, PartialEq, Eq, Structural)]
pub struct Vec3 {
    pub x: u64,
    pub y: u64,
    pub z: u64,
}

/// A detected stasis chamber: a stable id, the pearl's block, and the name of
/// the player who threw the pearl when known.
#[derive(Debug)]
pub struct Stasis {
    pub id: u32,
    pub pos: BlockPos,
    pub owner: Option<String>,
}

/// The plain content of a `Stasis`.
pub struct StasisView {
    pub id: u32,
    pub pos: BlockPos,
    pub owner: Option<Seq<char>>,
}

impl View for Stasis {
    type V = StasisView;

    open spec fn view(&self) -> StasisView {
        StasisView { id: self.id, pos: self.pos, owner: opt_text(self.owner) }
    }
}

/// A copy of an optional string.
pub fn copy_opt_text(o: &Option<String>) -> (r: Option<String>)
    ensures
        opt_text(r) == opt_text(*o),
{
    match o {
        Some(s) => Some(s.clone()),
        None => None,
    }
}

impl Stasis {
    /// A copy of this chamber record.
    pub fn duplicate(&self) -> (r: Stasis)
        ensures
            r@ == self@,
    {
        Stasis { id: self.id, pos: self.pos, owner: copy_opt_text(&self.owner) }
    }
}

/// Default follow radius, 2.0 (as the bit pattern of the double).
pub const DEFAULT_FOLLOW_DISTANCE: u64 = 0x4000_0000_0000_0000;

/// Default food level at or below which the bot eats.
pub const DEFAULT_EAT_THRESHOLD: u32 = 17;

/// Smallest follow radius, 1.0.
pub const MIN_FOLLOW_DISTANCE: u64 = 0x3FF0_0000_0000_0000;

/// Largest follow radius, 10.0.
pub const MAX_FOLLOW_DISTANCE: u64 = 0x4024_0000_0000_0000;

pub const MIN_EAT_THRESHOLD: u32 = 1;

pub const MAX_EAT_THRESHOLD: u32 = 19;

/// Default killaura range, 3.0.
pub const DEFAULT_KILLAURA_RANGE: u64 = 0x4008_0000_0000_0000;

/// Smallest killaura range, 2.0.
pub const MIN_KILLAURA_RANGE: u64 = 0x4000_0000_0000_0000;

/// Largest killaura range, 6.0.
pub const MAX_KILLAURA_RANGE: u64 = 0x4018_0000_0000_0000;

/// Per-bot mutable state. Every account gets its own `Runtime`, so two bots can
/// never read or write each other's mode, targets, or task flags. Distances and
/// health values are bit patterns of `f64`s.
#[derive(Debug)]
pub struct Runtime {
    pub mode: Mode,
    pub follow_target: Option<String>,
    pub protect_target: Option<String>,
    pub killaura_on: bool,
    pub killaura_range: u64,
    pub killaura_stay_still: bool,
    pub sel1: Option<BlockPos>,
    pub sel2: Option<BlockPos>,
    pub mining_active: bool,
    pub pull_request: Option<String>,
    pub pull_active: bool,
    pub stasis: Vec<Stasis>,
    pub next_stasis_id: u32,
    pub eat_cooldown: u32,
    pub telemetry_cooldown: u32,
    pub anti_afk: u32,
    /// In-game name of the player who last sent a whisper command, so async jobs
    /// can whisper their result back. Cleared for commands from the mod.
    pub command_sender: Option<String>,
    /// Keep a Totem of Undying in the offhand when possible.
    pub auto_totem: bool,
    /// Equip the best available armor pieces.
    pub auto_armor: bool,
    /// Disconnect when health drops to/below `auto_disconnect_health`.
    pub auto_disconnect: bool,
    pub auto_disconnect_health: u64,
    /// Active goto target (set when mode == Goto).
    pub goto_target: Option<BlockPos>,
    /// Last position the pathfinder was sent to.
    pub last_goal: Option<Vec3>,
    /// Follow radius, kept within `[MIN_FOLLOW_DISTANCE, MAX_FOLLOW_DISTANCE]`.
    pub follow_distance: u64,
    pub sprinting: bool,
    pub sneaking: bool,
    /// One-shot request to deposit items into the nearest chest.
    pub deposit_request: bool,
    pub deposit_active: bool,
    /// One-shot request to drop trash items.
    pub drop_trash_request: bool,
    pub drop_trash_active: bool,
    /// The bot eats when its food level is at or below this value.
    pub eat_threshold: u32,
    /// Throttle for auto-totem/auto-armor maintenance.
    pub equip_cooldown: u32,
    /// Throttle for the "I can't see you" warning.
    pub cant_see_cooldown: u32,
    /// A water-bucket clutch is in progress.
    pub mlg_placed: bool,
    /// A chat line waiting to be said in game.
    pub pending_say: Option<String>,
}

/// The plain content of a `Runtime`.
pub struct RuntimeView {
    pub mode: Mode,
    pub follow_target: Option<Seq<char>>,
    pub protect_target: Option<Seq<char>>,
    pub killaura_on: bool,
    pub killaura_range: u64,
    pub killaura_stay_still: bool,
    pub sel1: Option<BlockPos>,
    pub sel2: Option<BlockPos>,
    pub mining_active: bool,
    pub pull_request: Option<Seq<char>>,
    pub pull_active: bool,
    pub stasis: Seq<StasisView>,
    pub next_stasis_id: u32,
    pub eat_cooldown: u32,
    pub telemetry_cooldown: u32,
    pub anti_afk: u32,
    pub command_sender: Option<Seq<char>>,
    pub auto_totem: bool,
    pub auto_armor: bool,
    pub auto_disconnect: bool,
    pub auto_disconnect_health: u64,
    pub goto_target: Option<BlockPos>,
    pub last_goal: Option<Vec3>,
    pub follow_distance: u64,
    pub sprinting: bool,
    pub sneaking: bool,
    pub deposit_request: bool,
    pub deposit_active: bool,
    pub drop_trash_request: bool,
    pub drop_trash_active: bool,
    pub eat_threshold: u32,
    pub equip_cooldown: u32,
    pub cant_see_cooldown: u32,
    pub mlg_placed: bool,
    pub pending_say: Option<Seq<char>>,
}

/// The content of a list of chambers.
#[verifier::opaque]
pub open spec fn stasis_views(s: Seq<Stasis>) -> Seq<StasisView> {
    s.map_values(|x: Stasis| x@)
}

impl View for Runtime {
    type V = RuntimeView;

    open spec fn view(&self) -> RuntimeView {
        RuntimeView {
            mode: self.mode,
            follow_target: opt_text(self.follow_target),
            protect_target: opt_text(self.protect_target),
            killaura_on: self.killaura_on,
            killaura_range: self.killaura_range,
            killaura_stay_still: self.killaura_stay_still,
            sel1: self.sel1,
            sel2: self.sel2,
            mining_active: self.mining_active,
            pull_request: opt_text(self.pull_request),
            pull_active: self.pull_active,
            stasis: stasis_views(self.stasis@),
            next_stasis_id: self.next_stasis_id,
            eat_cooldown: self.eat_cooldown,
            telemetry_cooldown: self.telemetry_cooldown,
            anti_afk: self.anti_afk,
            command_sender: opt_text(self.command_sender),
            auto_totem: self.auto_totem,
            auto_armor: self.auto_armor,
            auto_disconnect: self.auto_disconnect,
            auto_disconnect_health: self.auto_disconnect_health,
            goto_target: self.goto_target,
            last_goal: self.last_goal,
            follow_distance: self.follow_distance,
            sprinting: self.sprinting,
            sneaking: self.sneaking,
            deposit_request: self.deposit_request,
            deposit_active: self.deposit_active,
            drop_trash_request: self.drop_trash_request,
            drop_trash_active: self.drop_trash_active,
            eat_threshold: self.eat_threshold,
            equip_cooldown: self.equip_cooldown,
            cant_see_cooldown: self.cant_see_cooldown,
            mlg_placed: self.mlg_placed,
            pending_say: opt_text(self.pending_say),
        }
    }
}

/// The state a bot starts in.
pub open spec fn default_runtime() -> RuntimeView {
    RuntimeView {
        mode: Mode::Idle,
        follow_target: None,
        protect_target: None,
        killaura_on: false,
        killaura_range: DEFAULT_KILLAURA_RANGE,
        killaura_stay_still: true,
        sel1: None,
        sel2: None,
        mining_active: false,
        pull_request: None,
        pull_active: false,
        stasis: Seq::empty(),
        next_stasis_id: 1,
        eat_cooldown: 0,
        telemetry_cooldown: 0,
        anti_afk: 0,
        command_sender: None,
        auto_totem: false,
        auto_armor: false,
        auto_disconnect: false,
        auto_disconnect_health: 0,
        goto_target: None,
        last_goal: None,
        follow_distance: DEFAULT_FOLLOW_DISTANCE,
        sprinting: false,
        sneaking: false,
        deposit_request: false,
        deposit_active: false,
        drop_trash_request: false,
        drop_trash_active: false,
        eat_threshold: DEFAULT_EAT_THRESHOLD,
        equip_cooldown: 0,
        cant_see_cooldown: 0,
        mlg_placed: false,
        pending_say: None,
    }
}

impl Default for Runtime {
    fn default() -> (r: Self)
        ensures
            r@ == default_runtime(),
    {
        let r = Runtime {
            mode: Mode::Idle,
            follow_target: None,
            protect_target: None,
            killaura_on: false,
            killaura_range: DEFAULT_KILLAURA_RANGE,
            killaura_stay_still: true,
            sel1: None,
            sel2: None,
            mining_active: false,
            pull_request: None,
            pull_active: false,
            stasis: Vec::new(),
            next_stasis_id: 1,
            eat_cooldown: 0,
            telemetry_cooldown: 0,
            anti_afk: 0,
            command_sender: None,
            auto_totem: false,
            auto_armor: false,
            auto_disconnect: false,
            auto_disconnect_health: 0,
            goto_target: None,
            last_goal: None,
            follow_distance: DEFAULT_FOLLOW_DISTANCE,
            sprinting: false,
            sneaking: false,
            deposit_request: false,
            deposit_active: false,
            drop_trash_request: false,
            drop_trash_active: false,
            eat_threshold: DEFAULT_EAT_THRESHOLD,
            equip_cooldown: 0,
            cant_see_cooldown: 0,
            mlg_placed: false,
            pending_say: None,
        };
        assert(r@.stasis =~= Seq::<StasisView>::empty()) by {
            reveal(stasis_views);
        }
        r
    }
}

/// The bounds every runtime keeps: the eat threshold, follow radius and
/// killaura range within their limits, and an auto-disconnect health that is a
/// number no lower than zero.
pub open spec fn runtime_bounds(v: RuntimeView) -> bool {
    &&& MIN_EAT_THRESHOLD <= v.eat_threshold <= MAX_EAT_THRESHOLD
    &&& !f64_is_nan(v.follow_distance)
    &&& !f64_lt(v.follow_distance, MIN_FOLLOW_DISTANCE)
    &&& !f64_lt(MAX_FOLLOW_DISTANCE, v.follow_distance)
    &&& !f64_is_nan(v.killaura_range)
    &&& !f64_lt(v.killaura_range, MIN_KILLAURA_RANGE)
    &&& !f64_lt(MAX_KILLAURA_RANGE, v.killaura_range)
    &&& !f64_is_nan(v.auto_disconnect_health)
    &&& f64_key(v.auto_disconnect_health) >= 0
    &&& v.mode == Mode::Goto ==> v.goto_target is Some
}

/// A number field of a command is finite when present, as serde_json's
/// numbers always are.
pub open spec fn finite_field(raw: Seq<char>, key: Seq<char>) -> bool {
    json_f64_bits_at(raw, key) matches Some(b) ==> !f64_is_nan(b) && !f64_is_infinite(b)
}

/// A text field that counts only when present and non-empty.
pub open spec fn nonempty_text(o: Option<Seq<char>>) -> Option<Seq<char>> {
    match o {
        Some(s) => if s.len() == 0 {
            None
        } else {
            Some(s)
        },
        None => None,
    }
}

/// A boolean field, `false` when absent or not a boolean.
pub open spec fn flag(o: Option<bool>) -> bool {
    match o {
        Some(b) => b,
        None => false,
    }
}

/// `u64 as u32` (keeps the low 32 bits).
pub open spec fn low_u32(v: u64) -> u32 {
    (v % 0x1_0000_0000) as u32
}

/// `v.clamp(lo, hi)` on integers.
pub open spec fn clamp_u32(v: u32, lo: u32, hi: u32) -> u32 {
    if v < lo {
        lo
    } else if v > hi {
        hi
    } else {
        v
    }
}

/// What one command from the mod does to a bot's runtime. `raw` is the JSON
/// text of the command. Any command first forgets the whisper sender; then
/// the `"cmd"` field selects the change. An unknown or missing command changes
/// nothing else.
pub open spec fn command_effect(rt: RuntimeView, raw: Seq<char>) -> RuntimeView {
    match json_str_at(raw, "cmd"@) {
        None => without_sender(rt),
        Some(cmd) => movement_command_effect(without_sender(rt), cmd, raw),
    }
}

/// The runtime with the whisper sender forgotten.
#[verifier::opaque]
pub open spec fn without_sender(rt: RuntimeView) -> RuntimeView {
    RuntimeView { command_sender: None, ..rt }
}

/// `follow`: the bot follows the `target` player (the owner when none is named).
#[verifier::opaque]
pub open spec fn follow_effect(v: RuntimeView, raw: Seq<char>) -> RuntimeView {
    RuntimeView {
        mode: Mode::Follow,
        follow_target: nonempty_text(json_str_at(raw, "target"@)),
        ..v
    }
}

/// `protect`: the bot guards the `target` player (the owner when none is named).
#[verifier::opaque]
pub open spec fn protect_effect(v: RuntimeView, raw: Seq<char>) -> RuntimeView {
    RuntimeView {
        mode: Mode::Protect,
        protect_target: nonempty_text(json_str_at(raw, "target"@)),
        ..v
    }
}

/// `stop`: everything stops: idle, no killaura, no mining, no goto.
#[verifier::opaque]
pub open spec fn stop_effect(v: RuntimeView, raw: Seq<char>) -> RuntimeView {
    RuntimeView {
        mode: Mode::Idle,
        killaura_on: false,
        mining_active: false,
        goto_target: None,
        last_goal: None,
        ..v
    }
}

/// `killaura`: killaura on/off, its range clamped to 2.0..=6.0, and whether it stays still.
#[verifier::opaque]
pub open spec fn killaura_effect(v: RuntimeView, raw: Seq<char>) -> RuntimeView {
    RuntimeView {
        killaura_on: flag(json_bool_at(raw, "on"@)),
        killaura_range: match json_f64_bits_at(raw, "range"@) {
            Some(r) => f64_clamp(r, MIN_KILLAURA_RANGE, MAX_KILLAURA_RANGE),
            None => v.killaura_range,
        },
        killaura_stay_still: flag(json_bool_at(raw, "stay_still"@)),
        ..v
    }
}

/// `hold_position`: hold position on, or back to idle.
#[verifier::opaque]
pub open spec fn hold_effect(v: RuntimeView, raw: Seq<char>) -> RuntimeView {
    RuntimeView {
        mode: if flag(json_bool_at(raw, "on"@)) {
            Mode::Hold
        } else {
            Mode::Idle
        },
        ..v
    }
}

/// `mine_start`: start mining the selected box.
#[verifier::opaque]
pub open spec fn mine_effect(v: RuntimeView, raw: Seq<char>) -> RuntimeView {
    RuntimeView { mode: Mode::Mine, ..v }
}

/// `goto`: walk to the block containing (x, y, z): each coordinate floored.
#[verifier::opaque]
pub open spec fn goto_effect(v: RuntimeView, raw: Seq<char>) -> RuntimeView {
    match (json_f64_bits_at(raw, "x"@), json_f64_bits_at(raw, "y"@), json_f64_bits_at(raw, "z"@)) {
        (Some(x), Some(y), Some(z)) => RuntimeView {
            goto_target: Some(
                BlockPos { x: f64_floor_i32(x), y: f64_floor_i32(y), z: f64_floor_i32(z) },
            ),
            mode: Mode::Goto,
            ..v
        },
        _ => v,
    }
}

/// `follow_distance`: the follow radius, clamped to 1.0..=10.0.
#[verifier::opaque]
pub open spec fn follow_distance_effect(v: RuntimeView, raw: Seq<char>) -> RuntimeView {
    RuntimeView {
        follow_distance: match json_f64_bits_at(raw, "distance"@) {
            Some(d) => f64_clamp(d, MIN_FOLLOW_DISTANCE, MAX_FOLLOW_DISTANCE),
            None => v.follow_distance,
        },
        ..v
    }
}

/// `sprint`: sprint on/off.
#[verifier::opaque]
pub open spec fn sprint_effect(v: RuntimeView, raw: Seq<char>) -> RuntimeView {
    RuntimeView { sprinting: flag(json_bool_at(raw, "on"@)), ..v }
}

/// `sneak`: sneak on/off.
#[verifier::opaque]
pub open spec fn sneak_effect(v: RuntimeView, raw: Seq<char>) -> RuntimeView {
    RuntimeView { sneaking: flag(json_bool_at(raw, "on"@)), ..v }
}

/// `pull`: request a stasis pull for `arg` (`manual` when none is given).
#[verifier::opaque]
pub open spec fn pull_effect(v: RuntimeView, raw: Seq<char>) -> RuntimeView {
    RuntimeView {
        pull_request: Some(
            match nonempty_text(json_str_at(raw, "arg"@)) {
                Some(a) => a,
                None => "manual"@,
            },
        ),
        ..v
    }
}

/// `say`: queue the non-empty `text` to be said in game chat on the next
/// tick; without such a text nothing changes.
#[verifier::opaque]
pub open spec fn say_effect(v: RuntimeView, raw: Seq<char>) -> RuntimeView {
    match nonempty_text(json_str_at(raw, "text"@)) {
        Some(line) => RuntimeView { pending_say: Some(line), ..v },
        None => v,
    }
}

/// `auto_totem`: auto-totem on/off.
#[verifier::opaque]
pub open spec fn auto_totem_effect(v: RuntimeView, raw: Seq<char>) -> RuntimeView {
    RuntimeView { auto_totem: flag(json_bool_at(raw, "on"@)), ..v }
}

/// `auto_armor`: auto-armor on/off.
#[verifier::opaque]
pub open spec fn auto_armor_effect(v: RuntimeView, raw: Seq<char>) -> RuntimeView {
    RuntimeView { auto_armor: flag(json_bool_at(raw, "on"@)), ..v }
}

/// `auto_disconnect`: auto-disconnect on/off, with its health threshold no lower than zero.
#[verifier::opaque]
pub open spec fn auto_disconnect_effect(v: RuntimeView, raw: Seq<char>) -> RuntimeView {
    RuntimeView {
        auto_disconnect: flag(json_bool_at(raw, "on"@)),
        auto_disconnect_health: match json_f64_bits_at(raw, "health"@) {
            Some(h) => f64_at_least_zero(h),
            None => v.auto_disconnect_health,
        },
        ..v
    }
}

/// `deposit`: request a deposit into the nearest chest.
#[verifier::opaque]
pub open spec fn deposit_effect(v: RuntimeView, raw: Seq<char>) -> RuntimeView {
    RuntimeView { deposit_request: true, ..v }
}

/// `drop_trash`: request dropping the trash items.
#[verifier::opaque]
pub open spec fn drop_trash_effect(v: RuntimeView, raw: Seq<char>) -> RuntimeView {
    RuntimeView { drop_trash_request: true, ..v }
}

/// `eat_threshold`: the auto-eat food level, `as u32` then clamped to 1..=19.
#[verifier::opaque]
pub open spec fn eat_threshold_effect(v: RuntimeView, raw: Seq<char>) -> RuntimeView {
    RuntimeView {
        eat_threshold: match json_u64_at(raw, "food"@) {
            Some(f) => clamp_u32(low_u32(f), MIN_EAT_THRESHOLD, MAX_EAT_THRESHOLD),
            None => v.eat_threshold,
        },
        ..v
    }
}

/// The movement commands; anything else goes on to the task commands.
pub open spec fn movement_command_effect(v: RuntimeView, cmd: Seq<char>, raw: Seq<char>) -> RuntimeView {
    if cmd == "follow"@ {
        follow_effect(v, raw)
    } else if cmd == "protect"@ {
        protect_effect(v, raw)
    } else if cmd == "stop"@ {
        stop_effect(v, raw)
    } else if cmd == "killaura"@ {
        killaura_effect(v, raw)
    } else if cmd == "hold_position"@ {
        hold_effect(v, raw)
    } else if cmd == "mine_start"@ {
        mine_effect(v, raw)
    } else if cmd == "goto"@ {
        goto_effect(v, raw)
    } else if cmd == "follow_distance"@ {
        follow_distance_effect(v, raw)
    } else if cmd == "sprint"@ {
        sprint_effect(v, raw)
    } else if cmd == "sneak"@ {
        sneak_effect(v, raw)
    } else {
        task_command_effect(v, cmd, raw)
    }
}

/// The number fields that the movement command `cmd` reads are finite, taken in
/// the order in which `movement_command_effect` tells the commands apart.
pub open spec fn movement_fields_finite(cmd: Seq<char>, raw: Seq<char>) -> bool {
    if cmd == "follow"@ || cmd == "protect"@ || cmd == "stop"@ {
        true
    } else if cmd == "killaura"@ {
        finite_field(raw, "range"@)
    } else if cmd == "hold_position"@ || cmd == "mine_start"@ || cmd == "goto"@ {
        true
    } else if cmd == "follow_distance"@ {
        finite_field(raw, "distance"@)
    } else {
        true
    }
}

/// The task and survival commands; anything else changes nothing.
pub open spec fn task_command_effect(v: RuntimeView, cmd: Seq<char>, raw: Seq<char>) -> RuntimeView {
    if cmd == "pull"@ {
        pull_effect(v, raw)
    } else if cmd == "say"@ {
        say_effect(v, raw)
    } else if cmd == "auto_totem"@ {
        auto_totem_effect(v, raw)
    } else if cmd == "auto_armor"@ {
        auto_armor_effect(v, raw)
    } else if cmd == "auto_disconnect"@ {
        auto_disconnect_effect(v, raw)
    } else if cmd == "deposit"@ {
        deposit_effect(v, raw)
    } else if cmd == "drop_trash"@ {
        drop_trash_effect(v, raw)
    } else if cmd == "eat_threshold"@ {
        eat_threshold_effect(v, raw)
    } else {
        v
    }
}

/// Law: a `killaura` command switches killaura on exactly when its `on`
/// field is `true`, and makes the bot stay still exactly when its
/// `stay_still` field is `true` (an absent field meaning `false`).
pub proof fn lemma_killaura_follows_its_fields(rt: RuntimeView, raw: Seq<char>)
    requires
        json_str_at(raw, "cmd"@) == Some("killaura"@),
    ensures
        command_effect(rt, raw).killaura_on == (json_bool_at(raw, "on"@) == Some(true)),
        command_effect(rt, raw).killaura_stay_still == (json_bool_at(raw, "stay_still"@) == Some(
            true,
        )),
        command_effect(rt, raw).mode == rt.mode,
{
    reveal(killaura_effect);
    reveal(without_sender);
    reveal_strlit("killaura");
    reveal_strlit("follow");
    reveal_strlit("protect");
    reveal_strlit("stop");
    assert("killaura"@ != "follow"@) by {
        assert("killaura"@.len() != "follow"@.len());
    }
    assert("killaura"@ != "protect"@) by {
        assert("killaura"@.len() != "protect"@.len());
    }
    assert("killaura"@ != "stop"@) by {
        assert("killaura"@.len() != "stop"@.len());
    }
}

/// Law: a command applied twice leaves the runtime as applying it once does.
pub proof fn lemma_command_idempotent(rt: RuntimeView, raw: Seq<char>)
    ensures
        command_effect(command_effect(rt, raw), raw) == command_effect(rt, raw),
{
    let v = without_sender(rt);
    assert(v.command_sender is None && without_sender(v) == v) by {
        reveal(without_sender);
    }
    if let Some(cmd) = json_str_at(raw, "cmd"@) {
        let w = movement_command_effect(v, cmd, raw);
        lemma_movement_idempotent(v, cmd, raw);
        assert(without_sender(w) == w) by {
            reveal(without_sender);
        }
    }
}

/// A movement command applied twice acts as once, and leaves the whisper
/// sender alone.
proof fn lemma_movement_idempotent(v: RuntimeView, cmd: Seq<char>, raw: Seq<char>)
    ensures
        movement_command_effect(movement_command_effect(v, cmd, raw), cmd, raw)
            == movement_command_effect(v, cmd, raw),
        movement_command_effect(v, cmd, raw).command_sender == v.command_sender,
{
    if cmd == "follow"@ {
        reveal(follow_effect);
    } else if cmd == "protect"@ {
        reveal(protect_effect);
    } else if cmd == "stop"@ {
        reveal(stop_effect);
    } else if cmd == "killaura"@ {
        reveal(killaura_effect);
    } else if cmd == "hold_position"@ {
        reveal(hold_effect);
    } else if cmd == "mine_start"@ {
        reveal(mine_effect);
    } else if cmd == "goto"@ {
        reveal(goto_effect);
    } else if cmd == "follow_distance"@ {
        reveal(follow_distance_effect);
    } else if cmd == "sprint"@ {
        reveal(sprint_effect);
    } else if cmd == "sneak"@ {
        reveal(sneak_effect);
    } else {
        lemma_task_idempotent(v, cmd, raw);
    }
}

/// A task command applied twice acts as once, and leaves the whisper sender
/// alone.
#[verifier::rlimit(30)]
proof fn lemma_task_idempotent(v: RuntimeView, cmd: Seq<char>, raw: Seq<char>)
    ensures
        task_command_effect(task_command_effect(v, cmd, raw), cmd, raw)
            == task_command_effect(v, cmd, raw),
        task_command_effect(v, cmd, raw).command_sender == v.command_sender,
{
    if cmd == "pull"@ {
        reveal(pull_effect);
    } else if cmd == "say"@ {
        reveal(say_effect);
    } else if cmd == "auto_totem"@ {
        reveal(auto_totem_effect);
    } else if cmd == "auto_armor"@ {
        reveal(auto_armor_effect);
    } else if cmd == "auto_disconnect"@ {
        reveal(auto_disconnect_effect);
    } else if cmd == "deposit"@ {
        reveal(deposit_effect);
    } else if cmd == "drop_trash"@ {
        reveal(drop_trash_effect);
    } else if cmd == "eat_threshold"@ {
        reveal(eat_threshold_effect);
    }
}

/// The bot starts within its bounds.
pub proof fn lemma_default_runtime_in_bounds()
    ensures
        runtime_bounds(default_runtime()),
{
}

/// The runtime after the commands `cmds`, applied in order.
pub open spec fn commands_effect(rt: RuntimeView, cmds: Seq<Seq<char>>) -> RuntimeView
    decreases cmds.len(),
{
    if cmds.len() == 0 {
        rt
    } else {
        commands_effect(command_effect(rt, cmds[0]), cmds.drop_first())
    }
}

/// Law: a runtime within its bounds (the default one is) stays within them
/// whatever commands it is then given, in any number, the number fields of
/// each being finite as serde_json's numbers are.
pub proof fn lemma_commands_keep_bounds(rt: RuntimeView, cmds: Seq<Seq<char>>)
    requires
        runtime_bounds(rt),
        forall|i: int|
            0 <= i < cmds.len() ==> finite_field(#[trigger] cmds[i], "range"@) && finite_field(
                cmds[i],
                "distance"@,
            ),
    ensures
        runtime_bounds(commands_effect(rt, cmds)),
    decreases cmds.len(),
{
    if cmds.len() > 0 {
        lemma_command_keeps_bounds(rt, cmds[0]);
        let rest = cmds.drop_first();
        assert forall|i: int| 0 <= i < rest.len() implies finite_field(#[trigger] rest[i], "range"@)
            && finite_field(rest[i], "distance"@) by {
            assert(rest[i] == cmds[i + 1]);
        }
        lemma_commands_keep_bounds(command_effect(rt, cmds[0]), rest);
    }
}

/// Law: a bot that starts from the default runtime and is then given any
/// commands, in any number, stays within its bounds (the number fields of
/// each command being finite, as serde_json's numbers are).
pub proof fn lemma_default_stays_in_bounds(cmds: Seq<Seq<char>>)
    requires
        forall|i: int|
            0 <= i < cmds.len() ==> finite_field(#[trigger] cmds[i], "range"@) && finite_field(
                cmds[i],
                "distance"@,
            ),
    ensures
        runtime_bounds(commands_effect(default_runtime(), cmds)),
{
    lemma_default_runtime_in_bounds();
    lemma_commands_keep_bounds(default_runtime(), cmds);
}

/// Law: every command keeps a runtime within its bounds (the eat threshold
/// stays in 1..=19, the follow radius in 1.0..=10.0, the killaura range in
/// 2.0..=6.0, the auto-disconnect health a number no lower than zero, and a bot
/// in goto mode has a target). The two number fields a command clamps are
/// finite, as serde_json's numbers always are.
pub proof fn lemma_command_keeps_bounds(rt: RuntimeView, raw: Seq<char>)
    requires
        runtime_bounds(rt),
        finite_field(raw, "range"@),
        finite_field(raw, "distance"@),
    ensures
        runtime_bounds(command_effect(rt, raw)),
{
    reveal(without_sender);
    let v = without_sender(rt);
    assert(runtime_bounds(v));
    if let Some(cmd) = json_str_at(raw, "cmd"@) {
        lemma_movement_keeps_bounds(v, cmd, raw);
    }
}

/// The movement commands keep a runtime within its bounds.
proof fn lemma_movement_keeps_bounds(v: RuntimeView, cmd: Seq<char>, raw: Seq<char>)
    requires
        runtime_bounds(v),
        movement_fields_finite(cmd, raw),
    ensures
        runtime_bounds(movement_command_effect(v, cmd, raw)),
{
    if cmd == "follow"@ {
        reveal(follow_effect);
    } else if cmd == "protect"@ {
        reveal(protect_effect);
    } else if cmd == "stop"@ {
        reveal(stop_effect);
    } else if cmd == "killaura"@ {
        reveal(killaura_effect);
        reveal(f64_clamp);
        assert(json_f64_bits_at(raw, "range"@) matches Some(b) ==> !f64_is_nan(b));
    } else if cmd == "hold_position"@ {
        reveal(hold_effect);
    } else if cmd == "mine_start"@ {
        reveal(mine_effect);
    } else if cmd == "goto"@ {
        reveal(goto_effect);
    } else if cmd == "follow_distance"@ {
        reveal(follow_distance_effect);
        reveal(f64_clamp);
        assert(json_f64_bits_at(raw, "distance"@) matches Some(b) ==> !f64_is_nan(b));
    } else if cmd == "sprint"@ {
        reveal(sprint_effect);
    } else if cmd == "sneak"@ {
        reveal(sneak_effect);
    } else {
        lemma_task_keeps_bounds(v, cmd, raw);
    }
}

/// The task and survival commands keep a runtime within its bounds.
proof fn lemma_task_keeps_bounds(v: RuntimeView, cmd: Seq<char>, raw: Seq<char>)
    requires
        runtime_bounds(v),
    ensures
        runtime_bounds(task_command_effect(v, cmd, raw)),
{
    if cmd == "pull"@ {
        reveal(pull_effect);
    } else if cmd == "say"@ {
        reveal(say_effect);
    } else if cmd == "auto_totem"@ {
        reveal(auto_totem_effect);
    } else if cmd == "auto_armor"@ {
        reveal(auto_armor_effect);
    } else if cmd == "auto_disconnect"@ {
        reveal(auto_disconnect_effect);
        reveal(f64_at_least_zero);
    } else if cmd == "deposit"@ {
        reveal(deposit_effect);
    } else if cmd == "drop_trash"@ {
        reveal(drop_trash_effect);
    } else if cmd == "eat_threshold"@ {
        reveal(eat_threshold_effect);
    }
}

/// A non-empty text field, copied (`str_field` in the protocol).
fn str_field(raw: &str, key: &str) -> (r: Option<String>)
    ensures
        opt_text(r) == nonempty_text(json_str_at(raw@, key@)),
{
    match json_str_field(raw, key) {
        Some(s) => if s.as_str().unicode_len() == 0 {
            None
        } else {
            Some(s)
        },
        None => None,
    }
}

/// A boolean field, `false` when absent (`bool_field` in the protocol).
fn bool_field(raw: &str, key: &str) -> (r: bool)
    ensures
        r == flag(json_bool_at(raw@, key@)),
{
    match json_bool_field(raw, key) {
        Some(b) => b,
        None => false,
    }
}

/// The sender half of the event channel (`tokio::sync::broadcast`).
#[verifier::external_type_specification]
#[verifier::external_body]
#[verifier::reject_recursive_types(T)]
pub struct ExBroadcastSender<T>(broadcast::Sender<T>);

/// `tokio::sync::broadcast::channel(capacity)`, keeping the sender. The
/// channel panics on a zero capacity or one above `usize::MAX / 2`. Nothing is
/// stated of the sender: it is an opaque handle.
#[verifier::external_body]
fn event_channel(capacity: usize) -> broadcast::Sender<String>
    requires
        0 < capacity <= usize::MAX / 2,
{
    broadcast::channel(capacity).0
}

/// `broadcast::Sender::send`. Whether any receiver gets the message depends on
/// who is subscribed at that moment, so nothing is stated; the outcome is
/// ignored, as a message with no listener is simply dropped.
#[verifier::external_body]
fn send_event(tx: &broadcast::Sender<String>, json: String) {
    let _ = tx.send(json);
}

/// `broadcast::Sender::clone`: another handle on the same channel. Nothing is
/// stated of the opaque handle.
#[verifier::external_body]
fn clone_sender(tx: &broadcast::Sender<String>) -> broadcast::Sender<String> {
    tx.clone()
}

/// Everything one bot owns: its account id (username), its isolated `Runtime`,
/// and a handle to the shared event channel so it can emit events tagged with
/// its own id.
pub struct BotCtx {
    pub id: String,
    pub rt: Runtime,
    pub tx: broadcast::Sender<String>,
    /// The events this context has handed to the channel, oldest first.
    pub sent: Ghost<Seq<Seq<char>>>,
}

/// `"key":value`, with the key as a JSON string literal and the value's text as is.
pub open spec fn json_member(key: Seq<char>, value: Seq<char>) -> Seq<char> {
    json_string_literal(key) + seq![':'] + value
}

/// The telemetry event, keys in sorted order:
/// `{"bot":id,"event":"telemetry","food":n,"health":h,"mode":m,"x":x,"y":y,"z":z}`.
pub open spec fn telemetry_event(
    id: Seq<char>,
    health: Seq<char>,
    food: u32,
    x: Seq<char>,
    y: Seq<char>,
    z: Seq<char>,
    mode: Seq<char>,
) -> Seq<char> {
    seq!['{'] + json_member("bot"@, json_string_literal(id)) + seq![','] + json_member(
        "event"@,
        json_string_literal("telemetry"@),
    ) + seq![','] + json_member("food"@, decimal_digits(food as nat)) + seq![','] + json_member(
        "health"@,
        health,
    ) + seq![','] + json_member("mode"@, json_string_literal(mode)) + seq![','] + json_member(
        "x"@,
        x,
    ) + seq![','] + json_member("y"@, y) + seq![','] + json_member("z"@, z) + seq!['}']
}

/// Appends `"key":value` with the value's text as is.
fn push_member(out: &mut String, key: &str, value: &str)
    ensures
        final(out)@ == old(out)@ + json_member(key@, value@),
{
    let k = json_quote(key);
    out.append(k.as_str());
    push_char(out, ':');
    out.append(value);
}

/// `{"bot":id,"event":event,key:value}`, the shape of every per-bot event.
pub open spec fn bot_event(id: Seq<char>, event: Seq<char>, key: Seq<char>, value: Seq<char>) -> Seq<
    char,
> {
    json_object3("bot"@, id, "event"@, event, key, value)
}

impl BotCtx {
    /// The events this context has handed to the channel, oldest first.
    pub open spec fn events(&self) -> Seq<Seq<char>> {
        self.sent@
    }

    /// The account id this context belongs to.
    pub open spec fn bot_id(&self) -> Seq<char> {
        self.id@
    }

    /// The content of this bot's runtime.
    pub open spec fn state(&self) -> RuntimeView {
        self.rt@
    }

    fn new(id: String, tx: broadcast::Sender<String>) -> (r: Self)
        ensures
            r.bot_id() == id@,
            r.state() == default_runtime(),
            r.events() == Seq::<Seq<char>>::empty(),
    {
        BotCtx { id, rt: Runtime::default(), tx, sent: Ghost(Seq::empty()) }
    }

    /// Hands one JSON event to the channel feeding the mod.
    pub fn emit(&mut self, json: String)
        ensures
            final(self).events() == old(self).events().push(json@),
            final(self).bot_id() == old(self).bot_id(),
            final(self).state() == old(self).state(),
    {
        let ghost text = json@;
        send_event(&self.tx, json);
        self.sent = Ghost(self.sent@.push(text));
    }

    /// Chat / decision line for this specific bot.
    pub fn log(&mut self, text: &str)
        ensures
            final(self).events() == old(self).events().push(
                bot_event(old(self).bot_id(), "log"@, "text"@, text@),
            ),
            final(self).bot_id() == old(self).bot_id(),
            final(self).state() == old(self).state(),
    {
        let json = object3("bot", self.id.as_str(), "event", "log", "text", text);
        self.emit(json);
    }

    /// A problem the operator should see (e.g. "I can't see you").
    pub fn error(&mut self, text: &str)
        ensures
            final(self).events() == old(self).events().push(
                bot_event(old(self).bot_id(), "error"@, "text"@, text@),
            ),
            final(self).bot_id() == old(self).bot_id(),
            final(self).state() == old(self).state(),
    {
        let json = object3("bot", self.id.as_str(), "event", "error", "text", text);
        self.emit(json);
    }

    /// Per-bot status (online / disconnected / ...).
    pub fn status(&mut self, status: &str)
        ensures
            final(self).events() == old(self).events().push(
                bot_event(old(self).bot_id(), "status"@, "status"@, status@),
            ),
            final(self).bot_id() == old(self).bot_id(),
            final(self).state() == old(self).state(),
    {
        let json = object3("bot", self.id.as_str(), "event", "status", "status", status);
        self.emit(json);
    }

    /// Periodic telemetry: health, food level, position and mode. `health`
    /// and the coordinates come as the JSON numbers serde_json writes for them.
    pub fn telemetry(&mut self, health: &str, food: u32, x: &str, y: &str, z: &str)
        ensures
            final(self).events() == old(self).events().push(
                telemetry_event(
                    old(self).bot_id(),
                    health@,
                    food,
                    x@,
                    y@,
                    z@,
                    mode_name(old(self).state().mode),
                ),
            ),
            final(self).bot_id() == old(self).bot_id(),
            final(self).state() == old(self).state(),
    {
        let mode = self.rt.mode.as_str();
        let mut out = String::new();
        push_char(&mut out, '{');
        let id = json_quote(self.id.as_str());
        push_member(&mut out, "bot", id.as_str());
        push_char(&mut out, ',');
        let event = json_quote("telemetry");
        push_member(&mut out, "event", event.as_str());
        push_char(&mut out, ',');
        let mut food_text = String::new();
        push_decimal_digits(&mut food_text, food as u64);
        push_member(&mut out, "food", food_text.as_str());
        push_char(&mut out, ',');
        push_member(&mut out, "health", health);
        push_char(&mut out, ',');
        let m = json_quote(mode);
        push_member(&mut out, "mode", m.as_str());
        push_char(&mut out, ',');
        push_member(&mut out, "x", x);
        push_char(&mut out, ',');
        push_member(&mut out, "y", y);
        push_char(&mut out, ',');
        push_member(&mut out, "z", z);
        push_char(&mut out, '}');
        assert(out@ =~= telemetry_event(self.bot_id(), health@, food, x@, y@, z@, mode_name(self.state().mode)));
        self.emit(out);
    }

    /// Apply one command, given as its JSON text, to this bot's runtime.
    pub fn apply(&mut self, raw: &str)
        ensures
            final(self).state() == command_effect(old(self).state(), raw@),
            runtime_bounds(old(self).state()) ==> runtime_bounds(final(self).state()),
            final(self).bot_id() == old(self).bot_id(),
            final(self).events() == old(self).events(),
    {
        apply_command_to_runtime(&mut self.rt, raw);
    }
}

/// `BotCtx::apply` on the runtime itself.
fn apply_command_to_runtime(rt: &mut Runtime, raw: &str)
    ensures
        final(rt)@ == command_effect(old(rt)@, raw@),
        runtime_bounds(old(rt)@) ==> runtime_bounds(final(rt)@),
{
    rt.command_sender = None;
    assert(rt@ == without_sender(old(rt)@)) by {
        reveal(without_sender);
    }
    let cmd = json_str_field(raw, "cmd");
    if cmd.is_none() {
        return;
    }
    let c = cmd.unwrap();
    let ghost v = rt@;
    assert(runtime_bounds(old(rt)@) ==> runtime_bounds(v));
    apply_movement_command(rt, c.as_str(), raw);
    proof {
        if runtime_bounds(v) {
            lemma_movement_keeps_bounds(v, c@, raw@);
        }
    }
}

/// The movement half of `BotCtx::apply`.
fn apply_movement_command(rt: &mut Runtime, c: &str, raw: &str)
    ensures
        final(rt)@ == movement_command_effect(old(rt)@, c@, raw@),
        movement_fields_finite(c@, raw@),
{
    if same_text(c, "follow") {
        apply_follow(rt, raw);
    } else if same_text(c, "protect") {
        apply_protect(rt, raw);
    } else if same_text(c, "stop") {
        apply_stop(rt, raw);
    } else if same_text(c, "killaura") {
        apply_killaura(rt, raw);
    } else if same_text(c, "hold_position") {
        apply_hold(rt, raw);
    } else if same_text(c, "mine_start") {
        apply_mine(rt, raw);
    } else if same_text(c, "goto") {
        apply_goto(rt, raw);
    } else if same_text(c, "follow_distance") {
        apply_follow_distance(rt, raw);
    } else if same_text(c, "sprint") {
        apply_sprint(rt, raw);
    } else if same_text(c, "sneak") {
        apply_sneak(rt, raw);
    } else {
        apply_task_command(rt, c, raw);
    }
}

/// The task half of `BotCtx::apply`.
fn apply_task_command(rt: &mut Runtime, c: &str, raw: &str)
    ensures
        final(rt)@ == task_command_effect(old(rt)@, c@, raw@),
{
    if same_text(c, "pull") {
        apply_pull(rt, raw);
    } else if same_text(c, "say") {
        apply_say(rt, raw);
    } else if same_text(c, "auto_totem") {
        apply_auto_totem(rt, raw);
    } else if same_text(c, "auto_armor") {
        apply_auto_armor(rt, raw);
    } else if same_text(c, "auto_disconnect") {
        apply_auto_disconnect(rt, raw);
    } else if same_text(c, "deposit") {
        apply_deposit(rt, raw);
    } else if same_text(c, "drop_trash") {
        apply_drop_trash(rt, raw);
    } else if same_text(c, "eat_threshold") {
        apply_eat_threshold(rt, raw);
    } else {
    }
}

/// Carries out `follow`.
fn apply_follow(rt: &mut Runtime, raw: &str)
    ensures
        final(rt)@ == follow_effect(old(rt)@, raw@),
{
    reveal(follow_effect);
    rt.mode = Mode::Follow;
    rt.follow_target = str_field(raw, "target");
}

/// Carries out `protect`.
fn apply_protect(rt: &mut Runtime, raw: &str)
    ensures
        final(rt)@ == protect_effect(old(rt)@, raw@),
{
    reveal(protect_effect);
    rt.mode = Mode::Protect;
    rt.protect_target = str_field(raw, "target");
}

/// Carries out `stop`.
fn apply_stop(rt: &mut Runtime, raw: &str)
    ensures
        final(rt)@ == stop_effect(old(rt)@, raw@),
{
    reveal(stop_effect);
    rt.mode = Mode::Idle;
    rt.killaura_on = false;
    rt.mining_active = false;
    rt.goto_target = None;
    rt.last_goal = None;
}

/// Carries out `killaura`.
fn apply_killaura(rt: &mut Runtime, raw: &str)
    ensures
        final(rt)@ == killaura_effect(old(rt)@, raw@),
        finite_field(raw@, "range"@),
{
    reveal(killaura_effect);
    let on = bool_field(raw, "on");
    let field = json_f64_bits_field(raw, "range");
    let range = match field {
        Some(r) => f64_clamp_bits(r, MIN_KILLAURA_RANGE, MAX_KILLAURA_RANGE),
        None => rt.killaura_range,
    };
    let stay_still = bool_field(raw, "stay_still");
    rt.killaura_on = on;
    rt.killaura_range = range;
    rt.killaura_stay_still = stay_still;
}

/// Carries out `hold_position`.
fn apply_hold(rt: &mut Runtime, raw: &str)
    ensures
        final(rt)@ == hold_effect(old(rt)@, raw@),
{
    reveal(hold_effect);
    rt.mode = if bool_field(raw, "on") {
        Mode::Hold
    } else {
        Mode::Idle
    };
}

/// Carries out `mine_start`.
fn apply_mine(rt: &mut Runtime, raw: &str)
    ensures
        final(rt)@ == mine_effect(old(rt)@, raw@),
{
    reveal(mine_effect);
    rt.mode = Mode::Mine;
}

/// Carries out `goto`.
fn apply_goto(rt: &mut Runtime, raw: &str)
    ensures
        final(rt)@ == goto_effect(old(rt)@, raw@),
{
    reveal(goto_effect);
    let x = json_f64_bits_field(raw, "x");
    let y = json_f64_bits_field(raw, "y");
    let z = json_f64_bits_field(raw, "z");
    if let (Some(x), Some(y), Some(z)) = (x, y, z) {
        rt.goto_target = Some(
            BlockPos::new(f64_floor_to_i32(x), f64_floor_to_i32(y), f64_floor_to_i32(z)),
        );
        rt.mode = Mode::Goto;
    }
}

/// Carries out `follow_distance`.
fn apply_follow_distance(rt: &mut Runtime, raw: &str)
    ensures
        final(rt)@ == follow_distance_effect(old(rt)@, raw@),
        finite_field(raw@, "distance"@),
{
    reveal(follow_distance_effect);
    let field = json_f64_bits_field(raw, "distance");
    if let Some(distance) = field {
        rt.follow_distance = f64_clamp_bits(distance, MIN_FOLLOW_DISTANCE, MAX_FOLLOW_DISTANCE);
    }
}

/// Carries out `sprint`.
fn apply_sprint(rt: &mut Runtime, raw: &str)
    ensures
        final(rt)@ == sprint_effect(old(rt)@, raw@),
{
    reveal(sprint_effect);
    rt.sprinting = bool_field(raw, "on");
}

/// Carries out `sneak`.
fn apply_sneak(rt: &mut Runtime, raw: &str)
    ensures
        final(rt)@ == sneak_effect(old(rt)@, raw@),
{
    reveal(sneak_effect);
    rt.sneaking = bool_field(raw, "on");
}

/// Carries out `pull`.
fn apply_pull(rt: &mut Runtime, raw: &str)
    ensures
        final(rt)@ == pull_effect(old(rt)@, raw@),
{
    reveal(pull_effect);
    rt.pull_request = Some(
        match str_field(raw, "arg") {
            Some(a) => a,
            None => String::from_str("manual"),
        },
    );
}

/// Carries out `say`.
fn apply_say(rt: &mut Runtime, raw: &str)
    ensures
        final(rt)@ == say_effect(old(rt)@, raw@),
{
    reveal(say_effect);
    if let Some(line) = str_field(raw, "text") {
        rt.pending_say = Some(line);
    }
}

/// Carries out `auto_totem`.
fn apply_auto_totem(rt: &mut Runtime, raw: &str)
    ensures
        final(rt)@ == auto_totem_effect(old(rt)@, raw@),
{
    reveal(auto_totem_effect);
    rt.auto_totem = bool_field(raw, "on");
}

/// Carries out `auto_armor`.
fn apply_auto_armor(rt: &mut Runtime, raw: &str)
    ensures
        final(rt)@ == auto_armor_effect(old(rt)@, raw@),
{
    reveal(auto_armor_effect);
    rt.auto_armor = bool_field(raw, "on");
}

/// Carries out `auto_disconnect`.
fn apply_auto_disconnect(rt: &mut Runtime, raw: &str)
    ensures
        final(rt)@ == auto_disconnect_effect(old(rt)@, raw@),
{
    reveal(auto_disconnect_effect);
    let on = bool_field(raw, "on");
    let health = match json_f64_bits_field(raw, "health") {
        Some(h) => f64_at_least_zero_bits(h),
        None => rt.auto_disconnect_health,
    };
    rt.auto_disconnect = on;
    rt.auto_disconnect_health = health;
}

/// Carries out `deposit`.
fn apply_deposit(rt: &mut Runtime, raw: &str)
    ensures
        final(rt)@ == deposit_effect(old(rt)@, raw@),
{
    reveal(deposit_effect);
    rt.deposit_request = true;
}

/// Carries out `drop_trash`.
fn apply_drop_trash(rt: &mut Runtime, raw: &str)
    ensures
        final(rt)@ == drop_trash_effect(old(rt)@, raw@),
{
    reveal(drop_trash_effect);
    rt.drop_trash_request = true;
}

/// Carries out `eat_threshold`.
fn apply_eat_threshold(rt: &mut Runtime, raw: &str)
    ensures
        final(rt)@ == eat_threshold_effect(old(rt)@, raw@),
{
    reveal(eat_threshold_effect);
    if let Some(food) = json_u64_field(raw, "food") {
        let low = food as u32;
        assert(low == low_u32(food)) by (bit_vector)
            requires
                low == food as u32,
        ;
        rt.eat_threshold = if low < MIN_EAT_THRESHOLD {
            MIN_EAT_THRESHOLD
        } else if low > MAX_EAT_THRESHOLD {
            MAX_EAT_THRESHOLD
        } else {
            low
        };
    }
}

} // verus!

verus! {

/// Whether a command whose `"bot"` field reads `target` is meant for the bot
/// `id`: no field, `"all"` or `"*"` broadcast to every bot, any other value
/// selects the bot with exactly that id.
pub open spec fn command_reaches(target: Option<Seq<char>>, id: Seq<char>) -> bool {
    match target {
        None => true,
        Some(t) => t == "all"@ || t == "*"@ || t == id,
    }
}

/// Texts in non-decreasing order.
pub open spec fn sorted_texts(s: Seq<Seq<char>>) -> bool {
    forall|i: int, j: int| 0 <= i < j < s.len() ==> !text_before(#[trigger] s[j], #[trigger] s[i])
}

/// No id occurs twice.
pub open spec fn distinct_texts(s: Seq<Seq<char>>) -> bool {
    forall|i: int, j: int| 0 <= i < j < s.len() ==> s[i] != s[j]
}

/// Law: a listing that is sorted and holds no id twice is fixed by the ids it
/// holds. So `Shared::ids` gives exactly the sorted set of registered ids,
/// and after `ctx(id)` that is the sorted set of the earlier ids and `id`.
pub proof fn lemma_sorted_listing_unique(a: Seq<Seq<char>>, b: Seq<Seq<char>>)
    requires
        sorted_texts(a),
        distinct_texts(a),
        sorted_texts(b),
        distinct_texts(b),
        forall|x: Seq<char>| a.contains(x) <==> b.contains(x),
    ensures
        a == b,
    decreases a.len(),
{
    if a.len() == 0 {
        if b.len() > 0 {
            assert(b.contains(b[0]));
        }
        assert(a =~= b);
    } else {
        assert(a.contains(a[0]));
        assert(b.contains(a[0]));
        let j = choose|j: int| 0 <= j < b.len() && b[j] == a[0];
        assert(b.contains(b[0]));
        assert(a.contains(b[0]));
        let k = choose|k: int| 0 <= k < a.len() && a[k] == b[0];
        if a[0] != b[0] {
            lemma_text_before_total(a[0], b[0]);
            if text_before(a[0], b[0]) {
                assert(j > 0);
                assert(!text_before(b[j], b[0]));
            } else {
                assert(k > 0);
                assert(!text_before(a[k], a[0]));
            }
        }
        let ra = a.drop_first();
        let rb = b.drop_first();
        assert forall|x: Seq<char>| ra.contains(x) <==> rb.contains(x) by {
            if ra.contains(x) {
                let m = choose|m: int| 0 <= m < ra.len() && ra[m] == x;
                assert(a[m + 1] == x);
                assert(a.contains(x));
                let n = choose|n: int| 0 <= n < b.len() && b[n] == x;
                assert(x != a[0]);
                assert(n != 0);
                assert(rb[n - 1] == x);
            }
            if rb.contains(x) {
                let m = choose|m: int| 0 <= m < rb.len() && rb[m] == x;
                assert(b[m + 1] == x);
                assert(b.contains(x));
                let n = choose|n: int| 0 <= n < a.len() && a[n] == x;
                assert(x != b[0]);
                assert(n != 0);
                assert(ra[n - 1] == x);
            }
        }
        assert forall|p: int, q: int| 0 <= p < q < ra.len() implies !text_before(
            #[trigger] ra[q],
            #[trigger] ra[p],
        ) by {
            assert(ra[p] == a[p + 1] && ra[q] == a[q + 1]);
        }
        assert forall|p: int, q: int| 0 <= p < q < rb.len() implies !text_before(
            #[trigger] rb[q],
            #[trigger] rb[p],
        ) by {
            assert(rb[p] == b[p + 1] && rb[q] == b[q + 1]);
        }
        lemma_sorted_listing_unique(ra, rb);
        assert(a =~= seq![a[0]] + ra);
        assert(b =~= seq![b[0]] + rb);
    }
}

/// `after` is `before` plus one roster event: `{"bots":[...],"event":"roster"}`
/// listing the ids of `registry` in sorted order.
pub open spec fn roster_announced(
    before: Seq<Seq<char>>,
    after: Seq<Seq<char>>,
    registry: Seq<Seq<char>>,
) -> bool {
    exists|ids: Seq<Seq<char>>|
        #![trigger sorted_texts(ids)]
        sorted_texts(ids) && ids.len() == registry.len() && (forall|x: Seq<char>|
            ids.contains(x) <==> registry.contains(x)) && after == before.push(
            json_object_list_then_string("bots"@, ids, "event"@, "roster"@),
        )
}

/// Where the bot `id` sits in the registry `ids`: its first position, or the
/// end of the registry when it is not registered yet (where it will be added).
pub open spec fn bot_index(ids: Seq<Seq<char>>, id: Seq<char>) -> int {
    if ids.contains(id) {
        choose|k: int| 0 <= k < ids.len() && ids[k] == id && forall|j: int| 0 <= j < k ==> ids[j] != id
    } else {
        ids.len() as int
    }
}

/// `s` with `x` at position `k`: replacing the item there when `k` is inside,
/// appended when `k` is the end.
pub open spec fn put_at<A>(s: Seq<A>, k: int, x: A) -> Seq<A> {
    if k < s.len() {
        s.update(k, x)
    } else {
        s.push(x)
    }
}

/// Process-wide state shared by the swarm and the bridge: the configuration,
/// the broadcast channel feeding the WebSocket, the registry of per-bot
/// contexts keyed by account username, and the name allowed to command the
/// bots by whisper. No username is registered twice.
pub struct Shared {
    pub(crate) config: Config,
    pub(crate) tx: broadcast::Sender<String>,
    registry: Registry,
    owner: String,
    sent: Ghost<Seq<Seq<char>>>,
}

/// The per-bot contexts, each beside the username it was registered under.
struct Registry {
    keys: Vec<String>,
    bots: Vec<BotCtx>,
}

impl Shared {
    /// The registered bot ids, in registration order.
    pub closed spec fn bot_ids(&self) -> Seq<Seq<char>> {
        self.registry.keys@.map_values(|k: String| k@)
    }

    /// The runtimes of the registered bots, in the same order as `bot_ids`.
    pub closed spec fn bot_states(&self) -> Seq<RuntimeView> {
        self.registry.bots@.map_values(|b: BotCtx| b.state())
    }

    /// Events each registered bot has emitted, in the same order as `bot_ids`.
    pub closed spec fn bot_events(&self) -> Seq<Seq<Seq<char>>> {
        self.registry.bots@.map_values(|b: BotCtx| b.events())
    }

    /// The in-game name allowed to command the bots by whisper.
    pub closed spec fn owner_name(&self) -> Seq<char> {
        self.owner@
    }

    /// The process-level events (not tied to one bot) emitted so far.
    pub closed spec fn events(&self) -> Seq<Seq<char>> {
        self.sent@
    }

    /// The configuration this process runs with.
    pub closed spec fn settings(&self) -> Config {
        self.config
    }

    /// No username is registered twice.
    #[verifier::type_invariant]
    closed spec fn registry_unique(self) -> bool {
        &&& self.registry.keys@.len() == self.registry.bots@.len()
        &&& distinct_texts(self.bot_ids())
    }

    pub fn new(config: Config) -> (r: Self)
        ensures
            r.bot_ids() == Seq::<Seq<char>>::empty(),
            distinct_texts(r.bot_ids()),
            r.owner_name() == config.owner@,
            r.events() == Seq::<Seq<char>>::empty(),
            r.settings() == config,
    {
        let tx = event_channel(256);
        let owner = config.owner.clone();
        let registry = Registry { keys: Vec::new(), bots: Vec::new() };
        assert(registry.keys@.map_values(|k: String| k@) =~= Seq::<Seq<char>>::empty());
        let r = Shared { config, tx, registry, owner, sent: Ghost(Seq::empty()) };
        r
    }

    /// The configuration this process runs with.
    pub fn config(&self) -> (r: &Config)
        ensures
            *r == self.settings(),
    {
        &self.config
    }

    /// The sending end of the event channel the bridge listens on.
    pub fn tx(&self) -> (r: &broadcast::Sender<String>) {
        &self.tx
    }

    /// The in-game name allowed to command the bots, or empty for nobody.
    pub fn owner(&self) -> (r: String)
        ensures
            r@ == self.owner_name(),
    {
        self.owner.clone()
    }

    /// Set the owner (called when the mod reports your Minecraft name).
    pub fn set_owner(&mut self, name: &str)
        ensures
            final(self).owner_name() == name@,
            final(self).bot_ids() == old(self).bot_ids(),
            final(self).bot_states() == old(self).bot_states(),
            final(self).bot_events() == old(self).bot_events(),
            final(self).events() == old(self).events(),
            final(self).settings() == old(self).settings(),
    {
        proof {
            use_type_invariant(&*self);
        }
        self.owner = String::from_str(name);
    }

    /// Index of the first bot registered under `id`, if any.
    fn find(&self, id: &str) -> (r: Option<usize>)
        ensures
            match r {
                Some(i) => i < self.bot_ids().len() && self.bot_ids()[i as int] == id@ && forall|
                    k: int,
                | 0 <= k < i ==> self.bot_ids()[k] != id@,
                None => !self.bot_ids().contains(id@),
            },
    {
        let mut i: usize = 0;
        while i < self.registry.keys.len()
            invariant
                i <= self.registry.keys@.len(),
                forall|k: int| 0 <= k < i ==> self.bot_ids()[k] != id@,
            decreases self.registry.keys@.len() - i,
        {
            if same_text(self.registry.keys[i].as_str(), id) {
                return Some(i);
            }
            i = i + 1;
        }
        None
    }

    /// Get the context for `id`, creating it on first use. Each account resolves
    /// to a stable `BotCtx` for the lifetime of the process; a new one starts
    /// from the default runtime.
    pub fn ctx(&mut self, id: &str) -> (r: &BotCtx)
        ensures
            old(self).bot_ids().contains(id@) ==> final(self).bot_ids() == old(self).bot_ids()
                && final(self).bot_states() == old(self).bot_states(),
            !old(self).bot_ids().contains(id@) ==> final(self).bot_ids() == old(self).bot_ids().push(
                id@,
            ) && final(self).bot_states() == old(self).bot_states().push(default_runtime()),
            distinct_texts(final(self).bot_ids()),
            final(self).bot_ids().contains(id@),
            r.bot_id() == id@,
            exists|k: int|
                0 <= k < final(self).bot_ids().len() && final(self).bot_ids()[k] == id@
                    && r.state() == final(self).bot_states()[k],
            final(self).owner_name() == old(self).owner_name(),
            final(self).events() == old(self).events(),
            final(self).settings() == old(self).settings(),
    {
        proof {
            use_type_invariant(&*self);
        }
        let i = self.index_for(id);
        proof {
            use_type_invariant(&*self);
            assert(self.bot_ids()[i as int] == id@);
            assert(self.bot_states()[i as int] == self.registry.bots@[i as int].state());
        }
        &self.registry.bots[i]
    }

    /// The position of `id` in the registry, registering it when new. The
    /// context there is handed out under its registered id.
    fn index_for(&mut self, id: &str) -> (i: usize)
        ensures
            i == bot_index(old(self).bot_ids(), id@),
            i < final(self).registry.bots@.len(),
            final(self).registry.bots@.len() == final(self).registry.keys@.len(),
            i < old(self).registry.bots@.len() ==> final(self).bot_ids() == old(self).bot_ids()
                && final(self).bot_states() == old(self).bot_states() && final(self).bot_events()
                == old(self).bot_events(),
            i == old(self).registry.bots@.len() ==> final(self).bot_ids() == old(self).bot_ids().push(id@)
                && final(self).bot_states() == old(self).bot_states().push(default_runtime())
                && final(self).bot_events() == old(self).bot_events().push(Seq::empty()),
            final(self).registry.bots@[i as int].bot_id() == id@,
            final(self).owner_name() == old(self).owner_name(),
            final(self).events() == old(self).events(),
            final(self).settings() == old(self).settings(),
    {
        proof {
            use_type_invariant(&*self);
        }
        let ghost ids = self.bot_ids();
        let ghost states = self.bot_states();
        let ghost evs = self.bot_events();
        match self.find(id) {
            Some(i) => {
                proof {
                    assert(ids.contains(id@)) by {
                        assert(ids[i as int] == id@);
                    }
                    let k = bot_index(ids, id@);
                    assert(0 <= k < ids.len() && ids[k] == id@ && forall|j: int|
                        0 <= j < k ==> ids[j] != id@) by {
                        assert(0 <= i < ids.len() && ids[i as int] == id@ && forall|j: int|
                            0 <= j < i ==> ids[j] != id@);
                    }
                    if k < i {
                        assert(ids[k] != id@);
                    }
                    if k > i {
                        assert(ids[i as int] != id@);
                    }
                }
                let key = self.registry.keys[i].clone();
                let ghost before = self.registry.bots@;
                self.registry.bots[i].id = key;
                proof {
                    assert(self.bot_ids() =~= ids) by {
                        assert forall|k: int| 0 <= k < ids.len() implies self.bot_ids()[k] == ids[k] by {
                            if k != i {
                                assert(self.registry.bots@[k] == before[k]);
                            }
                        }
                    }
                    assert(self.bot_states() =~= states) by {
                        assert forall|k: int| 0 <= k < ids.len() implies self.bot_states()[k] == states[k] by {
                            if k != i {
                                assert(self.registry.bots@[k] == before[k]);
                            }
                        }
                    }
                    assert(self.bot_events() =~= evs) by {
                        assert forall|k: int| 0 <= k < ids.len() implies self.bot_events()[k] == evs[k] by {
                            if k != i {
                                assert(self.registry.bots@[k] == before[k]);
                            }
                        }
                    }
                }
                i
            },
            None => {
                let ctx = BotCtx::new(String::from_str(id), clone_sender(&self.tx));
                let mut registry = Registry { keys: Vec::new(), bots: Vec::new() };
                proof {
                    assert(registry.keys@.map_values(|k: String| k@) =~= Seq::<Seq<char>>::empty());
                }
                std::mem::swap(&mut registry, &mut self.registry);
                registry.keys.push(String::from_str(id));
                registry.bots.push(ctx);
                proof {
                    assert(registry.keys@.map_values(|k: String| k@) =~= ids.push(id@));
                }
                self.registry = registry;
                proof {
                    assert(self.bot_ids() =~= ids.push(id@));
                    assert(self.bot_states() =~= states.push(default_runtime()));
                    assert(self.bot_events() =~= evs.push(Seq::empty()));
                }
                self.registry.bots.len() - 1
            },
        }
    }

    /// Mutable access to the context for `id`, creating it on first use (with
    /// the default runtime and no events). Whatever the caller then does to
    /// the context is what the registry holds at that position afterwards;
    /// the registered ids stay as they are, each held once.
    pub fn ctx_mut(&mut self, id: &str) -> (r: &mut BotCtx)
        ensures
            ({
                let ids = old(self).bot_ids();
                let k = bot_index(ids, id@);
                &&& r.bot_id() == id@
                &&& 0 <= k <= ids.len()
                &&& k < ids.len() ==> r.state() == old(self).bot_states()[k] && r.events()
                    == old(self).bot_events()[k]
                &&& k == ids.len() ==> r.state() == default_runtime() && r.events() == Seq::<
                    Seq<char>,
                >::empty()
                &&& final(self).bot_ids() == put_at(ids, k, id@)
                &&& final(self).bot_states() == put_at(old(self).bot_states(), k, final(r).state())
                &&& final(self).bot_events() == put_at(old(self).bot_events(), k, final(r).events())
            }),
            distinct_texts(final(self).bot_ids()),
            old(self).bot_states().len() == old(self).bot_ids().len(),
            old(self).bot_events().len() == old(self).bot_ids().len(),
            final(self).owner_name() == old(self).owner_name(),
            final(self).events() == old(self).events(),
            final(self).settings() == old(self).settings(),
    {
        proof {
            use_type_invariant(&*self);
        }
        let i = self.index_for(id);
        proof {
            use_type_invariant(&*self);
            assert(self.bot_states()[i as int] == self.registry.bots@[i as int].state());
            assert(self.bot_events()[i as int] == self.registry.bots@[i as int].events());
            let bots = self.registry.bots@;
            let k = bot_index(old(self).bot_ids(), id@);
            let mid_states = self.bot_states();
            let mid_events = self.bot_events();
            assert forall|b: BotCtx|
                #![trigger bots.update(i as int, b)]
                bots.update(i as int, b).map_values(|x: BotCtx| x.state()) == put_at(
                    old(self).bot_states(),
                    k,
                    b.state(),
                ) && bots.update(i as int, b).map_values(|x: BotCtx| x.events()) == put_at(
                    old(self).bot_events(),
                    k,
                    b.events(),
                ) by {
                assert(bots.update(i as int, b).map_values(|x: BotCtx| x.state()) =~= mid_states.update(
                    i as int,
                    b.state(),
                ));
                assert(bots.update(i as int, b).map_values(|x: BotCtx| x.events()) =~= mid_events.update(
                    i as int,
                    b.events(),
                ));
                assert(mid_states.update(i as int, b.state()) =~= put_at(old(self).bot_states(), k, b.state()));
                assert(mid_events.update(i as int, b.events()) =~= put_at(old(self).bot_events(), k, b.events()));
            }
        }
        &mut self.registry.bots[i]
    }

    /// Ids of every registered bot, in sorted order; used to announce the
    /// roster to the mod.
    pub fn ids(&self) -> (r: Vec<String>)
        ensures
            r@.len() == self.bot_ids().len(),
            sorted_texts(r@.map_values(|s: String| s@)),
            distinct_texts(r@.map_values(|s: String| s@)),
            forall|x: Seq<char>|
                r@.map_values(|s: String| s@).contains(x) <==> self.bot_ids().contains(x),
    {
        proof {
            use_type_invariant(self);
        }
        let mut out: Vec<String> = Vec::new();
        let mut i: usize = 0;
        while i < self.registry.keys.len()
            invariant
                i <= self.registry.keys@.len(),
                out@.len() == i,
                sorted_texts(out@.map_values(|s: String| s@)),
                distinct_texts(out@.map_values(|s: String| s@)),
                distinct_texts(self.bot_ids()),
                self.registry.keys@.len() == self.bot_ids().len(),
                forall|x: Seq<char>|
                    out@.map_values(|s: String| s@).contains(x) <==> self.bot_ids().subrange(
                        0,
                        i as int,
                    ).contains(x),
            decreases self.registry.keys@.len() - i,
        {
            let id = self.registry.keys[i].clone();
            let ghost x = id@;
            let ghost before = out@.map_values(|s: String| s@);
            // First position whose id sorts after this one.
            let mut p: usize = 0;
            while p < out.len() && !text_lt(id.as_str(), out[p].as_str())
                invariant
                    p <= out@.len(),
                    x == id@,
                    before == out@.map_values(|s: String| s@),
                    forall|k: int| 0 <= k < p ==> !text_before(x, #[trigger] before[k]),
                decreases out@.len() - p,
            {
                assert(before[p as int] == out@[p as int]@);
                p = p + 1;
            }
            out.insert(p, id);
            proof {
                let after = out@.map_values(|s: String| s@);
                assert(after =~= before.insert(p as int, x));
                assert(self.bot_ids()[i as int] == x);
                assert(!before.contains(x)) by {
                    if before.contains(x) {
                        assert(self.bot_ids().subrange(0, i as int).contains(x));
                        let j = choose|j: int|
                            0 <= j < i && #[trigger] self.bot_ids().subrange(0, i as int)[j] == x;
                        assert(self.bot_ids().subrange(0, i as int)[j] == self.bot_ids()[j]);
                        assert(self.bot_ids()[j] == self.bot_ids()[i as int]);
                    }
                }
                assert forall|a: int, b: int| 0 <= a < b < after.len() implies after[a] != after[b] by {
                    if a == p {
                        assert(after[b] == before[b - 1]);
                    } else if b == p {
                        assert(after[a] == before[a]);
                    } else if a < p && b < p {
                        assert(after[a] == before[a] && after[b] == before[b]);
                    } else if a < p {
                        assert(after[a] == before[a] && after[b] == before[b - 1]);
                    } else {
                        assert(after[a] == before[a - 1] && after[b] == before[b - 1]);
                    }
                }
                assert forall|a: int, b: int| 0 <= a < b < after.len() implies !text_before(
                    #[trigger] after[b],
                    #[trigger] after[a],
                ) by {
                    if b == p {
                        assert(after[a] == before[a]);
                    } else if a == p {
                        assert(after[b] == before[b - 1]);
                        assert(text_before(x, before[p as int]));
                        if text_before(before[b - 1], x) {
                            lemma_text_before_transitive(before[b - 1], x, before[p as int]);
                            if b - 1 > p {
                            } else {
                                lemma_text_before_asymmetric(before[p as int], x);
                            }
                        }
                    } else if a < p && b > p {
                        assert(after[a] == before[a]);
                        assert(after[b] == before[b - 1]);
                    } else if b < p {
                    } else {
                    }
                }
                assert(self.bot_ids()[i as int] == x);
                assert(self.bot_ids().subrange(0, i + 1) =~= self.bot_ids().subrange(
                    0,
                    i as int,
                ).push(x));
                assert forall|y: Seq<char>| after.contains(y) <==> self.bot_ids().subrange(
                    0,
                    i + 1,
                ).contains(y) by {
                    if after.contains(y) {
                        let k = choose|k: int| 0 <= k < after.len() && after[k] == y;
                        if k == p {
                            assert(self.bot_ids().subrange(0, i + 1)[i as int] == y);
                        } else if k < p {
                            assert(before[k] == y);
                            assert(before.contains(y));
                            assert(self.bot_ids().subrange(0, i as int).contains(y));
                            let j = choose|j: int|
                                0 <= j < i && self.bot_ids().subrange(0, i as int)[j] == y;
                            assert(self.bot_ids().subrange(0, i + 1)[j] == y);
                        } else {
                            assert(before[k - 1] == y);
                            assert(before.contains(y));
                            assert(self.bot_ids().subrange(0, i as int).contains(y));
                            let j = choose|j: int|
                                0 <= j < i && self.bot_ids().subrange(0, i as int)[j] == y;
                            assert(self.bot_ids().subrange(0, i + 1)[j] == y);
                        }
                    }
                    if self.bot_ids().subrange(0, i + 1).contains(y) {
                        if y == x {
                            assert(after[p as int] == y);
                        } else {
                            assert(self.bot_ids().subrange(0, i as int).contains(y));
                            let k = choose|k: int| 0 <= k < before.len() && before[k] == y;
                            if k < p {
                                assert(after[k] == y);
                            } else {
                                assert(after[k + 1] == y);
                            }
                        }
                    }
                }
            }
            i = i + 1;
        }
        assert(self.bot_ids().subrange(0, self.registry.keys@.len() as int) =~= self.bot_ids());
        out
    }

    fn send(&mut self, json: String)
        ensures
            final(self).events() == old(self).events().push(json@),
            final(self).bot_ids() == old(self).bot_ids(),
            final(self).bot_states() == old(self).bot_states(),
            final(self).bot_events() == old(self).bot_events(),
            final(self).owner_name() == old(self).owner_name(),
            final(self).settings() == old(self).settings(),
    {
        proof {
            use_type_invariant(&*self);
        }
        let ghost text = json@;
        send_event(&self.tx, json);
        self.sent = Ghost(self.sent@.push(text));
    }

    /// Process-level log line, not tied to any single bot (e.g. bridge events).
    pub fn log(&mut self, text: &str)
        ensures
            final(self).events() == old(self).events().push(
                json_object2("event"@, "log"@, "text"@, text@),
            ),
            final(self).bot_events() == old(self).bot_events(),
            final(self).settings() == old(self).settings(),
            final(self).bot_ids() == old(self).bot_ids(),
            final(self).bot_states() == old(self).bot_states(),
            final(self).owner_name() == old(self).owner_name(),
    {
        let json = object2("event", "log", "text", text);
        self.send(json);
    }

    /// Bridge-link status (the WebSocket connection itself), not a bot's status.
    pub fn status(&mut self, status: &str)
        ensures
            final(self).events() == old(self).events().push(
                json_object2("event"@, "status"@, "status"@, status@),
            ),
            final(self).bot_events() == old(self).bot_events(),
            final(self).settings() == old(self).settings(),
            final(self).bot_ids() == old(self).bot_ids(),
            final(self).bot_states() == old(self).bot_states(),
            final(self).owner_name() == old(self).owner_name(),
    {
        let json = object2("event", "status", "status", status);
        self.send(json);
    }

    /// Send the current roster of bot ids (sorted) to the mod so the GUI can
    /// populate its account selector.
    pub fn announce_roster(&mut self)
        ensures
            roster_announced(old(self).events(), final(self).events(), old(self).bot_ids()),
            final(self).bot_ids() == old(self).bot_ids(),
            final(self).bot_states() == old(self).bot_states(),
            final(self).bot_events() == old(self).bot_events(),
            final(self).owner_name() == old(self).owner_name(),
            final(self).settings() == old(self).settings(),
    {
        let ids = self.ids();
        let json = object_list_then_string("bots", &ids, "event", "roster");
        self.send(json);
    }

    /// Route a command coming from the bridge to its target bot(s).
    ///
    /// Text that is not JSON is ignored. `set_owner` is global: it sets the
    /// owner (when its `"owner"` field is a string) and touches no bot. Any
    /// other command reaches the bots its `"bot"` field selects: a concrete id
    /// targets that account, `"all"`/`"*"` or an absent field broadcasts to
    /// every bot. An id that is not registered reaches nobody, and no context
    /// is ever created here.
    pub fn apply_command(&mut self, raw: &str)
        ensures
            final(self).bot_ids() == old(self).bot_ids(),
            final(self).events() == old(self).events(),
            final(self).bot_events() == old(self).bot_events(),
            final(self).settings() == old(self).settings(),
            !json_text_parses(raw@) ==> final(self).bot_states() == old(self).bot_states()
                && final(self).owner_name() == old(self).owner_name(),
            json_text_parses(raw@) && json_str_at(raw@, "cmd"@) == Some("set_owner"@) ==> (
            final(self).bot_states() == old(self).bot_states() && final(self).owner_name() == match json_str_at(
                raw@,
                "owner"@,
            ) {
                Some(name) => name,
                None => old(self).owner_name(),
            }),
            json_text_parses(raw@) && json_str_at(raw@, "cmd"@) != Some("set_owner"@) ==> (
            final(self).owner_name() == old(self).owner_name() && final(self).bot_states().len()
                == old(self).bot_states().len() && forall|i: int|
                0 <= i < old(self).bot_states().len() ==> #[trigger] final(self).bot_states()[i] == if command_reaches(
                    json_str_at(raw@, "bot"@),
                    old(self).bot_ids()[i],
                ) {
                    command_effect(old(self).bot_states()[i], raw@)
                } else {
                    old(self).bot_states()[i]
                }),
            final(self).bot_states().len() == old(self).bot_states().len(),
            forall|i: int|
                0 <= i < old(self).bot_states().len() && runtime_bounds(
                    #[trigger] old(self).bot_states()[i],
                ) ==> runtime_bounds(final(self).bot_states()[i]),
    {
        proof {
            use_type_invariant(&*self);
        }
        if !parses_as_json(raw) {
            return;
        }
        let is_set_owner = match json_str_field(raw, "cmd") {
            Some(c) => same_text(c.as_str(), "set_owner"),
            None => false,
        };
        if is_set_owner {
            if let Some(name) = json_str_field(raw, "owner") {
                self.owner = name;
            }
            return;
        }
        let target = json_str_field(raw, "bot");
        let broadcast_all = match &target {
            None => true,
            Some(t) => same_text(t.as_str(), "all") || same_text(t.as_str(), "*"),
        };
        let ghost old_states = self.bot_states();
        let ghost old_ids = self.bot_ids();
        let ghost old_events = self.bot_events();
        let mut i: usize = 0;
        while i < self.registry.bots.len()
            invariant
                i <= self.registry.bots@.len(),
                self.registry.keys@.len() == self.registry.bots@.len(),
                distinct_texts(old_ids),
                self.bot_ids() == old_ids,
                self.bot_events() == old_events,
                self.bot_states().len() == old_states.len(),
                broadcast_all == match opt_text(target) {
                    None => true,
                    Some(t) => t == "all"@ || t == "*"@,
                },
                opt_text(target) == json_str_at(raw@, "bot"@),
                forall|k: int|
                    0 <= k < i ==> #[trigger] self.bot_states()[k] == if command_reaches(
                        json_str_at(raw@, "bot"@),
                        old_ids[k],
                    ) {
                        command_effect(old_states[k], raw@)
                    } else {
                        old_states[k]
                    },
                forall|k: int| i <= k < old_states.len() ==> #[trigger] self.bot_states()[k] == old_states[k],
                forall|k: int|
                    0 <= k < i && runtime_bounds(#[trigger] old_states[k]) ==> runtime_bounds(
                        self.bot_states()[k],
                    ),
                old_states == old(self).bot_states(),
                self.owner@ == old(self).owner@,
                self.config == old(self).config,
                self.sent == old(self).sent,
            decreases self.registry.bots@.len() - i,
        {
            let selected = broadcast_all || match &target {
                Some(t) => same_text(self.registry.keys[i].as_str(), t.as_str()),
                None => true,
            };
            let ghost before = self.registry.bots@;
            let ghost before_states = self.bot_states();
            assert(before_states[i as int] == old_states[i as int]);
            assert(old_ids[i as int] == self.registry.keys@[i as int]@);
            assert(selected == command_reaches(json_str_at(raw@, "bot"@), old_ids[i as int]));
            if selected {
                self.registry.bots[i].apply(raw);
                proof {
                    assert(self.bot_ids() =~= old_ids) by {
                        assert forall|k: int| 0 <= k < old_ids.len() implies self.bot_ids()[k] == old_ids[k] by {
                            if k != i {
                                assert(self.registry.bots@[k] == before[k]);
                            }
                        }
                    }
                    assert(self.bot_events() =~= old_events) by {
                        assert forall|k: int| 0 <= k < old_ids.len() implies self.bot_events()[k] == old_events[k] by {
                            if k != i {
                                assert(self.registry.bots@[k] == before[k]);
                            }
                        }
                    }
                    assert forall|k: int| 0 <= k < old_states.len() && k != i implies #[trigger] self.bot_states()[k] == before_states[k] by {
                        assert(self.registry.bots@[k] == before[k]);
                    }
                    assert(self.bot_states()[i as int] == command_effect(old_states[i as int], raw@));
                }
            }
            i = i + 1;
        }
    }
}

/// Law: a command aimed at one bot never touches another. When the `"bot"`
/// field names a concrete id other than `"all"`/`"*"`, a bot with a different
/// id is not reached.
pub proof fn lemma_command_isolated_per_bot(raw: Seq<char>, other: Seq<char>)
    requires
        json_str_at(raw, "bot"@) matches Some(t) && t != "all"@ && t != "*"@ && t != other,
    ensures
        !command_reaches(json_str_at(raw, "bot"@), other),
{
}

/// Law: `"all"`, `"*"` or a missing `"bot"` field reaches every bot.
pub proof fn lemma_broadcast_reaches_every_bot(raw: Seq<char>, id: Seq<char>)
    requires
        json_str_at(raw, "bot"@) matches Some(t) ==> t == "all"@ || t == "*"@,
    ensures
        command_reaches(json_str_at(raw, "bot"@), id),
{
}

} // verus!
