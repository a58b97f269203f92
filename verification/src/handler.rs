//! Whisper commands from the owner in game: who may command a bot, how a
//! whisper is read as a command, what each command does to the bot's runtime
//! and what the bot answers.
use crate::json::opt_text;
use crate::json::json_object2;
use crate::shared::{
    bot_event, bot_index, block_containing, default_runtime, put_at, roster_announced, BlockPos, BotCtx,
    Mode, Runtime, RuntimeView, Shared, Vec3,
};
use crate::text::{
    after_first_word, decimal, eq_ignore_ascii_case, eq_ignoring_ascii_case, first_two_words,
    first_word, same_text, slice_owned, to_lowercase, trim, trimmed, unicode_lowercase,
    decimal_text,
};
use vstd::prelude::*;

verus! {

/// The text of an optional borrowed string.
pub open spec fn opt_str(o: Option<&str>) -> Option<Seq<char>> {
    match o {
        Some(s) => Some(s@),
        None => None,
    }
}

/// The chat line that whispers `text` to `target` (`/msg <name> <text>`), when
/// there is someone to answer.
pub open spec fn whisper_line(target: Option<Seq<char>>, text: Seq<char>) -> Option<Seq<char>> {
    match target {
        Some(name) => Some("/msg "@ + name + " "@ + text),
        None => None,
    }
}

/// The private reply to send in game (`/msg <name> ...`), if we know who to
/// answer. Servers that support `/msg` deliver it privately, so other players
/// never see the bot's replies.
pub fn whisper(target: Option<&str>, text: &str) -> (r: Option<String>)
    ensures
        opt_text(r) == whisper_line(opt_str(target), text@),
{
    match target {
        Some(name) => {
            let line = String::from_str("/msg ").concat(name).concat(" ").concat(text);
            Some(line)
        },
        None => None,
    }
}

/// Whether whispers from `sender` are obeyed: only the owner may command the
/// bot, compared ignoring ASCII case, and with no owner set nobody may.
pub open spec fn obeys(sender: Option<Seq<char>>, owner: Seq<char>) -> bool {
    match sender {
        Some(name) => owner.len() > 0 && eq_ignoring_ascii_case(name, owner),
        None => false,
    }
}

/// The command a whisper asks for: the text, trimmed, must start with `!`;
/// then the first word after it is the command and the second, if any, its
/// argument. A whisper that merely contains a `!` is no command.
pub open spec fn bang_command(content: Seq<char>) -> Option<(Seq<char>, Option<Seq<char>>)> {
    let t = trimmed(content);
    if t.len() > 0 && t[0] == '!' {
        let rest = t.subrange(1, t.len() as int);
        match first_word(rest) {
            None => None,
            Some(c) => Some((c, first_word(after_first_word(rest)))),
        }
    } else {
        None
    }
}

/// The player a follow-like command is about: the named one, else the sender.
pub open spec fn named_or_sender(arg: Option<Seq<char>>, sender: Seq<char>) -> Seq<char> {
    match arg {
        Some(a) => a,
        None => sender,
    }
}

/// Whether `!sel` marks the second corner (its argument is `2`).
pub open spec fn marks_second(arg: Option<Seq<char>>) -> bool {
    arg == Some("2"@)
}

/// What the (lower-cased) command `lc` does to the runtime. `block` is the
/// block the sender stands in, when the bot can see the sender.
#[verifier::opaque]
pub open spec fn chat_effect(
    rt: RuntimeView,
    lc: Seq<char>,
    arg: Option<Seq<char>>,
    sender: Seq<char>,
    block: Option<BlockPos>,
) -> RuntimeView {
    if lc == "follow"@ {
        follow_chat_effect(rt, named_or_sender(arg, sender))
    } else if lc == "come"@ {
        come_chat_effect(rt, block)
    } else if lc == "protect"@ {
        protect_chat_effect(rt, named_or_sender(arg, sender))
    } else if lc == "stop"@ {
        stop_chat_effect(rt)
    } else if lc == "sel"@ {
        sel_chat_effect(rt, marks_second(arg), block)
    } else if lc == "mine"@ {
        mine_chat_effect(rt)
    } else if lc == "pull"@ {
        pull_chat_effect(rt, arg)
    } else {
        rt
    }
}

/// `!come`: walk once to the block the sender stands in, like a goto (the bot
/// goes idle on arrival); nothing changes when the bot cannot see the sender.
#[verifier::opaque]
pub open spec fn come_chat_effect(rt: RuntimeView, block: Option<BlockPos>) -> RuntimeView {
    match block {
        Some(p) => RuntimeView { mode: Mode::Goto, goto_target: Some(p), ..rt },
        None => rt,
    }
}

/// `!follow`: follow the named player (or the sender).
#[verifier::opaque]
pub open spec fn follow_chat_effect(rt: RuntimeView, who: Seq<char>) -> RuntimeView {
    RuntimeView { mode: Mode::Follow, follow_target: Some(who), ..rt }
}

/// `!protect`: guard the named player (or the sender).
#[verifier::opaque]
pub open spec fn protect_chat_effect(rt: RuntimeView, who: Seq<char>) -> RuntimeView {
    RuntimeView { mode: Mode::Protect, protect_target: Some(who), ..rt }
}

/// `!stop`: idle, killaura off, mining off, the last path goal forgotten.
#[verifier::opaque]
pub open spec fn stop_chat_effect(rt: RuntimeView) -> RuntimeView {
    RuntimeView {
        mode: Mode::Idle,
        killaura_on: false,
        mining_active: false,
        last_goal: None,
        ..rt
    }
}

/// `!sel 1|2`: mark a corner of the mining box at the sender's block.
pub open spec fn sel_chat_effect(rt: RuntimeView, second: bool, block: Option<BlockPos>) -> RuntimeView {
    match block {
        Some(p) => if second {
            second_corner_effect(rt, p)
        } else {
            first_corner_effect(rt, p)
        },
        None => rt,
    }
}

/// The first corner of the mining box set to `p`.
#[verifier::opaque]
pub open spec fn first_corner_effect(rt: RuntimeView, p: BlockPos) -> RuntimeView {
    RuntimeView { sel1: Some(p), ..rt }
}

/// The second corner of the mining box set to `p`.
#[verifier::opaque]
pub open spec fn second_corner_effect(rt: RuntimeView, p: BlockPos) -> RuntimeView {
    RuntimeView { sel2: Some(p), ..rt }
}

/// `!mine`: start mining once both corners are set.
#[verifier::opaque]
pub open spec fn mine_chat_effect(rt: RuntimeView) -> RuntimeView {
    if rt.sel1 is Some && rt.sel2 is Some {
        RuntimeView { mode: Mode::Mine, ..rt }
    } else {
        rt
    }
}

/// `!pull [id|owner]`: request a stasis pull, `manual` (list only) by default.
#[verifier::opaque]
pub open spec fn pull_chat_effect(rt: RuntimeView, arg: Option<Seq<char>>) -> RuntimeView {
    RuntimeView {
        pull_request: Some(
            match arg {
                Some(a) => a,
                None => "manual"@,
            },
        ),
        ..rt
    }
}

/// The list of commands `!help` answers with.
pub open spec fn help_text() -> Seq<char> {
    "Commands: !follow !protect !come !stop !sel 1|2 !mine !pull"@
}

/// `Point <1|2> set at <x> <y> <z>.`
pub open spec fn point_set_text(second: bool, p: BlockPos) -> Seq<char> {
    "Point "@ + (if second {
        "2"@
    } else {
        "1"@
    }) + " set at "@ + decimal(p.x as int) + " "@ + decimal(p.y as int) + " "@ + decimal(
        p.z as int,
    ) + "."@
}

/// What the bot answers to the (lower-cased) command `lc`; `rt` is its runtime
/// before the command.
#[verifier::opaque]
pub open spec fn chat_reply(
    rt: RuntimeView,
    lc: Seq<char>,
    arg: Option<Seq<char>>,
    sender: Seq<char>,
    block: Option<BlockPos>,
) -> Seq<char> {
    if lc == "follow"@ {
        "Following "@ + named_or_sender(arg, sender) + "."@
    } else if lc == "protect"@ {
        "Protecting you. I will fight off hostiles and stay close."@
    } else if lc == "stop"@ {
        "Stopped."@
    } else if lc == "come"@ {
        if block is Some {
            "Coming to you."@
        } else {
            "I cannot see you. Get closer and try again."@
        }
    } else if lc == "sel"@ {
        match block {
            Some(p) => point_set_text(marks_second(arg), p),
            None => "I cannot see you to mark the point. Get within render distance."@,
        }
    } else if lc == "mine"@ {
        if rt.sel1 is Some && rt.sel2 is Some {
            "Mining the selected area."@
        } else {
            "Set both corners first: !sel 1 then !sel 2."@
        }
    } else if lc == "pull"@ {
        "Looking for a stasis chamber..."@
    } else if lc == "help"@ || lc == "commands"@ {
        help_text()
    } else {
        "Unknown command '"@ + lc + "'. Try !help."@
    }
}

/// The runtime with `sender` remembered as the one to answer.
#[verifier::opaque]
pub open spec fn with_sender(rt: RuntimeView, sender: Seq<char>) -> RuntimeView {
    RuntimeView { command_sender: Some(sender), ..rt }
}

fn set_follow(rt: &mut Runtime, who: &str)
    ensures
        final(rt)@ == follow_chat_effect(old(rt)@, who@),
{
    reveal(follow_chat_effect);
    rt.mode = Mode::Follow;
    rt.follow_target = Some(String::from_str(who));
}

fn set_come(rt: &mut Runtime, block: Option<BlockPos>)
    ensures
        final(rt)@ == come_chat_effect(old(rt)@, block),
{
    reveal(come_chat_effect);
    if let Some(p) = block {
        rt.mode = Mode::Goto;
        rt.goto_target = Some(p);
    }
}

fn set_protect(rt: &mut Runtime, who: &str)
    ensures
        final(rt)@ == protect_chat_effect(old(rt)@, who@),
{
    reveal(protect_chat_effect);
    rt.mode = Mode::Protect;
    rt.protect_target = Some(String::from_str(who));
}

fn set_stop(rt: &mut Runtime)
    ensures
        final(rt)@ == stop_chat_effect(old(rt)@),
{
    reveal(stop_chat_effect);
    rt.mode = Mode::Idle;
    rt.killaura_on = false;
    rt.mining_active = false;
    rt.last_goal = None;
}

fn set_first_corner(rt: &mut Runtime, p: BlockPos)
    ensures
        final(rt)@ == first_corner_effect(old(rt)@, p),
{
    reveal(first_corner_effect);
    rt.sel1 = Some(p);
}

fn set_second_corner(rt: &mut Runtime, p: BlockPos)
    ensures
        final(rt)@ == second_corner_effect(old(rt)@, p),
{
    reveal(second_corner_effect);
    rt.sel2 = Some(p);
}

fn set_corner(rt: &mut Runtime, second: bool, block: Option<BlockPos>)
    ensures
        final(rt)@ == sel_chat_effect(old(rt)@, second, block),
{
    if let Some(p) = block {
        if second {
            set_second_corner(rt, p);
        } else {
            set_first_corner(rt, p);
        }
    }
}

fn set_mine(rt: &mut Runtime)
    ensures
        final(rt)@ == mine_chat_effect(old(rt)@),
{
    reveal(mine_chat_effect);
    if rt.sel1.is_some() && rt.sel2.is_some() {
        rt.mode = Mode::Mine;
    }
}

fn set_pull(rt: &mut Runtime, arg: Option<&str>)
    ensures
        final(rt)@ == pull_chat_effect(old(rt)@, opt_str(arg)),
{
    reveal(pull_chat_effect);
    let request = match arg {
        Some(a) => String::from_str(a),
        None => String::from_str("manual"),
    };
    rt.pull_request = Some(request);
}

fn set_sender(rt: &mut Runtime, sender: &str)
    ensures
        final(rt)@ == with_sender(old(rt)@, sender@),
{
    reveal(with_sender);
    rt.command_sender = Some(String::from_str(sender));
}

/// The reply text for a command (see `chat_reply`).
fn reply_text(rt: &Runtime, lc: &str, arg: Option<&str>, sender: &str, block: Option<BlockPos>) -> (r: String)
    ensures
        r@ == chat_reply(rt@, lc@, opt_str(arg), sender@, block),
{
    reveal(chat_reply);
    let who = match arg {
        Some(a) => a,
        None => sender,
    };
    if same_text(lc, "follow") {
        String::from_str("Following ").concat(who).concat(".")
    } else if same_text(lc, "protect") {
        String::from_str("Protecting you. I will fight off hostiles and stay close.")
    } else if same_text(lc, "stop") {
        String::from_str("Stopped.")
    } else if same_text(lc, "come") {
        if block.is_some() {
            String::from_str("Coming to you.")
        } else {
            String::from_str("I cannot see you. Get closer and try again.")
        }
    } else if same_text(lc, "sel") {
        match block {
            Some(p) => {
                let second = match arg {
                    Some(a) => same_text(a, "2"),
                    None => false,
                };
                let which = if second {
                    "2"
                } else {
                    "1"
                };
                let xs = decimal_text(p.x as i64);
                let ys = decimal_text(p.y as i64);
                let zs = decimal_text(p.z as i64);
                String::from_str("Point ").concat(which).concat(" set at ").concat(xs.as_str()).concat(
                    " ",
                ).concat(ys.as_str()).concat(" ").concat(zs.as_str()).concat(".")
            },
            None => String::from_str(
                "I cannot see you to mark the point. Get within render distance.",
            ),
        }
    } else if same_text(lc, "mine") {
        if rt.sel1.is_some() && rt.sel2.is_some() {
            String::from_str("Mining the selected area.")
        } else {
            String::from_str("Set both corners first: !sel 1 then !sel 2.")
        }
    } else if same_text(lc, "pull") {
        String::from_str("Looking for a stasis chamber...")
    } else if same_text(lc, "help") || same_text(lc, "commands") {
        String::from_str("Commands: !follow !protect !come !stop !sel 1|2 !mine !pull")
    } else {
        String::from_str("Unknown command '").concat(lc).concat("'. Try !help.")
    }
}

/// The change to the runtime for a command (see `chat_effect`).
fn apply_chat_effect(rt: &mut Runtime, lc: &str, arg: Option<&str>, sender: &str, block: Option<BlockPos>)
    ensures
        final(rt)@ == chat_effect(old(rt)@, lc@, opt_str(arg), sender@, block),
{
    reveal(chat_effect);
    let who = match arg {
        Some(a) => a,
        None => sender,
    };
    if same_text(lc, "follow") {
        set_follow(rt, who);
    } else if same_text(lc, "come") {
        set_come(rt, block);
    } else if same_text(lc, "protect") {
        set_protect(rt, who);
    } else if same_text(lc, "stop") {
        set_stop(rt);
    } else if same_text(lc, "sel") {
        let second = match arg {
            Some(a) => same_text(a, "2"),
            None => false,
        };
        set_corner(rt, second, block);
    } else if same_text(lc, "mine") {
        set_mine(rt);
    } else if same_text(lc, "pull") {
        set_pull(rt, arg);
    }
}

/// Reads a whisper's text as a command (see `bang_command`).
pub fn read_bang_command(content: &str) -> (r: Option<(String, Option<String>)>)
    ensures
        match bang_command(content@) {
            None => r is None,
            Some((c, a)) => r matches Some((rc, ra)) && rc@ == c && opt_text(ra) == a,
        },
{
    let t = trim(content);
    let n = t.as_str().unicode_len();
    if n == 0 || t.as_str().get_char(0) != '!' {
        return None;
    }
    let rest = slice_owned(t.as_str(), 1, n);
    assert(rest@ == trimmed(content@).subrange(1, trimmed(content@).len() as int));
    first_two_words(rest.as_str())
}

/// The block the seen player stands in, if the player is seen.
pub open spec fn block_of(p: Option<Vec3>) -> Option<BlockPos> {
    match p {
        Some(v) => Some(block_containing(v)),
        None => None,
    }
}

/// Whether a chat line is a command this bot carries out.
pub open spec fn is_command(
    content: Seq<char>,
    sender: Option<Seq<char>>,
    is_whisper: bool,
    owner: Seq<char>,
) -> bool {
    is_whisper && obeys(sender, owner) && bang_command(content) is Some
}

/// The runtime after a chat line.
#[verifier::opaque]
pub open spec fn chat_state(
    st: RuntimeView,
    content: Seq<char>,
    sender: Option<Seq<char>>,
    is_whisper: bool,
    owner: Seq<char>,
    block: Option<BlockPos>,
) -> RuntimeView {
    if is_command(content, sender, is_whisper, owner) {
        let name = sender->0;
        let cmd = bang_command(content)->0;
        chat_effect(with_sender(st, name), unicode_lowercase(cmd.0), cmd.1, name, block)
    } else {
        st
    }
}

/// The reply to a chat line that is a command.
pub open spec fn command_reply(
    st: RuntimeView,
    content: Seq<char>,
    sender: Seq<char>,
    block: Option<BlockPos>,
) -> Seq<char> {
    let cmd = bang_command(content)->0;
    chat_reply(with_sender(st, sender), unicode_lowercase(cmd.0), cmd.1, sender, block)
}

/// The texts a chat line logs for the mod: the line itself, then the reply
/// when it is a command.
#[verifier::opaque]
pub open spec fn chat_logs(
    st: RuntimeView,
    message: Seq<char>,
    content: Seq<char>,
    sender: Option<Seq<char>>,
    is_whisper: bool,
    owner: Seq<char>,
    block: Option<BlockPos>,
) -> Seq<Seq<char>> {
    if is_command(content, sender, is_whisper, owner) {
        seq![message, command_reply(st, content, sender->0, block)]
    } else {
        seq![message]
    }
}

/// The whisper that answers a chat line, when it is a command.
#[verifier::opaque]
pub open spec fn chat_answer(
    st: RuntimeView,
    content: Seq<char>,
    sender: Option<Seq<char>>,
    is_whisper: bool,
    owner: Seq<char>,
    block: Option<BlockPos>,
) -> Option<Seq<char>> {
    if is_command(content, sender, is_whisper, owner) {
        whisper_line(sender, command_reply(st, content, sender->0, block))
    } else {
        None
    }
}

/// One log event of the bot `id` for each text.
pub open spec fn log_events(id: Seq<char>, texts: Seq<Seq<char>>) -> Seq<Seq<char>> {
    texts.map_values(|t: Seq<char>| bot_event(id, "log"@, "text"@, t))
}

impl BotCtx {
    /// Carries out one whisper command whose name is already lower-cased:
    /// changes the runtime, logs the reply for the mod, and returns the line
    /// that whispers the reply back to `sender`.
    pub fn run_chat_command(
        &mut self,
        lc: &str,
        arg: Option<&str>,
        sender: &str,
        block: Option<BlockPos>,
    ) -> (r: String)
        ensures
            final(self).state() == chat_effect(old(self).state(), lc@, opt_str(arg), sender@, block),
            final(self).events() == old(self).events().push(
                bot_event(
                    old(self).bot_id(),
                    "log"@,
                    "text"@,
                    chat_reply(old(self).state(), lc@, opt_str(arg), sender@, block),
                ),
            ),
            final(self).bot_id() == old(self).bot_id(),
            whisper_line(Some(sender@), chat_reply(old(self).state(), lc@, opt_str(arg), sender@, block))
                == Some(r@),
    {
        let text = reply_text(&self.rt, lc, arg, sender, block);
        apply_chat_effect(&mut self.rt, lc, arg, sender, block);
        self.log(text.as_str());
        String::from_str("/msg ").concat(sender).concat(" ").concat(text.as_str())
    }

    /// A chat line reached this bot. Every line is mirrored to the mod as a
    /// log event. A line is a command only when it is a private whisper, its
    /// sender is the owner (ignoring ASCII case; nobody when no owner is set),
    /// and its text, trimmed, starts with `!`. The command name is compared
    /// lower-cased; the sender becomes the one async jobs answer to. Returns the
    /// line that whispers the reply, when there is one. `sender_position` is
    /// where the bot sees the sender, when it can.
    pub fn handle_chat(
        &mut self,
        message: &str,
        content: &str,
        sender: Option<&str>,
        is_whisper: bool,
        owner: &str,
        sender_position: Option<Vec3>,
    ) -> (r: Option<String>)
        ensures
            final(self).bot_id() == old(self).bot_id(),
            final(self).state() == chat_state(
                old(self).state(),
                content@,
                opt_str(sender),
                is_whisper,
                owner@,
                block_of(sender_position),
            ),
            final(self).events() == old(self).events() + log_events(
                old(self).bot_id(),
                chat_logs(
                    old(self).state(),
                    message@,
                    content@,
                    opt_str(sender),
                    is_whisper,
                    owner@,
                    block_of(sender_position),
                ),
            ),
            opt_text(r) == chat_answer(
                old(self).state(),
                content@,
                opt_str(sender),
                is_whisper,
                owner@,
                block_of(sender_position),
            ),
    {
        let ghost id = self.bot_id();
        let ghost st = self.state();
        let ghost first = bot_event(id, "log"@, "text"@, message@);
        let ghost block = block_of(sender_position);
        self.log(message);
        let parsed = command_in(content, sender, is_whisper, owner);
        match parsed {
            None => {
                proof {
                    reveal(chat_state);
                    reveal(chat_logs);
                    reveal(chat_answer);
                    assert(log_events(id, seq![message@]) =~= seq![first]);
                }
                None
            },
            Some((name, command, arg)) => {
                let block = match sender_position {
                    Some(p) => Some(BlockPos::containing(&p)),
                    None => None,
                };
                set_sender(&mut self.rt, name);
                let lc = to_lowercase(command.as_str());
                let arg_str: Option<&str> = match &arg {
                    Some(a) => Some(a.as_str()),
                    None => None,
                };
                let line = self.run_chat_command(lc.as_str(), arg_str, name, block);
                proof {
                    reveal(chat_state);
                    reveal(chat_logs);
                    reveal(chat_answer);
                    let reply = command_reply(st, content@, name@, block);
                    assert(log_events(id, seq![message@, reply]) =~= seq![
                        first,
                        bot_event(id, "log"@, "text"@, reply),
                    ]);
                }
                Some(line)
            },
        }
    }
}

/// The command a chat line carries, with its sender (see `is_command`).
fn command_in<'a>(content: &str, sender: Option<&'a str>, is_whisper: bool, owner: &str) -> (r: Option<
    (&'a str, String, Option<String>),
>)
    ensures
        is_command(content@, opt_str(sender), is_whisper, owner@) <==> r is Some,
        r matches Some((name, c, a)) ==> sender == Some(name) && Some((c@, opt_text(a)))
            == bang_command(content@),
{
    if !is_whisper {
        return None;
    }
    let name = match sender {
        Some(n) => n,
        None => {
            return None;
        },
    };
    if owner.unicode_len() == 0 || !eq_ignore_ascii_case(name, owner) {
        return None;
    }
    match read_bang_command(content) {
        Some((c, a)) => Some((name, c, a)),
        None => None,
    }
}

/// An event of a bot's game client, reduced to what the bot's logic reads.
pub enum GameEvent {
    /// The client was just created; it has no profile yet.
    Init,
    Login,
    Spawn,
    /// A chat line: its full text, the message part, the sender's name when
    /// known, whether it is a private whisper, and where the bot sees the
    /// sender, when it does.
    Chat {
        message: String,
        content: String,
        sender: Option<String>,
        is_whisper: bool,
        sender_position: Option<Vec3>,
    },
    Death,
    /// The client was disconnected, with the server's reason when it gave one.
    Disconnect { reason: Option<String> },
    /// Any other event: it only makes sure the bot is registered.
    Other,
}

/// The reason shown for a disconnect.
pub open spec fn disconnect_detail(reason: Option<String>) -> Seq<char> {
    match reason {
        Some(r) => r@,
        None => "unknown"@,
    }
}

/// The runtime of the bot after an event of its client.
pub open spec fn event_state(event: GameEvent, st: RuntimeView, owner: Seq<char>) -> RuntimeView {
    match event {
        GameEvent::Chat { message, content, sender, is_whisper, sender_position } => chat_state(
            st,
            content@,
            opt_text(sender),
            is_whisper,
            owner,
            block_of(sender_position),
        ),
        _ => st,
    }
}

/// The events the bot `id` emits for an event of its client.
pub open spec fn event_events(event: GameEvent, st: RuntimeView, id: Seq<char>, owner: Seq<char>) -> Seq<
    Seq<char>,
> {
    match event {
        GameEvent::Login | GameEvent::Spawn => seq![
            bot_event(id, "status"@, "status"@, "online"@),
            bot_event(id, "log"@, "text"@, "In game."@),
        ],
        GameEvent::Chat { message, content, sender, is_whisper, sender_position } => log_events(
            id,
            chat_logs(
                st,
                message@,
                content@,
                opt_text(sender),
                is_whisper,
                owner,
                block_of(sender_position),
            ),
        ),
        GameEvent::Death => seq![bot_event(id, "log"@, "text"@, "Died, respawning."@)],
        GameEvent::Disconnect { reason } => seq![
            bot_event(id, "status"@, "status"@, "disconnected"@),
            bot_event(id, "log"@, "text"@, "Disconnected: "@ + disconnect_detail(reason)),
        ],
        _ => Seq::empty(),
    }
}

/// The whisper an event answers with: only a chat command has one.
pub open spec fn event_answer(event: GameEvent, st: RuntimeView, owner: Seq<char>) -> Option<Seq<char>> {
    match event {
        GameEvent::Chat { message, content, sender, is_whisper, sender_position } => chat_answer(
            st,
            content@,
            opt_text(sender),
            is_whisper,
            owner,
            block_of(sender_position),
        ),
        _ => None,
    }
}

/// Handles one event of the client whose profile name is `profile` (`None`
/// until the client has one). `Init` only reports that the link is
/// connecting. Every other event needs the profile: it registers the bot
/// under that name when it is new, then logging in or spawning reports the
/// bot online and announces the roster, a chat line goes to `handle_chat`
/// with the current owner, a death and a disconnect are reported. Returns the
/// line that whispers a chat command's reply.
pub fn handle(shared: &mut Shared, profile: Option<&str>, event: GameEvent) -> (r: Option<String>)
    ensures
        final(shared).owner_name() == old(shared).owner_name(),
        final(shared).settings() == old(shared).settings(),
        match event {
            GameEvent::Init => {
                &&& final(shared).events() == old(shared).events().push(
                    json_object2("event"@, "status"@, "status"@, "connecting"@),
                )
                &&& final(shared).bot_ids() == old(shared).bot_ids()
                &&& final(shared).bot_states() == old(shared).bot_states()
                &&& final(shared).bot_events() == old(shared).bot_events()
                &&& r is None
            },
            _ => match profile {
                None => {
                    &&& final(shared).events() == old(shared).events()
                    &&& final(shared).bot_ids() == old(shared).bot_ids()
                    &&& final(shared).bot_states() == old(shared).bot_states()
                    &&& final(shared).bot_events() == old(shared).bot_events()
                    &&& r is None
                },
                Some(name) => {
                    let ids = old(shared).bot_ids();
                    let k = bot_index(ids, name@);
                    let owner = old(shared).owner_name();
                    let st = if k < ids.len() {
                        old(shared).bot_states()[k]
                    } else {
                        default_runtime()
                    };
                    let before = if k < ids.len() {
                        old(shared).bot_events()[k]
                    } else {
                        Seq::empty()
                    };
                    &&& final(shared).bot_ids() == put_at(ids, k, name@)
                    &&& final(shared).bot_states() == put_at(
                        old(shared).bot_states(),
                        k,
                        event_state(event, st, owner),
                    )
                    &&& final(shared).bot_events() == put_at(
                        old(shared).bot_events(),
                        k,
                        before + event_events(event, st, name@, owner),
                    )
                    &&& if event is Login || event is Spawn {
                        roster_announced(
                            old(shared).events(),
                            final(shared).events(),
                            put_at(ids, k, name@),
                        )
                    } else {
                        final(shared).events() == old(shared).events()
                    }
                    &&& opt_text(r) == event_answer(event, st, owner)
                },
            },
        },
{
    if let GameEvent::Init = event {
        shared.status("connecting");
        return None;
    }
    let name = match profile {
        Some(n) => n,
        None => {
            return None;
        },
    };
    let owner = shared.owner();
    let ctx = shared.ctx_mut(name);
    let ghost before = ctx.events();
    let ghost id = ctx.bot_id();
    match event {
        GameEvent::Login | GameEvent::Spawn => {
            ctx.status("online");
            ctx.log("In game.");
            assert(ctx.events() =~= before + event_events(event, default_runtime(), id, owner@)) by {
                assert(event_events(event, default_runtime(), id, owner@) =~= seq![
                    bot_event(id, "status"@, "status"@, "online"@),
                    bot_event(id, "log"@, "text"@, "In game."@),
                ]);
            }
            shared.announce_roster();
            None
        },
        GameEvent::Chat { message, content, sender, is_whisper, sender_position } => {
            let sender_str: Option<&str> = match &sender {
                Some(s) => Some(s.as_str()),
                None => None,
            };
            ctx.handle_chat(
                message.as_str(),
                content.as_str(),
                sender_str,
                is_whisper,
                owner.as_str(),
                sender_position,
            )
        },
        GameEvent::Death => {
            ctx.log("Died, respawning.");
            assert(ctx.events() =~= before + seq![bot_event(id, "log"@, "text"@, "Died, respawning."@)]);
            None
        },
        GameEvent::Disconnect { reason } => {
            ctx.status("disconnected");
            let detail = match reason {
                Some(r) => r,
                None => String::from_str("unknown"),
            };
            let text = String::from_str("Disconnected: ").concat(detail.as_str());
            ctx.log(text.as_str());
            assert(ctx.events() =~= before + seq![
                bot_event(id, "status"@, "status"@, "disconnected"@),
                bot_event(id, "log"@, "text"@, text@),
            ]);
            None
        },
        _ => {
            assert(ctx.events() =~= before + Seq::<Seq<char>>::empty());
            None
        },
    }
}

/// Law: `!protect <name>` guards the named player and `!follow <name>`
/// follows them; only without a name is it the sender.
pub proof fn lemma_named_player_is_the_target(
    rt: RuntimeView,
    arg: Option<Seq<char>>,
    sender: Seq<char>,
    block: Option<BlockPos>,
)
    ensures
        chat_effect(rt, "protect"@, arg, sender, block).mode == Mode::Protect,
        arg matches Some(a) ==> chat_effect(rt, "protect"@, arg, sender, block).protect_target
            == Some(a),
        arg is None ==> chat_effect(rt, "protect"@, arg, sender, block).protect_target == Some(
            sender,
        ),
        chat_effect(rt, "follow"@, arg, sender, block).mode == Mode::Follow,
        arg matches Some(a) ==> chat_effect(rt, "follow"@, arg, sender, block).follow_target
            == Some(a),
        arg is None ==> chat_effect(rt, "follow"@, arg, sender, block).follow_target == Some(
            sender,
        ),
{
    reveal(chat_effect);
    reveal(protect_chat_effect);
    reveal(follow_chat_effect);
    reveal_strlit("follow");
    reveal_strlit("come");
    reveal_strlit("protect");
    assert("protect"@ != "follow"@) by {
        assert("protect"@.len() != "follow"@.len());
    }
    assert("protect"@ != "come"@) by {
        assert("protect"@.len() != "come"@.len());
    }
}

/// Law: only the owner commands a bot, and only by private whisper. A chat
/// line that is not a whisper, or comes from anyone but the owner (ignoring
/// ASCII case; nobody when no owner is set), or whose text does not start with
/// `!` once trimmed, changes nothing, is only logged, and gets no answer.
pub proof fn lemma_only_owner_whispers_command(
    st: RuntimeView,
    message: Seq<char>,
    content: Seq<char>,
    sender: Option<Seq<char>>,
    is_whisper: bool,
    owner: Seq<char>,
    block: Option<BlockPos>,
)
    requires
        !is_whisper || !obeys(sender, owner) || !(trimmed(content).len() > 0 && trimmed(content)[0]
            == '!'),
    ensures
        chat_state(st, content, sender, is_whisper, owner, block) == st,
        chat_logs(st, message, content, sender, is_whisper, owner, block) == seq![message],
        chat_answer(st, content, sender, is_whisper, owner, block) is None,
{
    reveal(chat_state);
    reveal(chat_logs);
    reveal(chat_answer);
}

} // verus!
