//! The lists of handlers the bot runs, in the order they are tried, and
//! the routing of an event to the first handler that takes it.

use crate::emoji::EmoMjk;
use crate::gc_name::GcName;
use crate::gcm::{game_center_manager, gcm_ready, gcm_subs, post_text, quoted, GameCenterManager};
use crate::gcqr::{gcqr, gcqr_ready, gcqr_subs, GCQR};
use crate::handler::{first_taker, FnHandler, ModHandler};
use crate::misc::{Help, Play, Test};
use crate::msg::Msg;
use crate::notice::{Decrease, Increase, Poke};
use crate::photo::MemPhoto;
use crate::plusone::PlusOne;
use crate::reply::Post;
use crate::ttt::{no_games, ttt_games, TTT};
use vstd::prelude::*;
use vstd::string::*;

verus! {

// ---------------------------------------------------------------------
// Modules
// ---------------------------------------------------------------------

/// A module that handlers wait for before they are ready.
pub enum ModUnit {
    /// The font the stickers are drawn with.
    Ttf,
    /// The connection pool to the database.
    Postgres,
    /// The table of game-center names.
    GcName,
}

impl ModUnit {
    /// The module's display name.
    pub open spec fn spec_name(&self) -> Seq<char> {
        match self {
            ModUnit::Ttf => "字体"@,
            ModUnit::Postgres => "pg数据库"@,
            ModUnit::GcName => "机厅名字"@,
        }
    }
}

impl ModHandler for ModUnit {
    fn name(&self) -> (r: String)
        ensures
            r@ == self.spec_name(),
    {
        match self {
            ModUnit::Ttf => String::from_str("字体"),
            ModUnit::Postgres => String::from_str("pg数据库"),
            ModUnit::GcName => String::from_str("机厅名字"),
        }
    }
}

/// The modules, in the order they are started.
pub fn mod_handler_regin() -> (r: Vec<ModUnit>)
    ensures
        r@ == seq![ModUnit::Ttf, ModUnit::Postgres, ModUnit::GcName],
{
    let mut v: Vec<ModUnit> = Vec::new();
    v.push(ModUnit::Ttf);
    v.push(ModUnit::Postgres);
    v.push(ModUnit::GcName);
    assert(v@ =~= seq![ModUnit::Ttf, ModUnit::Postgres, ModUnit::GcName]);
    v
}

// ---------------------------------------------------------------------
// Message handlers
// ---------------------------------------------------------------------

/// A handler of chat messages.
pub enum MsgHandler {
    Test(Test),
    EmoMjk(EmoMjk),
    Play(Play),
    Help(Help),
    Ttt(TTT),
    MemPhoto(MemPhoto),
    Gcm(GameCenterManager),
    Gcqr(GCQR),
    PlusOne(PlusOne),
}

impl FnHandler for MsgHandler {
    open spec fn spec_matches(&self, names: &GcName, msg: &Msg) -> bool {
        match self {
            MsgHandler::Test(h) => h.spec_matches(names, msg),
            MsgHandler::EmoMjk(h) => h.spec_matches(names, msg),
            MsgHandler::Play(h) => h.spec_matches(names, msg),
            MsgHandler::Help(h) => h.spec_matches(names, msg),
            MsgHandler::Ttt(h) => h.spec_matches(names, msg),
            MsgHandler::MemPhoto(h) => h.spec_matches(names, msg),
            MsgHandler::Gcm(h) => h.spec_matches(names, msg),
            MsgHandler::Gcqr(h) => h.spec_matches(names, msg),
            MsgHandler::PlusOne(h) => h.spec_matches(names, msg),
        }
    }

    open spec fn spec_status(&self) -> bool {
        match self {
            MsgHandler::Test(h) => h.spec_status(),
            MsgHandler::EmoMjk(h) => h.spec_status(),
            MsgHandler::Play(h) => h.spec_status(),
            MsgHandler::Help(h) => h.spec_status(),
            MsgHandler::Ttt(h) => h.spec_status(),
            MsgHandler::MemPhoto(h) => h.spec_status(),
            MsgHandler::Gcm(h) => h.spec_status(),
            MsgHandler::Gcqr(h) => h.spec_status(),
            MsgHandler::PlusOne(h) => h.spec_status(),
        }
    }

    open spec fn spec_name(&self) -> Seq<char> {
        match self {
            MsgHandler::Test(h) => h.spec_name(),
            MsgHandler::EmoMjk(h) => h.spec_name(),
            MsgHandler::Play(h) => h.spec_name(),
            MsgHandler::Help(h) => h.spec_name(),
            MsgHandler::Ttt(h) => h.spec_name(),
            MsgHandler::MemPhoto(h) => h.spec_name(),
            MsgHandler::Gcm(h) => h.spec_name(),
            MsgHandler::Gcqr(h) => h.spec_name(),
            MsgHandler::PlusOne(h) => h.spec_name(),
        }
    }

    open spec fn spec_help(&self, helps: Seq<char>) -> Seq<char> {
        match self {
            MsgHandler::Test(h) => h.spec_help(helps),
            MsgHandler::EmoMjk(h) => h.spec_help(helps),
            MsgHandler::Play(h) => h.spec_help(helps),
            MsgHandler::Help(h) => h.spec_help(helps),
            MsgHandler::Ttt(h) => h.spec_help(helps),
            MsgHandler::MemPhoto(h) => h.spec_help(helps),
            MsgHandler::Gcm(h) => h.spec_help(helps),
            MsgHandler::Gcqr(h) => h.spec_help(helps),
            MsgHandler::PlusOne(h) => h.spec_help(helps),
        }
    }

    fn matches(&self, names: &GcName, msg: &Msg) -> (r: bool) {
        match self {
            MsgHandler::Test(h) => FnHandler::matches(h, names, msg),
            MsgHandler::EmoMjk(h) => FnHandler::matches(h, names, msg),
            MsgHandler::Play(h) => FnHandler::matches(h, names, msg),
            MsgHandler::Help(h) => FnHandler::matches(h, names, msg),
            MsgHandler::Ttt(h) => FnHandler::matches(h, names, msg),
            MsgHandler::MemPhoto(h) => FnHandler::matches(h, names, msg),
            MsgHandler::Gcm(h) => FnHandler::matches(h, names, msg),
            MsgHandler::Gcqr(h) => FnHandler::matches(h, names, msg),
            MsgHandler::PlusOne(h) => FnHandler::matches(h, names, msg),
        }
    }

    fn status(&self) -> (r: bool) {
        match self {
            MsgHandler::Test(h) => FnHandler::status(h),
            MsgHandler::EmoMjk(h) => FnHandler::status(h),
            MsgHandler::Play(h) => FnHandler::status(h),
            MsgHandler::Help(h) => FnHandler::status(h),
            MsgHandler::Ttt(h) => FnHandler::status(h),
            MsgHandler::MemPhoto(h) => FnHandler::status(h),
            MsgHandler::Gcm(h) => FnHandler::status(h),
            MsgHandler::Gcqr(h) => FnHandler::status(h),
            MsgHandler::PlusOne(h) => FnHandler::status(h),
        }
    }

    fn help(&self, helps: &str) -> (r: String) {
        match self {
            MsgHandler::Test(h) => FnHandler::help(h, helps),
            MsgHandler::EmoMjk(h) => FnHandler::help(h, helps),
            MsgHandler::Play(h) => FnHandler::help(h, helps),
            MsgHandler::Help(h) => FnHandler::help(h, helps),
            MsgHandler::Ttt(h) => FnHandler::help(h, helps),
            MsgHandler::MemPhoto(h) => FnHandler::help(h, helps),
            MsgHandler::Gcm(h) => FnHandler::help(h, helps),
            MsgHandler::Gcqr(h) => FnHandler::help(h, helps),
            MsgHandler::PlusOne(h) => FnHandler::help(h, helps),
        }
    }

    fn name(&self) -> (r: String) {
        match self {
            MsgHandler::Test(h) => FnHandler::name(h),
            MsgHandler::EmoMjk(h) => FnHandler::name(h),
            MsgHandler::Play(h) => FnHandler::name(h),
            MsgHandler::Help(h) => FnHandler::name(h),
            MsgHandler::Ttt(h) => FnHandler::name(h),
            MsgHandler::MemPhoto(h) => FnHandler::name(h),
            MsgHandler::Gcm(h) => FnHandler::name(h),
            MsgHandler::Gcqr(h) => FnHandler::name(h),
            MsgHandler::PlusOne(h) => FnHandler::name(h),
        }
    }
}

/// What marking a handler ready does: `b` is `a` after its `init`. Each
/// keeps its kind and its switch; those that wait for modules become ready,
/// the meme-text handler only when switched on; the game keeps its boards.
pub open spec fn msg_init_step(a: MsgHandler, b: MsgHandler) -> bool {
    match (a, b) {
        (MsgHandler::Gcqr(x), MsgHandler::Gcqr(y)) => y.status && y.sub_function@.len() == x.sub_function@.len()
            && forall|i: int|
            0 <= i < y.sub_function@.len() ==> #[trigger] y.sub_function@[i] == gcqr_ready(x.sub_function@[i]),
        (MsgHandler::Gcm(x), MsgHandler::Gcm(y)) => y.status && y.enable == x.enable && y.subfunction@.len()
            == x.subfunction@.len() && forall|i: int|
            0 <= i < y.subfunction@.len() ==> #[trigger] y.subfunction@[i] == gcm_ready(x.subfunction@[i]),
        (MsgHandler::MemPhoto(_), MsgHandler::MemPhoto(y)) => y.status,
        (MsgHandler::Ttt(x), MsgHandler::Ttt(y)) => y.status && y.enable == x.enable && y.data_map_status
            == x.data_map_status && ttt_games(y.data_map) == ttt_games(x.data_map),
        (MsgHandler::PlusOne(_), MsgHandler::PlusOne(y)) => y.status,
        (MsgHandler::EmoMjk(x), MsgHandler::EmoMjk(y)) => y.enable == x.enable && y.status == (x.status || x.enable),
        (MsgHandler::Test(x), MsgHandler::Test(y)) => y.status == x.status,
        (MsgHandler::Play(x), MsgHandler::Play(y)) => y.status == x.status,
        (MsgHandler::Help(x), MsgHandler::Help(y)) => y.status == x.status,
        _ => false,
    }
}

impl MsgHandler {
    /// Marks the handler ready (for those that wait for modules, once the
    /// modules are up).
    pub fn init(&mut self)
        ensures
            msg_init_step(*old(self), *final(self)),
    {
        match self {
            MsgHandler::Test(h) => h.init(),
            MsgHandler::EmoMjk(h) => h.init(),
            MsgHandler::Play(h) => h.init(),
            MsgHandler::Help(h) => h.init(),
            MsgHandler::Ttt(h) => h.init(),
            MsgHandler::MemPhoto(h) => h.init(),
            MsgHandler::Gcm(h) => h.init(),
            MsgHandler::Gcqr(h) => h.init(),
            MsgHandler::PlusOne(h) => h.init(),
        }
    }
}

/// Marking a message handler ready never takes readiness away.
pub proof fn law_msg_init_keeps_ready(a: MsgHandler, b: MsgHandler)
    requires
        msg_init_step(a, b),
        a.spec_status(),
    ensures
        b.spec_status(),
{
}

/// The switched-off tic-tac-toe game stays switched off, and so never
/// becomes ready, however often it is marked ready.
pub proof fn law_switched_off_game_stays_off(a: MsgHandler, b: MsgHandler)
    requires
        msg_init_step(a, b),
        a matches MsgHandler::Ttt(t) && !t.enable,
    ensures
        b matches MsgHandler::Ttt(t) && !t.enable,
        !b.spec_status(),
{
}

/// The message handlers, in the order they are tried, none of them ready
/// yet (the tic-tac-toe game is switched off).
pub fn msg_handler_regin() -> (r: Vec<MsgHandler>)
    ensures
        r@.len() == 9,
        r@[0] matches MsgHandler::Test(h) && !h.status,
        r@[1] matches MsgHandler::EmoMjk(h) && h.enable && !h.status,
        r@[2] matches MsgHandler::Play(h) && !h.status,
        r@[3] matches MsgHandler::Help(h) && !h.status,
        r@[4] matches MsgHandler::Ttt(h) && !h.enable && !h.status && ttt_games(h.data_map) == no_games()
            && h.data_map_status == 0,
        r@[5] matches MsgHandler::MemPhoto(h) && !h.status,
        r@[6] matches MsgHandler::Gcm(h) && h.enable && !h.status && h.subfunction@ == gcm_subs(),
        r@[7] matches MsgHandler::Gcqr(h) && !h.status && h.sub_function@ == gcqr_subs(),
        r@[8] matches MsgHandler::PlusOne(h) && !h.status,
{
    let mut v: Vec<MsgHandler> = Vec::new();
    v.push(MsgHandler::Test(Test { status: false }));
    v.push(MsgHandler::EmoMjk(EmoMjk { enable: true, status: false }));
    v.push(MsgHandler::Play(Play { status: false }));
    v.push(MsgHandler::Help(Help { status: false }));
    v.push(MsgHandler::Ttt(TTT::new(false)));
    v.push(MsgHandler::MemPhoto(MemPhoto { status: false }));
    v.push(MsgHandler::Gcm(game_center_manager()));
    v.push(MsgHandler::Gcqr(gcqr()));
    v.push(MsgHandler::PlusOne(PlusOne::new()));
    v
}

// ---------------------------------------------------------------------
// Notice handlers
// ---------------------------------------------------------------------

/// A handler of notices.
pub enum NoticeHandler {
    Poke(Poke),
    Decrease(Decrease),
    Increase(Increase),
}

impl FnHandler for NoticeHandler {
    open spec fn spec_matches(&self, names: &GcName, msg: &Msg) -> bool {
        match self {
            NoticeHandler::Poke(h) => h.spec_matches(names, msg),
            NoticeHandler::Decrease(h) => h.spec_matches(names, msg),
            NoticeHandler::Increase(h) => h.spec_matches(names, msg),
        }
    }

    open spec fn spec_status(&self) -> bool {
        match self {
            NoticeHandler::Poke(h) => h.spec_status(),
            NoticeHandler::Decrease(h) => h.spec_status(),
            NoticeHandler::Increase(h) => h.spec_status(),
        }
    }

    open spec fn spec_name(&self) -> Seq<char> {
        match self {
            NoticeHandler::Poke(h) => h.spec_name(),
            NoticeHandler::Decrease(h) => h.spec_name(),
            NoticeHandler::Increase(h) => h.spec_name(),
        }
    }

    open spec fn spec_help(&self, helps: Seq<char>) -> Seq<char> {
        match self {
            NoticeHandler::Poke(h) => h.spec_help(helps),
            NoticeHandler::Decrease(h) => h.spec_help(helps),
            NoticeHandler::Increase(h) => h.spec_help(helps),
        }
    }

    fn matches(&self, names: &GcName, msg: &Msg) -> (r: bool) {
        match self {
            NoticeHandler::Poke(h) => FnHandler::matches(h, names, msg),
            NoticeHandler::Decrease(h) => FnHandler::matches(h, names, msg),
            NoticeHandler::Increase(h) => FnHandler::matches(h, names, msg),
        }
    }

    fn status(&self) -> (r: bool) {
        match self {
            NoticeHandler::Poke(h) => FnHandler::status(h),
            NoticeHandler::Decrease(h) => FnHandler::status(h),
            NoticeHandler::Increase(h) => FnHandler::status(h),
        }
    }

    fn help(&self, helps: &str) -> (r: String) {
        match self {
            NoticeHandler::Poke(h) => FnHandler::help(h, helps),
            NoticeHandler::Decrease(h) => FnHandler::help(h, helps),
            NoticeHandler::Increase(h) => FnHandler::help(h, helps),
        }
    }

    fn name(&self) -> (r: String) {
        match self {
            NoticeHandler::Poke(h) => FnHandler::name(h),
            NoticeHandler::Decrease(h) => FnHandler::name(h),
            NoticeHandler::Increase(h) => FnHandler::name(h),
        }
    }
}

/// What marking a notice handler ready does: `b` is `a` after its `init`.
/// The poke handler becomes ready; the other two are left as they are.
pub open spec fn notice_init_step(a: NoticeHandler, b: NoticeHandler) -> bool {
    match (a, b) {
        (NoticeHandler::Poke(_), NoticeHandler::Poke(y)) => y.status,
        (NoticeHandler::Decrease(x), NoticeHandler::Decrease(y)) => y.enable == x.enable,
        (NoticeHandler::Increase(x), NoticeHandler::Increase(y)) => y.enable == x.enable,
        _ => false,
    }
}

impl NoticeHandler {
    /// Marks the handler ready.
    pub fn init(&mut self)
        ensures
            notice_init_step(*old(self), *final(self)),
    {
        match self {
            NoticeHandler::Poke(h) => h.init(),
            NoticeHandler::Decrease(h) => h.init(),
            NoticeHandler::Increase(h) => h.init(),
        }
    }
}

/// Marking a notice handler ready never takes readiness away: the two
/// member-change handlers, ready from the start, stay ready.
pub proof fn law_notice_init_keeps_ready(a: NoticeHandler, b: NoticeHandler)
    requires
        notice_init_step(a, b),
        a.spec_status(),
    ensures
        b.spec_status(),
{
}

/// The notice handlers, in the order they are tried.
pub fn notice_handler_regin() -> (r: Vec<NoticeHandler>)
    ensures
        r@.len() == 3,
        r@[0] matches NoticeHandler::Poke(h) && !h.status,
        r@[1] matches NoticeHandler::Decrease(h) && h.enable,
        r@[2] matches NoticeHandler::Increase(h) && h.enable,
{
    let mut v: Vec<NoticeHandler> = Vec::new();
    v.push(NoticeHandler::Poke(Poke { status: false }));
    v.push(NoticeHandler::Decrease(Decrease { enable: true }));
    v.push(NoticeHandler::Increase(Increase { enable: true }));
    v
}

// ---------------------------------------------------------------------
// Routing
// ---------------------------------------------------------------------

/// The first handler that is ready and takes the event, if any.
pub fn dispatch<H: FnHandler>(handlers: &Vec<H>, names: &GcName, msg: &Msg) -> (r: Option<usize>)
    ensures
        match r {
            Some(i) => first_taker(handlers@, names, msg, i as int),
            None => forall|j: int|
                0 <= j < handlers@.len() ==> !((#[trigger] handlers@[j]).spec_status() && handlers@[j].spec_matches(
                    names,
                    msg,
                )),
        },
{
    match crate::handler::sub_match_process(msg, names, handlers) {
        Ok(i) => Some(i),
        Err(_) => None,
    }
}

/// The reply to a message whose handler failed: a quote and the error.
pub fn error_reply(msg: &Msg, err: &String) -> (r: (Post, Option<Msg>))
    ensures
        r.0.endpoint@ == "/send_msg"@,
        post_text(r.0) == quoted(msg, err@),
{
    crate::gcm::quoted_reply(msg, err.clone()).send_msg(msg)
}

/// The report of a failed notice handler: the error, as a forwarded
/// message.
pub fn notice_error_reply(msg: &Msg, err: &String) -> (r: Post)
    ensures
        r.endpoint@ == "/send_forward_msg"@,
        post_text(r) == err@,
{
    crate::gcm::plain_reply(err.clone()).send_forward_msg(msg)
}

} // verus!
