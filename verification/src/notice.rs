//! The notice handlers: poking back, and greeting members who join or
//! leave a group.

use crate::gc_name::GcName;
use crate::gcm::post_text;
use crate::handler::FnHandler;
use crate::msg::Msg;
use crate::reply::{code, Post, PostType, SendMsg, SendPoke};
use crate::text::{chars_eq_str, chars_of, push_str, string_of};
use vstd::prelude::*;
use vstd::string::*;

verus! {

// ---------------------------------------------------------------------
// 回戳: poke back
// ---------------------------------------------------------------------

/// Pokes back whoever pokes the bot.
pub struct Poke {
    pub status: bool,
}

impl Poke {
    /// Marks the handler ready.
    pub fn init(&mut self)
        ensures
            final(self).status,
    {
        self.status = true;
    }

    /// The poke back: in the group the poke came from, or in private.
    pub fn process(&self, msg: &Msg) -> (r: Post)
        ensures
            msg.group_id == 0 ==> r.endpoint@ == "/friend_poke"@ && (r.body matches PostType::Poke(p) && p.user_id
                == msg.user_id && p.group_id is None),
            msg.group_id != 0 ==> r.endpoint@ == "/group_poke"@ && (r.body matches PostType::Poke(p) && p.user_id
                == msg.user_id && p.group_id == Some(msg.group_id)),
    {
        if msg.group_id == 0 {
            SendPoke::private(msg.user_id)
        } else {
            SendPoke::group(msg.group_id, msg.user_id)
        }
    }
}

impl FnHandler for Poke {
    open spec fn spec_matches(&self, names: &GcName, msg: &Msg) -> bool {
        msg.sub_type@ == "poke"@ && msg.target_id == msg.self_id
    }

    open spec fn spec_status(&self) -> bool {
        self.status
    }

    open spec fn spec_name(&self) -> Seq<char> {
        "回戳"@
    }

    open spec fn spec_help(&self, helps: Seq<char>) -> Seq<char> {
        "自动回戳"@
    }

    fn matches(&self, names: &GcName, msg: &Msg) -> (r: bool) {
        let st = chars_of(msg.sub_type.as_str());
        chars_eq_str(st.as_slice(), "poke") && msg.target_id == msg.self_id
    }

    fn status(&self) -> (r: bool) {
        self.status
    }

    fn help(&self, helps: &str) -> (r: String) {
        String::from_str("自动回戳")
    }

    fn name(&self) -> (r: String) {
        String::from_str("回戳")
    }
}

// ---------------------------------------------------------------------
// 退群提醒: members leaving and joining
// ---------------------------------------------------------------------

/// Says goodbye when a member leaves a group.
pub struct Decrease {
    pub enable: bool,
}

/// The goodbye to a member, by nickname.
pub open spec fn farewell_text(nickname: Seq<char>) -> Seq<char> {
    "いつか、みんなと一緒に出会うかもね ——"@ + nickname
}

impl Decrease {
    /// Nothing to prepare: the handler is ready when enabled.
    pub fn init(&mut self)
        ensures
            final(self).enable == old(self).enable,
    {
    }

    /// The goodbye, given the nickname the chat server gives for the
    /// member who left.
    pub fn process(&self, msg: &Msg, nickname: &String) -> (r: (Post, Option<Msg>))
        ensures
            r.0.endpoint@ == "/send_msg"@,
            post_text(r.0) == farewell_text(nickname@),
    {
        let mut v: Vec<char> = Vec::new();
        push_str(&mut v, "いつか、みんなと一緒に出会うかもね ——");
        push_str(&mut v, nickname.as_str());
        let mut rep = SendMsg::new();
        rep.join_text(string_of(v.as_slice()));
        assert(rep.message@ =~= farewell_text(nickname@));
        rep.send_msg(msg)
    }
}

impl FnHandler for Decrease {
    open spec fn spec_matches(&self, names: &GcName, msg: &Msg) -> bool {
        msg.notice_type@ == "group_decrease"@
    }

    open spec fn spec_status(&self) -> bool {
        self.enable
    }

    open spec fn spec_name(&self) -> Seq<char> {
        "退群提醒"@
    }

    open spec fn spec_help(&self, helps: Seq<char>) -> Seq<char> {
        "检测到退群自动提醒"@
    }

    fn matches(&self, names: &GcName, msg: &Msg) -> (r: bool) {
        let nt = chars_of(msg.notice_type.as_str());
        chars_eq_str(nt.as_slice(), "group_decrease")
    }

    fn status(&self) -> (r: bool) {
        self.enable
    }

    fn help(&self, helps: &str) -> (r: String) {
        String::from_str("检测到退群自动提醒")
    }

    fn name(&self) -> (r: String) {
        String::from_str("退群提醒")
    }
}

/// Welcomes a member who joins a group.
pub struct Increase {
    pub enable: bool,
}

/// The welcome, after a mention of the new member.
pub open spec fn welcome_text(user_id: i64) -> Seq<char> {
    code("[CQ:at,qq="@, user_id as int, "] "@)
        + "你好呀，欢迎加入，可以使用/help获取功能帮助哦\n新功能正在绝赞开发中\n当然你有好的想法不妨告诉我哦\n"@
}

impl Increase {
    /// Nothing to prepare: the handler is ready when enabled.
    pub fn init(&mut self)
        ensures
            final(self).enable == old(self).enable,
    {
    }

    /// The welcome.
    pub fn process(&self, msg: &Msg) -> (r: (Post, Option<Msg>))
        ensures
            r.0.endpoint@ == "/send_msg"@,
            post_text(r.0) == welcome_text(msg.user_id),
    {
        let mut rep = SendMsg::new();
        rep.join_at(msg.user_id);
        rep.join_text(String::from_str("你好呀，欢迎加入，可以使用/help获取功能帮助哦\n新功能正在绝赞开发中\n当然你有好的想法不妨告诉我哦\n"));
        assert(rep.message@ =~= welcome_text(msg.user_id));
        rep.send_msg(msg)
    }
}

impl FnHandler for Increase {
    open spec fn spec_matches(&self, names: &GcName, msg: &Msg) -> bool {
        msg.notice_type@ == "group_increase"@
    }

    open spec fn spec_status(&self) -> bool {
        self.enable
    }

    open spec fn spec_name(&self) -> Seq<char> {
        "退群提醒"@
    }

    open spec fn spec_help(&self, helps: Seq<char>) -> Seq<char> {
        "检测到退群自动提醒"@
    }

    fn matches(&self, names: &GcName, msg: &Msg) -> (r: bool) {
        let nt = chars_of(msg.notice_type.as_str());
        chars_eq_str(nt.as_slice(), "group_increase")
    }

    fn status(&self) -> (r: bool) {
        self.enable
    }

    fn help(&self, helps: &str) -> (r: String) {
        String::from_str("检测到退群自动提醒")
    }

    fn name(&self) -> (r: String) {
        String::from_str("退群提醒")
    }
}

} // verus!
