//! Managing game centers ("机厅管理"): adding, naming, binding, unbinding,
//! deleting and listing the game centers of a group. Each command is
//! checked here, the database work is done by the caller, and the outcome
//! of each query is decided here.

use crate::config::list_contains;
use crate::gc_name::{gc_key, key_of, GcName};
use crate::handler::FnHandler;
use crate::msg::Msg;
use crate::reply::{code, Post, PostType, SendMsg};
use crate::store::{copy_opt, DbWrite};
use crate::text::{has_prefix, chars_eq_str, chars_of, contains_any, decimal, has_any, int_error_text, int_text, parse_error_kind, parse_i64, parse_i64_spec, push_decimal, push_int, push_str, split_on, split_spaces, string_of, views, IntErrorKind};
use vstd::prelude::*;
use vstd::string::*;

verus! {

// ---------------------------------------------------------------------
// Shared pieces
// ---------------------------------------------------------------------

/// The words of the message, split on spaces.
pub open spec fn words(msg: &Msg) -> Seq<Seq<char>> {
    split_on(msg.raw_message@, ' ')
}

/// The second word of the message is `name`.
pub open spec fn second_word_is(msg: &Msg, name: Seq<char>) -> bool {
    words(msg).len() >= 2 && words(msg)[1] == name
}

/// Whether the second word of the message is `name`.
pub fn sub_matches(msg: &Msg, name: &str) -> (r: bool)
    ensures
        r == second_word_is(msg, name@),
{
    let w = split_spaces(msg.raw_message.as_str());
    w.len() >= 2 && chars_eq_str(w[1].as_slice(), name)
}

/// Management commands work in groups only, and for members only when
/// they are super administrators.
pub open spec fn usable(msg: &Msg, super_admin: Seq<i64>) -> Result<(), Seq<char>> {
    if msg.message_type@ != "group"@ {
        Err("请在群聊内使用"@)
    } else if msg.sender.role@ == "member"@ && !super_admin.contains(msg.sender.user_id) {
        Err("非管理员无法操作"@)
    } else {
        Ok(())
    }
}

/// Whether the sender may use a management command.
pub fn useable_judgment(msg: &Msg, super_admin: &Vec<i64>) -> (r: Result<(), String>)
    ensures
        match r {
            Ok(()) => usable(msg, super_admin@) is Ok,
            Err(e) => usable(msg, super_admin@) == Err::<(), Seq<char>>(e@),
        },
{
    let kind = chars_of(msg.message_type.as_str());
    if !chars_eq_str(kind.as_slice(), "group") {
        return Err(String::from_str("请在群聊内使用"));
    }
    let role = chars_of(msg.sender.role.as_str());
    if chars_eq_str(role.as_slice(), "member") && !list_contains(super_admin, msg.sender.user_id) {
        return Err(String::from_str("非管理员无法操作"));
    }
    Ok(())
}

/// A game center as the database reports it: its id, its names joined by
/// spaces, its description and the group that created it.
pub struct GcInfo {
    pub gc_id: i64,
    pub name: Option<String>,
    pub description: String,
    pub admin_gid: i64,
}

/// Every row has its names.
pub open spec fn all_named(rows: Seq<GcInfo>) -> bool {
    forall|i: int| 0 <= i < rows.len() ==> (#[trigger] rows[i]).name is Some
}

/// The names of a row.
pub open spec fn names_of(r: GcInfo) -> Seq<char> {
    r.name->0@
}

/// One listed game center: `a` id `b` names `c` description.
pub open spec fn entry_text(r: GcInfo, a: Seq<char>, b: Seq<char>, c: Seq<char>) -> Seq<char> {
    a + int_text(r.gc_id as int) + b + names_of(r) + c + r.description@
}

/// The listed game centers, one after the other.
pub open spec fn entries_text(rows: Seq<GcInfo>, a: Seq<char>, b: Seq<char>, c: Seq<char>) -> Seq<char>
    decreases rows.len(),
{
    if rows.len() == 0 {
        Seq::<char>::empty()
    } else {
        entries_text(rows.drop_last(), a, b, c) + entry_text(rows.last(), a, b, c)
    }
}

/// Appends the listing of the rows.
pub fn push_entries(v: &mut Vec<char>, rows: &Vec<GcInfo>, a: &str, b: &str, c: &str)
    requires
        all_named(rows@),
    ensures
        final(v)@ == old(v)@ + entries_text(rows@, a@, b@, c@),
{
    let ghost start = v@;
    let mut i: usize = 0;
    assert(rows@.take(0) =~= Seq::<GcInfo>::empty());
    while i < rows.len()
        invariant
            i <= rows.len(),
            all_named(rows@),
            v@ == start + entries_text(rows@.take(i as int), a@, b@, c@),
        decreases rows.len() - i,
    {
        let r = &rows[i];
        let ghost before = v@;
        push_str(v, a);
        push_int(v, r.gc_id);
        push_str(v, b);
        assert(rows@[i as int].name is Some);
        match &r.name {
            Some(n) => push_str(v, n.as_str()),
            None => {},
        }
        push_str(v, c);
        push_str(v, r.description.as_str());
        assert(rows@.take(i + 1).drop_last() =~= rows@.take(i as int));
        assert(v@ =~= before + entry_text(rows@[i as int], a@, b@, c@));
        i = i + 1;
    }
    assert(rows@.take(rows.len() as int) =~= rows@);
}

/// Whether all rows have their names.
pub fn check_named(rows: &Vec<GcInfo>) -> (r: bool)
    ensures
        r == all_named(rows@),
{
    let mut i: usize = 0;
    while i < rows.len()
        invariant
            i <= rows.len(),
            forall|j: int| 0 <= j < i ==> (#[trigger] rows@[j]).name is Some,
        decreases rows.len() - i,
    {
        if rows[i].name.is_none() {
            return false;
        }
        i = i + 1;
    }
    true
}

fn words_of(msg: &Msg) -> (r: Vec<Vec<char>>)
    ensures
        views(r@) == words(msg),
{
    split_spaces(msg.raw_message.as_str())
}

proof fn lemma_word(w: Seq<Vec<char>>, i: int)
    requires
        0 <= i < w.len(),
    ensures
        views(w)[i] == w[i]@,
        views(w).len() == w.len(),
{
}

/// A reply that quotes `msg` and says `text`.
pub open spec fn quoted(msg: &Msg, text: Seq<char>) -> Seq<char> {
    code("[CQ:reply,id="@, msg.message_id as int, "]"@) + text
}

/// A message that quotes `msg` and says `text`.
pub fn quoted_reply(msg: &Msg, text: String) -> (r: SendMsg)
    ensures
        r.message@ == quoted(msg, text@),
        r.user_id == 0,
        r.group_id == 0,
{
    let mut rep = SendMsg::new();
    rep.join_reply(msg.message_id);
    rep.join_text(text);
    rep
}

/// A message that says `text`.
pub fn plain_reply(text: String) -> (r: SendMsg)
    ensures
        r.message@ == text@,
        r.user_id == 0,
        r.group_id == 0,
{
    let mut rep = SendMsg::new();
    rep.join_text(text);
    assert(rep.message@ =~= text@);
    rep
}

/// The text of the error a failed number parse gives.
pub fn number_error(k: IntErrorKind) -> (r: String)
    ensures
        r@ == int_error_text(k),
{
    k.text()
}

// ---------------------------------------------------------------------
// 添加机厅: add a game center
// ---------------------------------------------------------------------

/// Adds a game center created by the group.
pub struct GCMAdd {
    pub status: bool,
}

/// Usage of `添加机厅`.
pub open spec fn add_usage() -> Seq<char> {
    "参数有误\n使用方式:\n/机厅管理 添加机厅 <name> <备注>"@
}

/// The name and description that `添加机厅` adds, or why it refuses.
pub open spec fn add_args(msg: &Msg, super_admin: Seq<i64>) -> Result<(Seq<char>, Seq<char>), Seq<char>> {
    match usable(msg, super_admin) {
        Err(e) => Err(e),
        Ok(()) => {
            let w = words(msg);
            if (w.len() as i16) < 3 {
                Err(add_usage())
            } else if contains_any(w[2], "0123456789"@) {
                Err("机厅名字不能包含数字"@)
            } else {
                Ok((w[2], if w.len() > 3 { w[3] } else { "该机厅未备注"@ }))
            }
        },
    }
}

/// The text after a game center was added.
pub open spec fn add_done_text(name: Seq<char>, desc: Seq<char>, gc_id: i64) -> Seq<char> {
    "成功添加机厅: "@ + name + "\n机厅备注为: "@ + desc + "\n机厅id为: "@ + int_text(gc_id as int)
}

impl GCMAdd {
    /// The name and description to add, or the refusal.
    pub fn args(&self, msg: &Msg, super_admin: &Vec<i64>) -> (r: Result<(String, String), String>)
        ensures
            match r {
                Ok((n, d)) => add_args(msg, super_admin@) == Ok::<(Seq<char>, Seq<char>), Seq<char>>((n@, d@)),
                Err(e) => add_args(msg, super_admin@) == Err::<(Seq<char>, Seq<char>), Seq<char>>(e@),
            },
    {
        match useable_judgment(msg, super_admin) {
            Err(e) => {
                return Err(e);
            },
            Ok(()) => {},
        }
        let w = words_of(msg);
        if (w.len() as i16) < 3 {
            return Err(String::from_str("参数有误\n使用方式:\n/机厅管理 添加机厅 <name> <备注>"));
        }
        proof {
            lemma_word(w@, 2);
        }
        if has_any(w[2].as_slice(), "0123456789") {
            return Err(String::from_str("机厅名字不能包含数字"));
        }
        let name = string_of(w[2].as_slice());
        let desc = if w.len() > 3 {
            proof {
                lemma_word(w@, 3);
            }
            string_of(w[3].as_slice())
        } else {
            String::from_str("该机厅未备注")
        };
        Ok((name, desc))
    }

    /// After looking the name up in the group: refused when it is taken.
    pub fn check_unused(&self, same_name_rows: usize) -> (r: Result<(), String>)
        ensures
            r is Ok <==> same_name_rows == 0,
            r matches Err(e) ==> e@ == "与现有机厅重名，请更换名字"@,
    {
        if same_name_rows != 0 {
            return Err(String::from_str("与现有机厅重名，请更换名字"));
        }
        Ok(())
    }

    /// The first write: the new game center, created by the group.
    pub fn center_write(&self, msg: &Msg, desc: &String) -> (r: DbWrite)
        ensures
            r matches DbWrite::NewCenter { admin_gid, description } && admin_gid == msg.group_id
                && description@ == desc@,
    {
        DbWrite::NewCenter { admin_gid: msg.group_id, description: desc.clone() }
    }

    /// The second write: the name of the new game center `gc_id` (as the
    /// database numbered it) in the group.
    pub fn name_write(&self, msg: &Msg, name: &String, gc_id: i64) -> (r: DbWrite)
        ensures
            r matches DbWrite::AddName { gc_id: id, gid, name: n } && id == gc_id && gid == msg.group_id
                && n@ == name@,
    {
        DbWrite::AddName { gc_id, gid: msg.group_id, name: name.clone() }
    }

    /// The reply after the game center was added, forwarded.
    pub fn done(&self, msg: &Msg, name: &String, desc: &String, gc_id: i64) -> (r: Post)
        ensures
            r.endpoint@ == "/send_forward_msg"@,
            (r.body matches crate::reply::PostType::Message(m) && m.message@ == quoted(msg, add_done_text(name@, desc@, gc_id))),
    {
        let mut v: Vec<char> = Vec::new();
        push_str(&mut v, "成功添加机厅: ");
        push_str(&mut v, name.as_str());
        push_str(&mut v, "\n机厅备注为: ");
        push_str(&mut v, desc.as_str());
        push_str(&mut v, "\n机厅id为: ");
        push_int(&mut v, gc_id);
        assert(v@ =~= add_done_text(name@, desc@, gc_id));
        quoted_reply(msg, string_of(v.as_slice())).send_forward_msg(msg)
    }

    /// Marks the handler ready.
    pub fn init(&mut self)
        ensures
            final(self).status,
    {
        self.status = true;
    }
}

impl FnHandler for GCMAdd {
    open spec fn spec_matches(&self, names: &GcName, msg: &Msg) -> bool {
        second_word_is(msg, "添加机厅"@)
    }

    open spec fn spec_status(&self) -> bool {
        self.status
    }

    open spec fn spec_name(&self) -> Seq<char> {
        "添加机厅"@
    }

    open spec fn spec_help(&self, helps: Seq<char>) -> Seq<char> {
        "添加一个新的机厅\n使用方式:\n/机厅管理 添加机厅 <name> <备注>"@
    }

    fn matches(&self, names: &GcName, msg: &Msg) -> (r: bool) {
        sub_matches(msg, "添加机厅")
    }

    fn status(&self) -> (r: bool) {
        self.status
    }

    fn help(&self, helps: &str) -> (r: String) {
        String::from_str("添加一个新的机厅\n使用方式:\n/机厅管理 添加机厅 <name> <备注>")
    }

    fn name(&self) -> (r: String) {
        String::from_str("添加机厅")
    }
}


/// Looking a game center up gave exactly one row; otherwise the refusal:
/// `none` for no row, `head`, the rows listed and `tail` for several.
pub open spec fn pick_spec(
    rows: Seq<GcInfo>,
    none: Seq<char>,
    head: Seq<char>,
    a: Seq<char>,
    b: Seq<char>,
    c: Seq<char>,
    tail: Seq<char>,
) -> Result<(), Seq<char>> {
    if rows.len() == 0 {
        Err(none)
    } else if rows.len() > 1 {
        Err(head + entries_text(rows, a, b, c) + tail)
    } else {
        Ok(())
    }
}

/// Several rows list their names.
pub open spec fn listable(rows: Seq<GcInfo>) -> bool {
    rows.len() > 1 ==> all_named(rows)
}

/// Exactly one row, or the refusal.
pub fn pick_one(rows: &Vec<GcInfo>, none: &str, head: &str, a: &str, b: &str, c: &str, tail: &str) -> (r: Result<(), String>)
    requires
        listable(rows@),
    ensures
        match r {
            Ok(()) => pick_spec(rows@, none@, head@, a@, b@, c@, tail@) is Ok,
            Err(e) => pick_spec(rows@, none@, head@, a@, b@, c@, tail@) == Err::<(), Seq<char>>(e@),
        },
{
    if rows.len() == 0 {
        return Err(String::from_str(none));
    }
    if rows.len() > 1 {
        let mut v: Vec<char> = Vec::new();
        push_str(&mut v, head);
        push_entries(&mut v, rows, a, b, c);
        push_str(&mut v, tail);
        return Err(string_of(v.as_slice()));
    }
    Ok(())
}

/// The text a request carries.
pub open spec fn post_text(p: Post) -> Seq<char> {
    match p.body {
        PostType::Message(m) => m.message@,
        PostType::Poke(_) => Seq::<char>::empty(),
    }
}

/// The word parsed as an `i64`, or 0.
pub open spec fn id_or_zero(w: Seq<char>) -> i64 {
    match parse_i64_spec(w) {
        Some(v) => v as i64,
        None => 0,
    }
}

fn parse_or_zero(w: &[char]) -> (r: i64)
    ensures
        r == id_or_zero(w@),
{
    match parse_i64(w) {
        Ok(v) => v,
        Err(_) => 0,
    }
}

fn word_string(w: &Vec<Vec<char>>, i: usize) -> (r: String)
    requires
        i < w.len(),
    ensures
        r@ == views(w@)[i as int],
{
    string_of(w[i].as_slice())
}

/// The refusal when a new name is already taken.
pub fn name_taken(count: usize) -> (r: Result<(), String>)
    ensures
        r is Ok <==> count == 0,
        (r matches Err(e) ==> e@ == "与现有机厅重名，请更换名字"@),
{
    if count != 0 {
        return Err(String::from_str("与现有机厅重名，请更换名字"));
    }
    Ok(())
}

/// Gives a game center one more name in the group.
pub struct GCMAddName {
    pub status: bool,
}

impl GCMAddName {
    /// Marks the handler ready.
    pub fn init(&mut self)
        ensures
            final(self).status,
    {
        self.status = true;
    }
}

impl FnHandler for GCMAddName {
    open spec fn spec_matches(&self, names: &GcName, msg: &Msg) -> bool {
        second_word_is(msg, "添加名字"@)
    }

    open spec fn spec_status(&self) -> bool {
        self.status
    }

    open spec fn spec_name(&self) -> Seq<char> {
        "添加名字"@
    }

    open spec fn spec_help(&self, helps: Seq<char>) -> Seq<char> {
        "为你的机厅添加别名\n注：\n一个机厅不能有重复名字\n使用方法：\n/机厅管理 添加名字 <机厅id/机厅name> <new_name>"@
    }

    fn matches(&self, names: &GcName, msg: &Msg) -> (r: bool) {
        sub_matches(msg, "添加名字")
    }

    fn status(&self) -> (r: bool) {
        self.status
    }

    fn help(&self, helps: &str) -> (r: String) {
        String::from_str("为你的机厅添加别名\n注：\n一个机厅不能有重复名字\n使用方法：\n/机厅管理 添加名字 <机厅id/机厅name> <new_name>")
    }

    fn name(&self) -> (r: String) {
        String::from_str("添加名字")
    }
}

/// The looked-up name, its id reading (or 0) and the new name of `添加名字`,
/// or why it refuses.
pub open spec fn add_name_args(msg: &Msg, super_admin: Seq<i64>) -> Result<(Seq<char>, i64, Seq<char>), Seq<char>> {
    match usable(msg, super_admin) {
        Err(e) => Err(e),
        Ok(()) => {
            let w = words(msg);
            if w.len() != 4 {
                Err("参数有误\n使用方法：\n/机厅管理 添加名字 <机厅id/机厅name> <new_name>"@)
            } else if contains_any(w[3], "0123456789"@) {
                Err("机厅名字不能包含数字"@)
            } else {
                Ok((w[2], id_or_zero(w[2]), w[3]))
            }
        },
    }
}

/// The text after a name was added.
pub open spec fn add_name_done_text(row: GcInfo, new_name: Seq<char>) -> Seq<char> {
    "添加名字成功\nid: "@ + int_text(row.gc_id as int) + "\nname: "@ + names_of(row) + " "@ + new_name + "\n备注: "@
        + row.description@
}

impl GCMAddName {
    /// The arguments, or the refusal.
    pub fn args(&self, msg: &Msg, super_admin: &Vec<i64>) -> (r: Result<(String, i64, String), String>)
        ensures
            match r {
                Ok((n, id, new)) => add_name_args(msg, super_admin@) == Ok::<(Seq<char>, i64, Seq<char>), Seq<char>>((n@, id, new@)),
                Err(e) => add_name_args(msg, super_admin@) == Err::<(Seq<char>, i64, Seq<char>), Seq<char>>(e@),
            },
    {
        match useable_judgment(msg, super_admin) {
            Err(e) => {
                return Err(e);
            },
            Ok(()) => {},
        }
        let w = words_of(msg);
        if w.len() != 4 {
            return Err(String::from_str("参数有误\n使用方法：\n/机厅管理 添加名字 <机厅id/机厅name> <new_name>"));
        }
        proof {
            lemma_word(w@, 2);
            lemma_word(w@, 3);
        }
        if has_any(w[3].as_slice(), "0123456789") {
            return Err(String::from_str("机厅名字不能包含数字"));
        }
        let id = parse_or_zero(w[2].as_slice());
        Ok((word_string(&w, 2), id, word_string(&w, 3)))
    }

    /// The game center the name stands for must be the only one found.
    pub fn lookup(&self, rows: &Vec<GcInfo>) -> (r: Result<(), String>)
        requires
            listable(rows@),
        ensures
            match r {
                Ok(()) => rows@.len() == 1,
                Err(e) => pick_spec(rows@, "未找到符合条件的机厅"@, "找到多个同名机厅："@, "\nid: "@, "\nname: "@, "\n备注: "@, ""@)
                    == Err::<(), Seq<char>>(e@),
            },
    {
        pick_one(rows, "未找到符合条件的机厅", "找到多个同名机厅：", "\nid: ", "\nname: ", "\n备注: ", "")
    }

    /// The reply after the name was added, forwarded.
    pub fn done(&self, msg: &Msg, row: &GcInfo, new_name: &String) -> (r: Post)
        requires
            row.name is Some,
        ensures
            r.endpoint@ == "/send_forward_msg"@,
            post_text(r) == quoted(msg, add_name_done_text(*row, new_name@)),
    {
        let mut v: Vec<char> = Vec::new();
        push_str(&mut v, "添加名字成功\nid: ");
        push_int(&mut v, row.gc_id);
        push_str(&mut v, "\nname: ");
        match &row.name {
            Some(n) => push_str(&mut v, n.as_str()),
            None => {},
        }
        push_str(&mut v, " ");
        push_str(&mut v, new_name.as_str());
        push_str(&mut v, "\n备注: ");
        push_str(&mut v, row.description.as_str());
        assert(v@ =~= add_name_done_text(*row, new_name@));
        quoted_reply(msg, string_of(v.as_slice())).send_forward_msg(msg)
    }

    /// The write: the new name of the game center found, in the group.
    pub fn write(&self, msg: &Msg, row: &GcInfo, new_name: &String) -> (r: DbWrite)
        ensures
            r matches DbWrite::AddName { gc_id, gid, name } && gc_id == row.gc_id && gid == msg.group_id
                && name@ == new_name@,
    {
        DbWrite::AddName { gc_id: row.gc_id, gid: msg.group_id, name: new_name.clone() }
    }
}

/// Lists the game centers of the group.
pub struct GCMQueryGc {
    pub status: bool,
}

impl GCMQueryGc {
    /// Marks the handler ready.
    pub fn init(&mut self)
        ensures
            final(self).status,
    {
        self.status = true;
    }
}

impl FnHandler for GCMQueryGc {
    open spec fn spec_matches(&self, names: &GcName, msg: &Msg) -> bool {
        second_word_is(msg, "本群机厅"@)
    }

    open spec fn spec_status(&self) -> bool {
        self.status
    }

    open spec fn spec_name(&self) -> Seq<char> {
        "本群机厅"@
    }

    open spec fn spec_help(&self, helps: Seq<char>) -> Seq<char> {
        "一键获取本群所有的机厅"@
    }

    fn matches(&self, names: &GcName, msg: &Msg) -> (r: bool) {
        sub_matches(msg, "本群机厅")
    }

    fn status(&self) -> (r: bool) {
        self.status
    }

    fn help(&self, helps: &str) -> (r: String) {
        String::from_str("一键获取本群所有的机厅")
    }

    fn name(&self) -> (r: String) {
        String::from_str("本群机厅")
    }
}

/// The refusal of `本群机厅`, if any.
pub open spec fn query_gc_args(msg: &Msg) -> Result<(), Seq<char>> {
    if words(msg).len() != 2 {
        Err("参数错误\n使用方法：\n/机厅管理 本群机厅"@)
    } else if msg.message_type@ != "group"@ {
        Err("请在群聊中使用"@)
    } else {
        Ok(())
    }
}

/// The listing of the group's game centers.
pub open spec fn query_gc_text(rows: Seq<GcInfo>) -> Seq<char> {
    "找到"@ + decimal(rows.len()) + "个机厅:"@ + entries_text(rows, "\n\nid: "@, "\nname: "@, "\n备注: "@)
}

impl GCMQueryGc {
    /// The refusal, if any.
    pub fn args(&self, msg: &Msg) -> (r: Result<(), String>)
        ensures
            match r {
                Ok(()) => query_gc_args(msg) is Ok,
                Err(e) => query_gc_args(msg) == Err::<(), Seq<char>>(e@),
            },
    {
        let w = words_of(msg);
        if w.len() != 2 {
            return Err(String::from_str("参数错误\n使用方法：\n/机厅管理 本群机厅"));
        }
        let kind = chars_of(msg.message_type.as_str());
        if !chars_eq_str(kind.as_slice(), "group") {
            return Err(String::from_str("请在群聊中使用"));
        }
        Ok(())
    }

    /// The listing, or the refusal when the group has no game center.
    pub fn done(&self, msg: &Msg, rows: &Vec<GcInfo>) -> (r: Result<(Post, Option<Msg>), String>)
        requires
            all_named(rows@),
        ensures
            rows@.len() == 0 <==> r is Err,
            (r matches Err(e) ==> e@ == "本群没有找到机厅"@),
            (r matches Ok((p, _)) ==> p.endpoint@ == "/send_msg"@ && post_text(p) == quoted(msg, query_gc_text(rows@))),
    {
        if rows.len() == 0 {
            return Err(String::from_str("本群没有找到机厅"));
        }
        let mut v: Vec<char> = Vec::new();
        push_str(&mut v, "找到");
        push_decimal(&mut v, rows.len() as u64);
        push_str(&mut v, "个机厅:");
        push_entries(&mut v, rows, "\n\nid: ", "\nname: ", "\n备注: ");
        assert(v@ =~= query_gc_text(rows@));
        Ok(quoted_reply(msg, string_of(v.as_slice())).send_msg(msg))
    }
}

/// Changes the description of a game center the group created.
pub struct GCMReDescription {
    pub status: bool,
}

impl GCMReDescription {
    /// Marks the handler ready.
    pub fn init(&mut self)
        ensures
            final(self).status,
    {
        self.status = true;
    }
}

impl FnHandler for GCMReDescription {
    open spec fn spec_matches(&self, names: &GcName, msg: &Msg) -> bool {
        second_word_is(msg, "修改备注"@)
    }

    open spec fn spec_status(&self) -> bool {
        self.status
    }

    open spec fn spec_name(&self) -> Seq<char> {
        "修改备注"@
    }

    open spec fn spec_help(&self, helps: Seq<char>) -> Seq<char> {
        "修改机厅备注(建议备注地名)\n使用方法：\n/机厅管理 修改备注 <机厅id/name> <备注内容>"@
    }

    fn matches(&self, names: &GcName, msg: &Msg) -> (r: bool) {
        sub_matches(msg, "修改备注")
    }

    fn status(&self) -> (r: bool) {
        self.status
    }

    fn help(&self, helps: &str) -> (r: String) {
        String::from_str("修改机厅备注(建议备注地名)\n使用方法：\n/机厅管理 修改备注 <机厅id/name> <备注内容>")
    }

    fn name(&self) -> (r: String) {
        String::from_str("修改备注")
    }
}

/// The game center and the new description of `修改备注`, or why it
/// refuses; a word that is no number is looked up as a name of the group.
pub open spec fn re_description_args(msg: &Msg, table: Map<Seq<char>, i64>) -> Result<(i64, Seq<char>), Seq<char>> {
    let w = words(msg);
    if w.len() != 4 {
        Err("参数错误\n使用方法：\n/机厅管理 修改备注 <机厅id/name> <备注内容>"@)
    } else {
        match parse_i64_spec(w[2]) {
            Some(v) => Ok((v as i64, w[3])),
            None => {
                let k = gc_key(w[2], msg.group_id);
                if table.contains_key(k) { Ok((table[k], w[3])) } else { Err("未找到该机厅"@) }
            },
        }
    }
}

/// The text after the description was changed.
pub open spec fn re_description_text(gc_id: i64, old_desc: Seq<char>, new_desc: Seq<char>) -> Seq<char> {
    "修改成功\nid: "@ + int_text(gc_id as int) + "\n原备注: "@ + old_desc + "\n备注: "@ + new_desc
}

impl GCMReDescription {
    /// The arguments, or the refusal.
    pub fn args(&self, msg: &Msg, names: &GcName) -> (r: Result<(i64, String), String>)
        ensures
            match r {
                Ok((id, d)) => re_description_args(msg, names.table()) == Ok::<(i64, Seq<char>), Seq<char>>((id, d@)),
                Err(e) => re_description_args(msg, names.table()) == Err::<(i64, Seq<char>), Seq<char>>(e@),
            },
    {
        let w = words_of(msg);
        if w.len() != 4 {
            return Err(String::from_str("参数错误\n使用方法：\n/机厅管理 修改备注 <机厅id/name> <备注内容>"));
        }
        proof {
            lemma_word(w@, 2);
            lemma_word(w@, 3);
        }
        let gc_id = match parse_i64(w[2].as_slice()) {
            Ok(v) => v,
            Err(_) => {
                let key = key_of(w[2].as_slice(), msg.group_id);
                match names.get(key.as_slice()) {
                    None => {
                        return Err(String::from_str("未找到该机厅"));
                    },
                    Some(d) => d.gc_id,
                }
            },
        };
        Ok((gc_id, word_string(&w, 3)))
    }

    /// The game center must exist and belong to the group.
    pub fn check(&self, msg: &Msg, rows: &Vec<GcInfo>) -> (r: Result<(), String>)
        ensures
            match r {
                Ok(()) => rows@.len() >= 1 && rows@[0].admin_gid == msg.group_id,
                Err(e) => (rows@.len() < 1 && e@ == "未找到该机厅"@) || (rows@.len() >= 1
                    && rows@[0].admin_gid != msg.group_id && e@ == "没有权限修改绑定的机厅"@),
            },
    {
        if rows.len() < 1 {
            return Err(String::from_str("未找到该机厅"));
        }
        if rows[0].admin_gid != msg.group_id {
            return Err(String::from_str("没有权限修改绑定的机厅"));
        }
        Ok(())
    }

    /// The write: the new description of game center `gc_id`.
    pub fn write(&self, gc_id: i64, new_desc: &String) -> (r: DbWrite)
        ensures
            r matches DbWrite::SetDescription { gc_id: id, description } && id == gc_id && description@ == new_desc@,
    {
        DbWrite::SetDescription { gc_id, description: new_desc.clone() }
    }

    /// The reply after the change.
    pub fn done(&self, msg: &Msg, gc_id: i64, old_desc: &String, new_desc: &String) -> (r: (Post, Option<Msg>))
        ensures
            r.0.endpoint@ == "/send_msg"@,
            post_text(r.0) == quoted(msg, re_description_text(gc_id, old_desc@, new_desc@)),
    {
        let mut v: Vec<char> = Vec::new();
        push_str(&mut v, "修改成功\nid: ");
        push_int(&mut v, gc_id);
        push_str(&mut v, "\n原备注: ");
        push_str(&mut v, old_desc.as_str());
        push_str(&mut v, "\n备注: ");
        push_str(&mut v, new_desc.as_str());
        assert(v@ =~= re_description_text(gc_id, old_desc@, new_desc@));
        quoted_reply(msg, string_of(v.as_slice())).send_msg(msg)
    }
}

/// Removes the group's binding to a game center another group created.
pub struct GCMUnbind {
    pub status: bool,
}

impl GCMUnbind {
    /// Marks the handler ready.
    pub fn init(&mut self)
        ensures
            final(self).status,
    {
        self.status = true;
    }
}

impl FnHandler for GCMUnbind {
    /// Taken under its name and under the documented `解除绑定`.
    open spec fn spec_matches(&self, names: &GcName, msg: &Msg) -> bool {
        second_word_is(msg, "解绑机厅"@) || second_word_is(msg, "解除绑定"@)
    }

    open spec fn spec_status(&self) -> bool {
        self.status
    }

    open spec fn spec_name(&self) -> Seq<char> {
        "解绑机厅"@
    }

    open spec fn spec_help(&self, helps: Seq<char>) -> Seq<char> {
        "解除绑定的机厅\n使用方法：\n/机厅管理 解除绑定 <机厅id/机厅名字(别名)>"@
    }

    fn matches(&self, names: &GcName, msg: &Msg) -> (r: bool) {
        sub_matches(msg, "解绑机厅") || sub_matches(msg, "解除绑定")
    }

    fn status(&self) -> (r: bool) {
        self.status
    }

    fn help(&self, helps: &str) -> (r: String) {
        String::from_str("解除绑定的机厅\n使用方法：\n/机厅管理 解除绑定 <机厅id/机厅名字(别名)>")
    }

    fn name(&self) -> (r: String) {
        String::from_str("解绑机厅")
    }
}

/// What `解绑机厅` looks for: a name, or an id when the word is a number;
/// or why it refuses.
pub open spec fn unbind_args(msg: &Msg, super_admin: Seq<i64>) -> Result<(Option<Seq<char>>, Option<i64>), Seq<char>> {
    match usable(msg, super_admin) {
        Err(e) => Err(e),
        Ok(()) => {
            let w = words(msg);
            if w.len() != 3 {
                Err("参数错误\n使用方法：\n/机厅管理 解除绑定 <机厅id/机厅名字(别名)>"@)
            } else {
                match parse_i64_spec(w[2]) {
                    Some(v) => Ok((None, Some(v as i64))),
                    None => Ok((Some(w[2]), None)),
                }
            }
        },
    }
}

/// The text after unbinding.
pub open spec fn unbind_text(row: GcInfo) -> Seq<char> {
    "成功解除机厅绑定\nid:"@ + int_text(row.gc_id as int) + "\nname:"@ + names_of(row) + "\n备注:"@ + row.description@
}

impl GCMUnbind {
    /// The arguments, or the refusal.
    pub fn args(&self, msg: &Msg, super_admin: &Vec<i64>) -> (r: Result<(Option<String>, Option<i64>), String>)
        ensures
            match r {
                Ok((n, id)) => unbind_args(msg, super_admin@) == Ok::<(Option<Seq<char>>, Option<i64>), Seq<char>>((
                    match n { Some(s) => Some(s@), None => None },
                    id,
                )),
                Err(e) => unbind_args(msg, super_admin@) == Err::<(Option<Seq<char>>, Option<i64>), Seq<char>>(e@),
            },
    {
        match useable_judgment(msg, super_admin) {
            Err(e) => {
                return Err(e);
            },
            Ok(()) => {},
        }
        let w = words_of(msg);
        if w.len() != 3 {
            return Err(String::from_str("参数错误\n使用方法：\n/机厅管理 解除绑定 <机厅id/机厅名字(别名)>"));
        }
        proof {
            lemma_word(w@, 2);
        }
        match parse_i64(w[2].as_slice()) {
            Ok(v) => Ok((None, Some(v))),
            Err(_) => Ok((Some(word_string(&w, 2)), None)),
        }
    }

    /// Exactly one game center, bound rather than created by the group.
    pub fn lookup(&self, msg: &Msg, rows: &Vec<GcInfo>) -> (r: Result<(), String>)
        requires
            listable(rows@),
        ensures
            match r {
                Ok(()) => rows@.len() == 1 && rows@[0].admin_gid != msg.group_id,
                Err(e) => {
                    let p = pick_spec(rows@, "未找到符合条件的机厅"@, "找到多个机厅，使用\n/机厅管理 解绑机厅 <机厅id>\n进行解绑操作"@,
                        "\nid:"@, " name:"@, " 备注:"@, ""@);
                    p == Err::<(), Seq<char>>(e@) || (p is Ok && rows@[0].admin_gid == msg.group_id
                        && e@ == "该机厅为当前群聊创建，非绑定机厅，如需删除请使用“删除机厅”"@)
                },
            },
    {
        match pick_one(rows, "未找到符合条件的机厅", "找到多个机厅，使用\n/机厅管理 解绑机厅 <机厅id>\n进行解绑操作", "\nid:", " name:", " 备注:", "") {
            Err(e) => {
                return Err(e);
            },
            Ok(()) => {},
        }
        if rows[0].admin_gid == msg.group_id {
            return Err(String::from_str("该机厅为当前群聊创建，非绑定机厅，如需删除请使用“删除机厅”"));
        }
        Ok(())
    }

    /// The write: every name of the game center found, in the group.
    pub fn write(&self, msg: &Msg, row: &GcInfo) -> (r: DbWrite)
        ensures
            r == (DbWrite::RemoveGroupNames { gc_id: row.gc_id, gid: msg.group_id }),
    {
        DbWrite::RemoveGroupNames { gc_id: row.gc_id, gid: msg.group_id }
    }

    /// The reply after unbinding.
    pub fn done(&self, msg: &Msg, row: &GcInfo) -> (r: (Post, Option<Msg>))
        requires
            row.name is Some,
        ensures
            r.0.endpoint@ == "/send_msg"@,
            post_text(r.0) == quoted(msg, unbind_text(*row)),
    {
        let mut v: Vec<char> = Vec::new();
        push_str(&mut v, "成功解除机厅绑定\nid:");
        push_int(&mut v, row.gc_id);
        push_str(&mut v, "\nname:");
        match &row.name {
            Some(n) => push_str(&mut v, n.as_str()),
            None => {},
        }
        push_str(&mut v, "\n备注:");
        push_str(&mut v, row.description.as_str());
        assert(v@ =~= unbind_text(*row));
        quoted_reply(msg, string_of(v.as_slice())).send_msg(msg)
    }
}

/// Removes one name of a game center.
pub struct GCMDeleteName {
    pub status: bool,
}

impl GCMDeleteName {
    /// Marks the handler ready.
    pub fn init(&mut self)
        ensures
            final(self).status,
    {
        self.status = true;
    }
}

impl FnHandler for GCMDeleteName {
    open spec fn spec_matches(&self, names: &GcName, msg: &Msg) -> bool {
        second_word_is(msg, "删除名字"@)
    }

    open spec fn spec_status(&self) -> bool {
        self.status
    }

    open spec fn spec_name(&self) -> Seq<char> {
        "删除名字"@
    }

    open spec fn spec_help(&self, helps: Seq<char>) -> Seq<char> {
        "删除名字\n注：\n当仅剩一个名字时无法使用\n使用方法：\n/机厅管理 删除名字 <id(可选)> <name>"@
    }

    fn matches(&self, names: &GcName, msg: &Msg) -> (r: bool) {
        sub_matches(msg, "删除名字")
    }

    fn status(&self) -> (r: bool) {
        self.status
    }

    fn help(&self, helps: &str) -> (r: String) {
        String::from_str("删除名字\n注：\n当仅剩一个名字时无法使用\n使用方法：\n/机厅管理 删除名字 <id(可选)> <name>")
    }

    fn name(&self) -> (r: String) {
        String::from_str("删除名字")
    }
}

/// The name to remove and, with four words, the id it must belong to; or
/// why `删除名字` refuses.
pub open spec fn delete_name_args(msg: &Msg, super_admin: Seq<i64>) -> Result<(Seq<char>, Option<i64>), Seq<char>> {
    match usable(msg, super_admin) {
        Err(e) => Err(e),
        Ok(()) => {
            let w = words(msg);
            if w.len() != 3 && w.len() != 4 {
                Err("参数错误\n使用方法：\n/机厅管理 删除名字 <id(可选)> <name>"@)
            } else if w.len() == 3 {
                Ok((w[2], None))
            } else {
                match parse_i64_spec(w[2]) {
                    Some(v) => Ok((w[3], Some(v as i64))),
                    None => Err(int_error_text(parse_error_kind(w[2], i64::MIN as int, i64::MAX as int))),
                }
            }
        },
    }
}

/// The text after a name was removed.
pub open spec fn delete_name_text(gc_id: i64, name: Seq<char>) -> Seq<char> {
    "已删除机厅id："@ + int_text(gc_id as int) + "的名字："@ + name
}

impl GCMDeleteName {
    /// The arguments, or the refusal.
    pub fn args(&self, msg: &Msg, super_admin: &Vec<i64>) -> (r: Result<(String, Option<i64>), String>)
        ensures
            match r {
                Ok((n, id)) => delete_name_args(msg, super_admin@) == Ok::<(Seq<char>, Option<i64>), Seq<char>>((n@, id)),
                Err(e) => delete_name_args(msg, super_admin@) == Err::<(Seq<char>, Option<i64>), Seq<char>>(e@),
            },
    {
        match useable_judgment(msg, super_admin) {
            Err(e) => {
                return Err(e);
            },
            Ok(()) => {},
        }
        let w = words_of(msg);
        if w.len() != 3 && w.len() != 4 {
            return Err(String::from_str("参数错误\n使用方法：\n/机厅管理 删除名字 <id(可选)> <name>"));
        }
        proof {
            lemma_word(w@, 2);
        }
        if w.len() == 3 {
            return Ok((word_string(&w, 2), None));
        }
        proof {
            lemma_word(w@, 3);
        }
        match parse_i64(w[2].as_slice()) {
            Ok(v) => Ok((word_string(&w, 3), Some(v))),
            Err(k) => Err(number_error(k)),
        }
    }

    /// No match refuses; several matches end the command without a reply;
    /// exactly one goes on (`Ok(true)`).
    pub fn lookup(&self, rows_found: usize) -> (r: Result<bool, String>)
        ensures
            match r {
                Ok(go) => rows_found > 0 && go == (rows_found == 1),
                Err(e) => rows_found == 0 && e@ == "未找到符合条件的机厅"@,
            },
    {
        if rows_found == 0 {
            return Err(String::from_str("未找到符合条件的机厅"));
        }
        Ok(rows_found == 1)
    }

    /// A game center keeps at least one name.
    pub fn check_count(&self, names_of_gc: i64) -> (r: Result<(), String>)
        ensures
            r is Ok <==> names_of_gc != 1,
            (r matches Err(e) ==> e@ == "当前机厅名字数量为1，无法进行删除名字操作，至少为机厅保持一个名字，如需删除，请使用删除机厅"@),
    {
        if names_of_gc == 1 {
            return Err(String::from_str("当前机厅名字数量为1，无法进行删除名字操作，至少为机厅保持一个名字，如需删除，请使用删除机厅"));
        }
        Ok(())
    }

    /// The write: the name found of game center `gc_id`, in the group.
    pub fn write(&self, msg: &Msg, gc_id: i64, name: &String) -> (r: DbWrite)
        ensures
            r matches DbWrite::RemoveName { gc_id: id, gid, name: n } && id == gc_id && gid == msg.group_id
                && n@ == name@,
    {
        DbWrite::RemoveName { gc_id, gid: msg.group_id, name: name.clone() }
    }

    /// The reply after removing the name.
    pub fn done(&self, msg: &Msg, gc_id: i64, name: &String) -> (r: (Post, Option<Msg>))
        ensures
            r.0.endpoint@ == "/send_msg"@,
            post_text(r.0) == quoted(msg, delete_name_text(gc_id, name@)),
    {
        let mut v: Vec<char> = Vec::new();
        push_str(&mut v, "已删除机厅id：");
        push_int(&mut v, gc_id);
        push_str(&mut v, "的名字：");
        push_str(&mut v, name.as_str());
        assert(v@ =~= delete_name_text(gc_id, name@));
        quoted_reply(msg, string_of(v.as_slice())).send_msg(msg)
    }
}

/// Binds a game center of another group to this group under a new name.
pub struct GCMBind {
    pub status: bool,
}

impl GCMBind {
    /// Marks the handler ready.
    pub fn init(&mut self)
        ensures
            final(self).status,
    {
        self.status = true;
    }
}

impl FnHandler for GCMBind {
    open spec fn spec_matches(&self, names: &GcName, msg: &Msg) -> bool {
        second_word_is(msg, "绑定机厅"@)
    }

    open spec fn spec_status(&self) -> bool {
        self.status
    }

    open spec fn spec_name(&self) -> Seq<char> {
        "绑定机厅"@
    }

    open spec fn spec_help(&self, helps: Seq<char>) -> Seq<char> {
        "绑定机厅，可通过<搜索>功能获取需要的机厅id，然后将机厅绑定到群聊内，对该机厅除删除外功能可正常使用\n使用方法：\n/机厅管理 绑定机厅 <机厅id(无法使用名字绑定)> <自定义name>"@
    }

    fn matches(&self, names: &GcName, msg: &Msg) -> (r: bool) {
        sub_matches(msg, "绑定机厅")
    }

    fn status(&self) -> (r: bool) {
        self.status
    }

    fn help(&self, helps: &str) -> (r: String) {
        String::from_str("绑定机厅，可通过<搜索>功能获取需要的机厅id，然后将机厅绑定到群聊内，对该机厅除删除外功能可正常使用\n使用方法：\n/机厅管理 绑定机厅 <机厅id(无法使用名字绑定)> <自定义name>")
    }

    fn name(&self) -> (r: String) {
        String::from_str("绑定机厅")
    }
}

/// The id and the new name of `绑定机厅`, or why it refuses.
pub open spec fn bind_args(msg: &Msg) -> Result<(i64, Seq<char>), Seq<char>> {
    match usable(msg, Seq::<i64>::empty()) {
        Err(e) => Err(e),
        Ok(()) => {
            let w = words(msg);
            if w.len() != 4 {
                Err("参数错误\n使用方法：\n/机厅管理 绑定机厅 <机厅id(无法使用名字绑定)> <自定义name>"@)
            } else {
                match parse_i64_spec(w[2]) {
                    Some(v) => Ok((v as i64, w[3])),
                    None => Err(int_error_text(parse_error_kind(w[2], i64::MIN as int, i64::MAX as int))),
                }
            }
        },
    }
}

/// How the lookup of the game center to bind went.
pub enum BindCheck {
    /// One game center of another group: go on.
    Proceed,
    /// More than one row for the id.
    Duplicate,
}

/// The text after binding.
pub open spec fn bind_text(gc_id: i64, name: Seq<char>, desc: Seq<char>) -> Seq<char> {
    "绑定机厅成功\nid: "@ + int_text(gc_id as int) + "\nname: "@ + name + "\n机厅备注: "@ + desc
}

impl GCMBind {
    /// The arguments, or the refusal.
    pub fn args(&self, msg: &Msg) -> (r: Result<(i64, String), String>)
        ensures
            match r {
                Ok((id, n)) => bind_args(msg) == Ok::<(i64, Seq<char>), Seq<char>>((id, n@)),
                Err(e) => bind_args(msg) == Err::<(i64, Seq<char>), Seq<char>>(e@),
            },
    {
        let none: Vec<i64> = Vec::new();
        match useable_judgment(msg, &none) {
            Err(e) => {
                return Err(e);
            },
            Ok(()) => {},
        }
        assert(none@ =~= Seq::<i64>::empty());
        let w = words_of(msg);
        if w.len() != 4 {
            return Err(String::from_str("参数错误\n使用方法：\n/机厅管理 绑定机厅 <机厅id(无法使用名字绑定)> <自定义name>"));
        }
        proof {
            lemma_word(w@, 2);
            lemma_word(w@, 3);
        }
        match parse_i64(w[2].as_slice()) {
            Ok(v) => Ok((v, word_string(&w, 3))),
            Err(k) => Err(number_error(k)),
        }
    }

    /// The game center must exist and belong to another group.
    pub fn check(&self, msg: &Msg, rows: &Vec<GcInfo>) -> (r: Result<BindCheck, String>)
        ensures
            match r {
                Ok(BindCheck::Proceed) => rows@.len() == 1 && rows@[0].admin_gid != msg.group_id,
                Ok(BindCheck::Duplicate) => rows@.len() > 1,
                Err(e) => (rows@.len() == 0 && e@ == "未找到符合条件的机厅，请检查机厅id是否正确"@) || (rows@.len() == 1
                    && rows@[0].admin_gid == msg.group_id && e@ == "不能绑定该群聊创建的机厅"@),
            },
    {
        if rows.len() == 0 {
            return Err(String::from_str("未找到符合条件的机厅，请检查机厅id是否正确"));
        }
        if rows.len() > 1 {
            return Ok(BindCheck::Duplicate);
        }
        if rows[0].admin_gid == msg.group_id {
            return Err(String::from_str("不能绑定该群聊创建的机厅"));
        }
        Ok(BindCheck::Proceed)
    }

    /// The write: game center `gc_id` gets the new name in the group.
    pub fn write(&self, msg: &Msg, gc_id: i64, new_name: &String) -> (r: DbWrite)
        ensures
            r matches DbWrite::AddName { gc_id: id, gid, name } && id == gc_id && gid == msg.group_id
                && name@ == new_name@,
    {
        DbWrite::AddName { gc_id, gid: msg.group_id, name: new_name.clone() }
    }

    /// The reply after binding.
    pub fn done(&self, msg: &Msg, gc_id: i64, name: &String, desc: &String) -> (r: (Post, Option<Msg>))
        ensures
            r.0.endpoint@ == "/send_msg"@,
            post_text(r.0) == quoted(msg, bind_text(gc_id, name@, desc@)),
    {
        let mut v: Vec<char> = Vec::new();
        push_str(&mut v, "绑定机厅成功\nid: ");
        push_int(&mut v, gc_id);
        push_str(&mut v, "\nname: ");
        push_str(&mut v, name.as_str());
        push_str(&mut v, "\n机厅备注: ");
        push_str(&mut v, desc.as_str());
        assert(v@ =~= bind_text(gc_id, name@, desc@));
        quoted_reply(msg, string_of(v.as_slice())).send_msg(msg)
    }
}

/// Deletes a game center the group created.
pub struct GCMDelete {
    pub status: bool,
}

impl GCMDelete {
    /// Marks the handler ready.
    pub fn init(&mut self)
        ensures
            final(self).status,
    {
        self.status = true;
    }
}

impl FnHandler for GCMDelete {
    open spec fn spec_matches(&self, names: &GcName, msg: &Msg) -> bool {
        second_word_is(msg, "删除机厅"@)
    }

    open spec fn spec_status(&self) -> bool {
        true
    }

    open spec fn spec_name(&self) -> Seq<char> {
        "删除机厅"@
    }

    open spec fn spec_help(&self, helps: Seq<char>) -> Seq<char> {
        "删除已有的机厅，可以尝试使用名字或者id进行删除\n使用方法：\n/机厅管理 删除机厅 <name/id>"@
    }

    fn matches(&self, names: &GcName, msg: &Msg) -> (r: bool) {
        sub_matches(msg, "删除机厅")
    }

    fn status(&self) -> (r: bool) {
        true
    }

    fn help(&self, helps: &str) -> (r: String) {
        String::from_str("删除已有的机厅，可以尝试使用名字或者id进行删除\n使用方法：\n/机厅管理 删除机厅 <name/id>")
    }

    fn name(&self) -> (r: String) {
        String::from_str("删除机厅")
    }
}

/// The word naming the game center and its id reading (or 0), or why
/// `删除机厅` refuses.
pub open spec fn delete_args(msg: &Msg) -> Result<(Seq<char>, i64), Seq<char>> {
    match usable(msg, Seq::<i64>::empty()) {
        Err(e) => Err(e),
        Ok(()) => {
            let w = words(msg);
            if w.len() != 3 {
                Err("参数错误\n使用方法：\n/机厅管理 删除机厅 <name/id>"@)
            } else {
                Ok((w[2], id_or_zero(w[2])))
            }
        },
    }
}

/// What deleting leads to.
pub enum DeleteStep {
    /// Several candidates: the listing to forward, nothing deleted.
    List(Post),
    /// Delete game center `gc_id`, then forward the reply.
    Delete(i64, Post),
}

/// The listing of the candidates.
pub open spec fn delete_list_text(rows: Seq<GcInfo>) -> Seq<char> {
    "找到多个可删除项:"@ + entries_text(rows, "\nID:"@, "\nname:"@, "\n备注:\n"@)
}

/// The text after deleting.
pub open spec fn deleted_text(word: Seq<char>, id: i64) -> Seq<char> {
    if id == 0 {
        "已删除名字为: <"@ + word + "> 的机厅"@
    } else {
        "已删除id为: <"@ + word + "> 的机厅"@
    }
}

impl GCMDelete {
    /// The arguments, or the refusal.
    pub fn args(&self, msg: &Msg) -> (r: Result<(String, i64), String>)
        ensures
            match r {
                Ok((w, id)) => delete_args(msg) == Ok::<(Seq<char>, i64), Seq<char>>((w@, id)),
                Err(e) => delete_args(msg) == Err::<(Seq<char>, i64), Seq<char>>(e@),
            },
    {
        let none: Vec<i64> = Vec::new();
        match useable_judgment(msg, &none) {
            Err(e) => {
                return Err(e);
            },
            Ok(()) => {},
        }
        assert(none@ =~= Seq::<i64>::empty());
        let w = words_of(msg);
        if w.len() != 3 {
            return Err(String::from_str("参数错误\n使用方法：\n/机厅管理 删除机厅 <name/id>"));
        }
        proof {
            lemma_word(w@, 2);
        }
        Ok((word_string(&w, 2), parse_or_zero(w[2].as_slice())))
    }

    /// The write once a game center is chosen: it and all its names go.
    pub fn write(&self, gc_id: i64) -> (r: DbWrite)
        ensures
            r == (DbWrite::RemoveCenter { gc_id }),
    {
        DbWrite::RemoveCenter { gc_id }
    }

    /// Lists several candidates; deletes the only one if the group created
    /// it; refuses otherwise.
    pub fn decide(&self, msg: &Msg, rows: &Vec<GcInfo>, word: &String, id: i64) -> (r: Result<DeleteStep, String>)
        requires
            listable(rows@),
        ensures
            match r {
                Ok(DeleteStep::List(p)) => rows@.len() > 1 && p.endpoint@ == "/send_forward_msg"@
                    && post_text(p) == delete_list_text(rows@),
                Ok(DeleteStep::Delete(g, p)) => rows@.len() == 1 && rows@[0].admin_gid == msg.group_id
                    && g == rows@[0].gc_id && p.endpoint@ == "/send_forward_msg"@ && post_text(p) == deleted_text(word@, id),
                Err(e) => (rows@.len() == 0 && e@ == "未找到可以删除的机厅"@) || (rows@.len() == 1
                    && rows@[0].admin_gid != msg.group_id && e@ == "非可管理群聊，无法进行删除操作"@),
            },
    {
        if rows.len() > 1 {
            let mut v: Vec<char> = Vec::new();
            push_str(&mut v, "找到多个可删除项:");
            push_entries(&mut v, rows, "\nID:", "\nname:", "\n备注:\n");
            assert(v@ =~= delete_list_text(rows@));
            return Ok(DeleteStep::List(plain_reply(string_of(v.as_slice())).send_forward_msg(msg)));
        }
        if rows.len() == 1 {
            if rows[0].admin_gid != msg.group_id {
                return Err(String::from_str("非可管理群聊，无法进行删除操作"));
            }
            let mut v: Vec<char> = Vec::new();
            if id == 0 {
                push_str(&mut v, "已删除名字为: <");
            } else {
                push_str(&mut v, "已删除id为: <");
            }
            push_str(&mut v, word.as_str());
            push_str(&mut v, "> 的机厅");
            assert(v@ =~= deleted_text(word@, id));
            return Ok(DeleteStep::Delete(rows[0].gc_id, plain_reply(string_of(v.as_slice())).send_forward_msg(msg)));
        }
        Err(String::from_str("未找到可以删除的机厅"))
    }
}

/// Renames one name of a game center.
pub struct GCMRename {
    pub status: bool,
}

impl GCMRename {
    /// Marks the handler ready.
    pub fn init(&mut self)
        ensures
            final(self).status,
    {
        self.status = true;
    }
}

impl FnHandler for GCMRename {
    open spec fn spec_matches(&self, names: &GcName, msg: &Msg) -> bool {
        second_word_is(msg, "重命名"@)
    }

    open spec fn spec_status(&self) -> bool {
        self.status
    }

    open spec fn spec_name(&self) -> Seq<char> {
        "重命名"@
    }

    open spec fn spec_help(&self, helps: Seq<char>) -> Seq<char> {
        "重命名机厅（可重命名别名，修改一个名字不影响别名使用）\n例如，机厅a有名字a(本名也算),b,c三个名字,机厅id为3,修改名字a为d之后，id为3的机厅拥有的名字就为b,c,d\n使用方法:\n/机厅管理 重命名  <origin_name> <new_name> "@
    }

    fn matches(&self, names: &GcName, msg: &Msg) -> (r: bool) {
        sub_matches(msg, "重命名")
    }

    fn status(&self) -> (r: bool) {
        self.status
    }

    fn help(&self, helps: &str) -> (r: String) {
        String::from_str("重命名机厅（可重命名别名，修改一个名字不影响别名使用）\n例如，机厅a有名字a(本名也算),b,c三个名字,机厅id为3,修改名字a为d之后，id为3的机厅拥有的名字就为b,c,d\n使用方法:\n/机厅管理 重命名  <origin_name> <new_name> ")
    }

    fn name(&self) -> (r: String) {
        String::from_str("重命名")
    }
}

/// The old name, the id reading (or 0) and the new name of `重命名`, or
/// why it refuses.
pub open spec fn rename_args(msg: &Msg) -> Result<(Seq<char>, i64, Seq<char>), Seq<char>> {
    match usable(msg, Seq::<i64>::empty()) {
        Err(e) => Err(e),
        Ok(()) => {
            let w = words(msg);
            if w.len() == 4 {
                Ok((w[2], 0i64, w[3]))
            } else if w.len() == 5 {
                Ok((w[3], id_or_zero(w[2]), w[4]))
            } else {
                Err("参数错误\n使用方法:\n/机厅管理 重命名 <机厅id(可选)> <origin_name> <new_name>"@)
            }
        },
    }
}

/// The text after renaming.
pub open spec fn rename_text(gc_id: i64, old_name: Seq<char>, new_name: Seq<char>) -> Seq<char> {
    "成功修改机厅名字\nid:"@ + int_text(gc_id as int) + "\nold_name:"@ + old_name + "\nnew_name:"@ + new_name
}

impl GCMRename {
    /// The arguments, or the refusal.
    pub fn args(&self, msg: &Msg) -> (r: Result<(String, i64, String), String>)
        ensures
            match r {
                Ok((o, id, n)) => rename_args(msg) == Ok::<(Seq<char>, i64, Seq<char>), Seq<char>>((o@, id, n@)),
                Err(e) => rename_args(msg) == Err::<(Seq<char>, i64, Seq<char>), Seq<char>>(e@),
            },
    {
        let none: Vec<i64> = Vec::new();
        match useable_judgment(msg, &none) {
            Err(e) => {
                return Err(e);
            },
            Ok(()) => {},
        }
        assert(none@ =~= Seq::<i64>::empty());
        let w = words_of(msg);
        if w.len() == 4 {
            proof {
                lemma_word(w@, 2);
                lemma_word(w@, 3);
            }
            Ok((word_string(&w, 2), 0, word_string(&w, 3)))
        } else if w.len() == 5 {
            proof {
                lemma_word(w@, 2);
                lemma_word(w@, 3);
                lemma_word(w@, 4);
            }
            Ok((word_string(&w, 3), parse_or_zero(w[2].as_slice()), word_string(&w, 4)))
        } else {
            Err(String::from_str("参数错误\n使用方法:\n/机厅管理 重命名 <机厅id(可选)> <origin_name> <new_name>"))
        }
    }

    /// Exactly one game center must match.
    pub fn lookup(&self, rows: &Vec<GcInfo>) -> (r: Result<(), String>)
        requires
            listable(rows@),
        ensures
            match r {
                Ok(()) => rows@.len() == 1,
                Err(e) => pick_spec(rows@, "未找到符合条件的机厅"@, "查找到多个相同名称：\n"@, "\nid: "@, "\nname: "@, "\n备注: "@,
                    "\n\n请使用机厅id进行"@) == Err::<(), Seq<char>>(e@),
            },
    {
        pick_one(rows, "未找到符合条件的机厅", "查找到多个相同名称：\n", "\nid: ", "\nname: ", "\n备注: ", "\n\n请使用机厅id进行")
    }

    /// The write: the names found of the game center, in the group, become
    /// the new name.
    pub fn write(&self, msg: &Msg, row: &GcInfo, new_name: &String) -> (r: DbWrite)
        ensures
            r matches DbWrite::Rename { gc_id, gid, old, new } && gc_id == row.gc_id && gid == msg.group_id
                && new@ == new_name@ && match (row.name, old) {
                (Some(a), Some(b)) => a@ == b@,
                (None, None) => true,
                _ => false,
            },
    {
        DbWrite::Rename { gc_id: row.gc_id, gid: msg.group_id, old: copy_opt(&row.name), new: new_name.clone() }
    }

    /// The reply after renaming, forwarded.
    pub fn done(&self, msg: &Msg, gc_id: i64, old_name: &String, new_name: &String) -> (r: Post)
        ensures
            r.endpoint@ == "/send_forward_msg"@,
            post_text(r) == rename_text(gc_id, old_name@, new_name@),
    {
        let mut v: Vec<char> = Vec::new();
        push_str(&mut v, "成功修改机厅名字\nid:");
        push_int(&mut v, gc_id);
        push_str(&mut v, "\nold_name:");
        push_str(&mut v, old_name.as_str());
        push_str(&mut v, "\nnew_name:");
        push_str(&mut v, new_name.as_str());
        assert(v@ =~= rename_text(gc_id, old_name@, new_name@));
        plain_reply(string_of(v.as_slice())).send_forward_msg(msg)
    }
}

/// Finds game centers by name, across groups.
pub struct GCMSearch {
    pub status: bool,
}

impl GCMSearch {
    /// Marks the handler ready.
    pub fn init(&mut self)
        ensures
            final(self).status,
    {
        self.status = true;
    }
}

impl FnHandler for GCMSearch {
    open spec fn spec_matches(&self, names: &GcName, msg: &Msg) -> bool {
        second_word_is(msg, "搜索机厅"@)
    }

    open spec fn spec_status(&self) -> bool {
        self.status
    }

    open spec fn spec_name(&self) -> Seq<char> {
        "搜索机厅"@
    }

    open spec fn spec_help(&self, helps: Seq<char>) -> Seq<char> {
        "通过搜索机厅名字获取机厅id\n使用方法：\n/机厅管理 搜索机厅 <机厅名字(别名)>"@
    }

    fn matches(&self, names: &GcName, msg: &Msg) -> (r: bool) {
        sub_matches(msg, "搜索机厅")
    }

    fn status(&self) -> (r: bool) {
        self.status
    }

    fn help(&self, helps: &str) -> (r: String) {
        String::from_str("通过搜索机厅名字获取机厅id\n使用方法：\n/机厅管理 搜索机厅 <机厅名字(别名)>")
    }

    fn name(&self) -> (r: String) {
        String::from_str("搜索机厅")
    }
}

/// The name `搜索机厅` searches for, or why it refuses.
pub open spec fn search_args(msg: &Msg) -> Result<Seq<char>, Seq<char>> {
    let w = words(msg);
    if w.len() != 3 {
        Err("参数错误\n使用方法：\n/机厅管理 搜索机厅 <机厅名字(别名)>"@)
    } else {
        Ok(w[2])
    }
}

/// The search result listing.
pub open spec fn search_text(rows: Seq<GcInfo>) -> Seq<char> {
    "查询列表"@ + entries_text(rows, "\n\nid："@, "\nname："@, "\n备注："@)
}

impl GCMSearch {
    /// The name searched for, or the refusal.
    pub fn args(&self, msg: &Msg) -> (r: Result<String, String>)
        ensures
            match r {
                Ok(n) => search_args(msg) == Ok::<Seq<char>, Seq<char>>(n@),
                Err(e) => search_args(msg) == Err::<Seq<char>, Seq<char>>(e@),
            },
    {
        let w = words_of(msg);
        if w.len() != 3 {
            return Err(String::from_str("参数错误\n使用方法：\n/机厅管理 搜索机厅 <机厅名字(别名)>"));
        }
        proof {
            lemma_word(w@, 2);
        }
        Ok(word_string(&w, 2))
    }

    /// The listing of what was found.
    pub fn done(&self, msg: &Msg, rows: &Vec<GcInfo>) -> (r: (Post, Option<Msg>))
        requires
            all_named(rows@),
        ensures
            r.0.endpoint@ == "/send_msg"@,
            post_text(r.0) == quoted(msg, search_text(rows@)),
    {
        let mut v: Vec<char> = Vec::new();
        push_str(&mut v, "查询列表");
        push_entries(&mut v, rows, "\n\nid：", "\nname：", "\n备注：");
        assert(v@ =~= search_text(rows@));
        quoted_reply(msg, string_of(v.as_slice())).send_msg(msg)
    }
}

/// One sub-command of the game-center manager.
pub enum GcmSub {
    Add(GCMAdd),
    Delete(GCMDelete),
    Rename(GCMRename),
    AddName(GCMAddName),
    Bind(GCMBind),
    Unbind(GCMUnbind),
    DeleteName(GCMDeleteName),
    Search(GCMSearch),
    ReDescription(GCMReDescription),
    QueryGc(GCMQueryGc),
}

impl FnHandler for GcmSub {
    open spec fn spec_matches(&self, names: &GcName, msg: &Msg) -> bool {
        match self {
            GcmSub::Add(h) => h.spec_matches(names, msg),
            GcmSub::Delete(h) => h.spec_matches(names, msg),
            GcmSub::Rename(h) => h.spec_matches(names, msg),
            GcmSub::AddName(h) => h.spec_matches(names, msg),
            GcmSub::Bind(h) => h.spec_matches(names, msg),
            GcmSub::Unbind(h) => h.spec_matches(names, msg),
            GcmSub::DeleteName(h) => h.spec_matches(names, msg),
            GcmSub::Search(h) => h.spec_matches(names, msg),
            GcmSub::ReDescription(h) => h.spec_matches(names, msg),
            GcmSub::QueryGc(h) => h.spec_matches(names, msg),
        }
    }

    open spec fn spec_status(&self) -> bool {
        match self {
            GcmSub::Add(h) => h.spec_status(),
            GcmSub::Delete(h) => h.spec_status(),
            GcmSub::Rename(h) => h.spec_status(),
            GcmSub::AddName(h) => h.spec_status(),
            GcmSub::Bind(h) => h.spec_status(),
            GcmSub::Unbind(h) => h.spec_status(),
            GcmSub::DeleteName(h) => h.spec_status(),
            GcmSub::Search(h) => h.spec_status(),
            GcmSub::ReDescription(h) => h.spec_status(),
            GcmSub::QueryGc(h) => h.spec_status(),
        }
    }

    open spec fn spec_name(&self) -> Seq<char> {
        match self {
            GcmSub::Add(h) => h.spec_name(),
            GcmSub::Delete(h) => h.spec_name(),
            GcmSub::Rename(h) => h.spec_name(),
            GcmSub::AddName(h) => h.spec_name(),
            GcmSub::Bind(h) => h.spec_name(),
            GcmSub::Unbind(h) => h.spec_name(),
            GcmSub::DeleteName(h) => h.spec_name(),
            GcmSub::Search(h) => h.spec_name(),
            GcmSub::ReDescription(h) => h.spec_name(),
            GcmSub::QueryGc(h) => h.spec_name(),
        }
    }

    open spec fn spec_help(&self, helps: Seq<char>) -> Seq<char> {
        match self {
            GcmSub::Add(h) => h.spec_help(helps),
            GcmSub::Delete(h) => h.spec_help(helps),
            GcmSub::Rename(h) => h.spec_help(helps),
            GcmSub::AddName(h) => h.spec_help(helps),
            GcmSub::Bind(h) => h.spec_help(helps),
            GcmSub::Unbind(h) => h.spec_help(helps),
            GcmSub::DeleteName(h) => h.spec_help(helps),
            GcmSub::Search(h) => h.spec_help(helps),
            GcmSub::ReDescription(h) => h.spec_help(helps),
            GcmSub::QueryGc(h) => h.spec_help(helps),
        }
    }

    fn matches(&self, names: &GcName, msg: &Msg) -> (r: bool) {
        match self {
            GcmSub::Add(h) => h.matches(names, msg),
            GcmSub::Delete(h) => h.matches(names, msg),
            GcmSub::Rename(h) => h.matches(names, msg),
            GcmSub::AddName(h) => h.matches(names, msg),
            GcmSub::Bind(h) => h.matches(names, msg),
            GcmSub::Unbind(h) => h.matches(names, msg),
            GcmSub::DeleteName(h) => h.matches(names, msg),
            GcmSub::Search(h) => h.matches(names, msg),
            GcmSub::ReDescription(h) => h.matches(names, msg),
            GcmSub::QueryGc(h) => h.matches(names, msg),
        }
    }

    fn status(&self) -> (r: bool) {
        match self {
            GcmSub::Add(h) => h.status(),
            GcmSub::Delete(h) => h.status(),
            GcmSub::Rename(h) => h.status(),
            GcmSub::AddName(h) => h.status(),
            GcmSub::Bind(h) => h.status(),
            GcmSub::Unbind(h) => h.status(),
            GcmSub::DeleteName(h) => h.status(),
            GcmSub::Search(h) => h.status(),
            GcmSub::ReDescription(h) => h.status(),
            GcmSub::QueryGc(h) => h.status(),
        }
    }

    fn help(&self, helps: &str) -> (r: String) {
        match self {
            GcmSub::Add(h) => h.help(helps),
            GcmSub::Delete(h) => h.help(helps),
            GcmSub::Rename(h) => h.help(helps),
            GcmSub::AddName(h) => h.help(helps),
            GcmSub::Bind(h) => h.help(helps),
            GcmSub::Unbind(h) => h.help(helps),
            GcmSub::DeleteName(h) => h.help(helps),
            GcmSub::Search(h) => h.help(helps),
            GcmSub::ReDescription(h) => h.help(helps),
            GcmSub::QueryGc(h) => h.help(helps),
        }
    }

    fn name(&self) -> (r: String) {
        match self {
            GcmSub::Add(h) => h.name(),
            GcmSub::Delete(h) => h.name(),
            GcmSub::Rename(h) => h.name(),
            GcmSub::AddName(h) => h.name(),
            GcmSub::Bind(h) => h.name(),
            GcmSub::Unbind(h) => h.name(),
            GcmSub::DeleteName(h) => h.name(),
            GcmSub::Search(h) => h.name(),
            GcmSub::ReDescription(h) => h.name(),
            GcmSub::QueryGc(h) => h.name(),
        }
    }
}

impl GcmSub {
    /// Marks the sub-command ready.
    pub fn init(&mut self)
        ensures
            *final(self) == gcm_ready(*old(self)),
            final(self).spec_status(),
    {
        match self {
            GcmSub::Add(h) => h.init(),
            GcmSub::Delete(h) => h.init(),
            GcmSub::Rename(h) => h.init(),
            GcmSub::AddName(h) => h.init(),
            GcmSub::Bind(h) => h.init(),
            GcmSub::Unbind(h) => h.init(),
            GcmSub::DeleteName(h) => h.init(),
            GcmSub::Search(h) => h.init(),
            GcmSub::ReDescription(h) => h.init(),
            GcmSub::QueryGc(h) => h.init(),
        }
    }
}

/// The same sub-command, marked ready.
pub open spec fn gcm_ready(s: GcmSub) -> GcmSub {
    match s {
        GcmSub::Add(_) => GcmSub::Add(GCMAdd { status: true }),
        GcmSub::Delete(_) => GcmSub::Delete(GCMDelete { status: true }),
        GcmSub::Rename(_) => GcmSub::Rename(GCMRename { status: true }),
        GcmSub::AddName(_) => GcmSub::AddName(GCMAddName { status: true }),
        GcmSub::Bind(_) => GcmSub::Bind(GCMBind { status: true }),
        GcmSub::Unbind(_) => GcmSub::Unbind(GCMUnbind { status: true }),
        GcmSub::DeleteName(_) => GcmSub::DeleteName(GCMDeleteName { status: true }),
        GcmSub::Search(_) => GcmSub::Search(GCMSearch { status: true }),
        GcmSub::ReDescription(_) => GcmSub::ReDescription(GCMReDescription { status: true }),
        GcmSub::QueryGc(_) => GcmSub::QueryGc(GCMQueryGc { status: true }),
    }
}

/// The game-center manager: `/机厅管理 <sub-command> ...`.
pub struct GameCenterManager {
    pub enable: bool,
    /// Set once the database is ready.
    pub status: bool,
    pub subfunction: Vec<GcmSub>,
}

impl GameCenterManager {
    /// The sub-command that takes `msg`, or the refusal.
    pub fn process(&self, names: &GcName, msg: &Msg) -> (r: Result<usize, String>)
        ensures
            match r {
                Ok(i) => crate::handler::first_taker(self.subfunction@, names, msg, i as int),
                Err(e) => e@ == crate::handler::no_taker_text() && forall|j: int|
                    0 <= j < self.subfunction@.len() ==> !((#[trigger] self.subfunction@[j]).spec_status()
                        && self.subfunction@[j].spec_matches(names, msg)),
            },
    {
        crate::handler::sub_match_process(msg, names, &self.subfunction)
    }

    /// Marks the manager ready (the database is up) and its sub-commands.
    pub fn init(&mut self)
        ensures
            final(self).status,
            final(self).enable == old(self).enable,
            final(self).subfunction@.len() == old(self).subfunction@.len(),
            forall|i: int|
                0 <= i < final(self).subfunction@.len() ==> #[trigger] final(self).subfunction@[i] == gcm_ready(
                    old(self).subfunction@[i],
                ),
            forall|i: int| 0 <= i < final(self).subfunction@.len() ==> (#[trigger] final(self).subfunction@[i]).spec_status(),
    {
        self.status = true;
        let mut subs: Vec<GcmSub> = Vec::new();
        std::mem::swap(&mut subs, &mut self.subfunction);
        let ghost orig = subs@;
        let mut done: Vec<GcmSub> = Vec::new();
        while subs.len() > 0
            invariant
                done@.len() + subs@.len() == orig.len(),
                subs@ == orig.skip(done@.len() as int),
                forall|i: int| 0 <= i < done@.len() ==> #[trigger] done@[i] == gcm_ready(orig[i]),
                forall|i: int| 0 <= i < done@.len() ==> (#[trigger] done@[i]).spec_status(),
            decreases subs@.len(),
        {
            let mut h = subs.remove(0);
            h.init();
            done.push(h);
            assert(subs@ =~= orig.skip(done@.len() as int));
        }
        self.subfunction = done;
    }
}

impl FnHandler for GameCenterManager {
    open spec fn spec_matches(&self, names: &GcName, msg: &Msg) -> bool {
        has_prefix(msg.raw_message@, "/机厅管理"@)
    }

    open spec fn spec_status(&self) -> bool {
        self.status && self.enable
    }

    open spec fn spec_name(&self) -> Seq<char> {
        "机厅管理"@
    }

    open spec fn spec_help(&self, helps: Seq<char>) -> Seq<char> {
        crate::handler::sub_help_text(helps, self.subfunction@)
    }

    fn matches(&self, names: &GcName, msg: &Msg) -> (r: bool) {
        let raw = chars_of(msg.raw_message.as_str());
        crate::text::starts_with(raw.as_slice(), "/机厅管理")
    }

    fn status(&self) -> (r: bool) {
        self.status && self.enable
    }

    fn help(&self, helps: &str) -> (r: String) {
        crate::handler::sub_help(helps, &self.subfunction)
    }

    fn name(&self) -> (r: String) {
        String::from_str("机厅管理")
    }
}

/// The manager's sub-commands as registered, in the order they are tried,
/// each with its ready flag unset.
pub open spec fn gcm_subs() -> Seq<GcmSub> {
    seq![
        GcmSub::Add(GCMAdd { status: false }),
        GcmSub::Delete(GCMDelete { status: false }),
        GcmSub::Rename(GCMRename { status: false }),
        GcmSub::AddName(GCMAddName { status: false }),
        GcmSub::Bind(GCMBind { status: false }),
        GcmSub::Unbind(GCMUnbind { status: false }),
        GcmSub::DeleteName(GCMDeleteName { status: false }),
        GcmSub::Search(GCMSearch { status: false }),
        GcmSub::ReDescription(GCMReDescription { status: false }),
        GcmSub::QueryGc(GCMQueryGc { status: false }),
    ]
}

/// The manager with its sub-commands, in the order they are tried.
pub fn game_center_manager() -> (r: GameCenterManager)
    ensures
        r.enable,
        !r.status,
        r.subfunction@.len() == 10,
        r.subfunction@[0] is Add,
        r.subfunction@[1] is Delete,
        r.subfunction@[2] is Rename,
        r.subfunction@[3] is AddName,
        r.subfunction@[4] is Bind,
        r.subfunction@[5] is Unbind,
        r.subfunction@[6] is DeleteName,
        r.subfunction@[7] is Search,
        r.subfunction@[8] is ReDescription,
        r.subfunction@[9] is QueryGc,
        r.subfunction@ == gcm_subs(),
{
    let mut subs: Vec<GcmSub> = Vec::new();
    subs.push(GcmSub::Add(GCMAdd { status: false }));
    subs.push(GcmSub::Delete(GCMDelete { status: false }));
    subs.push(GcmSub::Rename(GCMRename { status: false }));
    subs.push(GcmSub::AddName(GCMAddName { status: false }));
    subs.push(GcmSub::Bind(GCMBind { status: false }));
    subs.push(GcmSub::Unbind(GCMUnbind { status: false }));
    subs.push(GcmSub::DeleteName(GCMDeleteName { status: false }));
    subs.push(GcmSub::Search(GCMSearch { status: false }));
    subs.push(GcmSub::ReDescription(GCMReDescription { status: false }));
    subs.push(GcmSub::QueryGc(GCMQueryGc { status: false }));
    assert(subs@ =~= gcm_subs());
    GameCenterManager { enable: true, status: false, subfunction: subs }
}

/// Who may use the management commands: nobody outside a group chat; in
/// a group, everybody whose role is not `member` (the owner and the
/// admins), and a plain member only when listed as a super admin.
pub proof fn law_only_plain_members_need_super_admin(msg: &Msg, super_admin: Seq<i64>)
    ensures
        msg.message_type@ != "group"@ ==> usable(msg, super_admin) == Err::<(), Seq<char>>("请在群聊内使用"@),
        msg.message_type@ == "group"@ && msg.sender.role@ != "member"@ ==> usable(msg, super_admin) is Ok,
        msg.message_type@ == "group"@ && msg.sender.role@ == "member"@ ==> (usable(msg, super_admin) is Ok
            <==> exists|i: int| 0 <= i < super_admin.len() && super_admin[i] == msg.sender.user_id),
        msg.message_type@ == "group"@ && msg.sender.role@ == "member"@ && (forall|i: int|
            0 <= i < super_admin.len() ==> super_admin[i] != msg.sender.user_id) ==> usable(msg, super_admin)
            == Err::<(), Seq<char>>("非管理员无法操作"@),
{
}

} // verus!
