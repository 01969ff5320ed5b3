//! The repeater: when a group sends the same message three times in a
//! row, the bot sends it once more; when someone repeats the bot, it asks
//! them not to.

use crate::gc_name::GcName;
use crate::handler::FnHandler;
use crate::msg::Msg;
use dashmap::DashMap;
use vstd::prelude::*;
use vstd::string::*;

verus! {

/// The last message of a group, who sent it, and how many times in a row
/// it has been sent.
pub struct PlusOneData {
    pub last_message: String,
    pub user_id: i64,
    pub i: i16,
}

impl View for PlusOneData {
    type V = (Seq<char>, i64, i16);

    open spec fn view(&self) -> (Seq<char>, i64, i16) {
        (self.last_message@, self.user_id, self.i)
    }
}

/// The repeater's records, one per group.
pub struct PlusOneMap {
    pub map: DashMap<i64, PlusOneData>,
}

/// The records that a repeater map holds, by group.
pub uninterp spec fn plusone_records(m: DashMap<i64, PlusOneData>) -> Map<i64, (Seq<char>, i64, i16)>;

/// A map without records.
pub open spec fn no_records() -> Map<i64, (Seq<char>, i64, i16)> {
    Map::empty()
}

/// `DashMap::new`: no records.
#[verifier::external_body]
fn records_new() -> (r: DashMap<i64, PlusOneData>)
    ensures
        plusone_records(r) == no_records(),
{
    DashMap::new()
}

/// `DashMap::get`: a copy of the group's record, if there is one.
#[verifier::external_body]
fn records_get(m: &DashMap<i64, PlusOneData>, k: i64) -> (r: Option<PlusOneData>)
    ensures
        r is Some <==> plusone_records(*m).contains_key(k),
        r matches Some(d) ==> d@ == plusone_records(*m)[k],
{
    match m.get(&k) {
        Some(entry) => Some(PlusOneData {
            last_message: entry.value().last_message.clone(),
            user_id: entry.value().user_id,
            i: entry.value().i,
        }),
        None => None,
    }
}

/// `DashMap::insert`: stores the group's record, replacing any other.
#[verifier::external_body]
fn records_insert(m: &mut DashMap<i64, PlusOneData>, k: i64, v: PlusOneData)
    ensures
        plusone_records(*final(m)) == plusone_records(*old(m)).insert(k, v@),
{
    m.insert(k, v);
}

impl PlusOneMap {
    /// A map without records.
    pub fn new() -> (r: PlusOneMap)
        ensures
            plusone_records(r.map) == no_records(),
    {
        PlusOneMap { map: records_new() }
    }

    /// Module name.
    pub fn name(&self) -> (r: String)
        ensures
            r@ == "加一"@,
    {
        String::from_str("加一")
    }
}

/// What the repeater does after a message.
pub enum PlusOneAction {
    /// Nothing to send.
    Nothing,
    /// Send the message once more.
    Echo,
    /// Someone repeated the bot: say so twice.
    BreakEcho,
}

/// The two replies sent when someone repeats the bot.
pub open spec fn break_echo_texts() -> (Seq<char>, Seq<char>) {
    ("不要复读人家喵"@, "打断复读喵"@)
}

/// The step cannot overflow the counter: a record that would be counted up
/// is below `i16::MAX`.
pub open spec fn step_defined(
    prev: Option<(Seq<char>, i64, i16)>,
    raw: Seq<char>,
    user_id: i64,
    self_id: i64,
) -> bool {
    match prev {
        None => true,
        Some(d) => d.0 != raw || (d.1 == self_id && d.2 == 1 && user_id != self_id) || d.2 < i16::MAX,
    }
}

/// The group's new record (`None` when it is left as it was) and the action
/// after message `raw` from `user_id`, given the previous record.
pub open spec fn plusone_step(
    prev: Option<(Seq<char>, i64, i16)>,
    raw: Seq<char>,
    user_id: i64,
    self_id: i64,
) -> (Option<(Seq<char>, i64, i16)>, PlusOneAction) {
    match prev {
        None => (Some((raw, user_id, 1i16)), PlusOneAction::Nothing),
        Some(d) => {
            if d.0 == raw {
                if d.1 == self_id && d.2 == 1 && user_id != self_id {
                    (None, PlusOneAction::BreakEcho)
                } else {
                    (
                        Some((raw, user_id, (d.2 + 1) as i16)),
                        if d.2 == 2 { PlusOneAction::Echo } else { PlusOneAction::Nothing },
                    )
                }
            } else {
                (Some((raw, user_id, 1i16)), PlusOneAction::Nothing)
            }
        },
    }
}

/// The record that the map holds for a group, if any.
pub open spec fn record_of(m: Map<i64, (Seq<char>, i64, i16)>, gid: i64) -> Option<(Seq<char>, i64, i16)> {
    if m.contains_key(gid) { Some(m[gid]) } else { None }
}

/// The map after a step.
pub open spec fn records_after(m: Map<i64, (Seq<char>, i64, i16)>, gid: i64, new: Option<(Seq<char>, i64, i16)>) -> Map<i64, (Seq<char>, i64, i16)> {
    match new {
        Some(d) => m.insert(gid, d),
        None => m,
    }
}

/// The repeater handler.
pub struct PlusOne {
    pub status: bool,
}

impl PlusOne {
    /// A handler that is not yet ready.
    pub fn new() -> (r: PlusOne)
        ensures
            !r.status,
    {
        PlusOne { status: false }
    }

    /// Group messages only.
    pub fn matches(&self, msg: &Msg) -> (r: bool)
        ensures
            r == (msg.message_type@ == "group"@),
    {
        crate::text::chars_eq_str(crate::text::chars_of(msg.message_type.as_str()).as_slice(), "group")
    }

    /// Updates the group's record for `msg` and tells what to send.
    pub fn process(&self, data: &mut PlusOneMap, msg: &Msg) -> (r: PlusOneAction)
        requires
            step_defined(
                record_of(plusone_records(old(data).map), msg.group_id),
                msg.raw_message@,
                msg.user_id,
                msg.self_id,
            ),
        ensures
            ({
                let (new, act) = plusone_step(
                    record_of(plusone_records(old(data).map), msg.group_id),
                    msg.raw_message@,
                    msg.user_id,
                    msg.self_id,
                );
                &&& r == act
                &&& plusone_records(final(data).map) == records_after(plusone_records(old(data).map), msg.group_id, new)
            }),
    {
        let raw_message = msg.raw_message.clone();
        let user_id = msg.user_id;
        let self_id = msg.self_id;
        let prev = match records_get(&data.map, msg.group_id) {
            None => {
                records_insert(&mut data.map, msg.group_id, PlusOneData { last_message: raw_message, user_id, i: 1 });
                return PlusOneAction::Nothing;
            },
            Some(d) => d,
        };
        let i = prev.i;
        if prev.last_message == raw_message {
            if prev.user_id == self_id && i == 1 && user_id != self_id {
                return PlusOneAction::BreakEcho;
            }
            records_insert(&mut data.map, msg.group_id, PlusOneData { last_message: raw_message, user_id, i: i + 1 });
        } else {
            records_insert(&mut data.map, msg.group_id, PlusOneData { last_message: raw_message, user_id, i: 1 });
            return PlusOneAction::Nothing;
        }
        if i == 2 {
            return PlusOneAction::Echo;
        }
        PlusOneAction::Nothing
    }

    /// Whether `step_defined` holds for `msg`.
    pub fn can_process(&self, data: &PlusOneMap, msg: &Msg) -> (r: bool)
        ensures
            r == step_defined(
                record_of(plusone_records(data.map), msg.group_id),
                msg.raw_message@,
                msg.user_id,
                msg.self_id,
            ),
    {
        match records_get(&data.map, msg.group_id) {
            None => true,
            Some(d) => d.last_message != msg.raw_message
                || (d.user_id == msg.self_id && d.i == 1 && msg.user_id != msg.self_id) || d.i < i16::MAX,
        }
    }

    /// The texts sent when someone repeats the bot.
    pub fn break_echo_replies(&self) -> (r: (String, String))
        ensures
            (r.0@, r.1@) == break_echo_texts(),
    {
        (String::from_str("不要复读人家喵"), String::from_str("打断复读喵"))
    }

    /// Marks the handler ready.
    pub fn init(&mut self)
        ensures
            final(self).status,
    {
        self.status = true;
    }

    /// Always enabled.
    pub fn status(&self) -> (r: bool)
        ensures
            r,
    {
        true
    }

    /// Help text.
    pub fn help(&self, _helps: &str) -> (r: String)
        ensures
            r@ == "群聊自动加一，仅在群聊开启"@,
    {
        String::from_str("群聊自动加一，仅在群聊开启")
    }

    /// Display name.
    pub fn name(&self) -> (r: String)
        ensures
            r@ == "加一"@,
    {
        String::from_str("加一")
    }
}

impl FnHandler for PlusOne {
    open spec fn spec_matches(&self, names: &GcName, msg: &Msg) -> bool {
        msg.message_type@ == "group"@
    }

    open spec fn spec_status(&self) -> bool {
        true
    }

    open spec fn spec_name(&self) -> Seq<char> {
        "加一"@
    }

    open spec fn spec_help(&self, helps: Seq<char>) -> Seq<char> {
        "群聊自动加一，仅在群聊开启"@
    }

    fn matches(&self, names: &GcName, msg: &Msg) -> (r: bool) {
        PlusOne::matches(self, msg)
    }

    fn status(&self) -> (r: bool) {
        PlusOne::status(self)
    }

    fn help(&self, helps: &str) -> (r: String) {
        PlusOne::help(self, helps)
    }

    fn name(&self) -> (r: String) {
        PlusOne::name(self)
    }
}

/// Three identical messages in a row from people other than the bot make
/// the bot repeat the message on the third, starting from a group with no
/// record.
pub proof fn law_third_repeat_is_echoed(raw: Seq<char>, u1: i64, u2: i64, u3: i64, self_id: i64)
    requires
        u1 != self_id,
    ensures
        ({
            let (s1, a1) = plusone_step(None, raw, u1, self_id);
            let (s2, a2) = plusone_step(s1, raw, u2, self_id);
            let (s3, a3) = plusone_step(s2, raw, u3, self_id);
            &&& a1 is Nothing
            &&& a2 is Nothing
            &&& a3 is Echo
            &&& s3 == Some((raw, u3, 3i16))
        }),
{
}

/// A message that differs from the last one starts the count again.
pub proof fn law_new_message_restarts_count(
    prev: Option<(Seq<char>, i64, i16)>,
    raw: Seq<char>,
    user_id: i64,
    self_id: i64,
)
    requires
        prev matches Some(d) ==> d.0 != raw,
    ensures
        plusone_step(prev, raw, user_id, self_id) == (
            Some((raw, user_id, 1i16)),
            PlusOneAction::Nothing,
        ),
{
}

/// Someone who repeats a message the bot has just sent gets the two
/// "don't repeat me" replies, and the record stays.
pub proof fn law_repeating_the_bot_is_refused(raw: Seq<char>, user_id: i64, self_id: i64)
    requires
        user_id != self_id,
    ensures
        plusone_step(Some((raw, self_id, 1i16)), raw, user_id, self_id) == (
            None::<(Seq<char>, i64, i16)>,
            PlusOneAction::BreakEcho,
        ),
{
}

/// The bot repeats a message only as its third copy in a row: only when
/// the record holds that message counted twice.
pub proof fn law_echo_only_on_third_copy(
    prev: Option<(Seq<char>, i64, i16)>,
    raw: Seq<char>,
    user_id: i64,
    self_id: i64,
)
    ensures
        plusone_step(prev, raw, user_id, self_id).1 is Echo ==> (prev matches Some(d) && d.0 == raw && d.2 == 2),
{
}

/// The bot repeats a run of copies once: after it repeated a message, the
/// next copy of it, from anybody, is not repeated again.
pub proof fn law_echo_once_per_run(
    prev: Option<(Seq<char>, i64, i16)>,
    raw: Seq<char>,
    u1: i64,
    u2: i64,
    self_id: i64,
)
    requires
        plusone_step(prev, raw, u1, self_id).1 is Echo,
    ensures
        !(plusone_step(plusone_step(prev, raw, u1, self_id).0, raw, u2, self_id).1 is Echo),
{
}

} // verus!
