//! Querying and reporting how many people are at a game center
//! ("机厅查询上报"): `<name>几` asks, `<name><n>` sets, `<name>+<n>` and
//! `<name>-<n>` change the count. The words of a message are read here, the
//! database work is done by the caller, and each reply is built here.

use crate::clock::{is_hms, local_time, now, timestamp_in_range};
use crate::store::DbWrite;
use crate::gc_name::{gc_key, key_of, GcName};
use crate::gcm::{post_text, quoted, quoted_reply};
use crate::handler::FnHandler;
use crate::msg::Msg;
use crate::reply::Post;
use crate::text::{
    char_in, chars_of, contains_any, ends_with, has_any, has_suffix, int_text, is_digit, is_digit_char,
    parse_i32, parse_i32_spec, parse_error_kind, int_error_text, push_str, push_int, slice_to_vec, string_of, strip_char_suffix, strip_char_suffix_len,
    strip_suffix_len, strip_suffix_or_keep, trim_end_len, trimmed_len, find_any, first_in, utf8_len, utf8_longer_than,
};
use vstd::prelude::*;
use vstd::string::*;

verus! {

// ---------------------------------------------------------------------
// Shared pieces
// ---------------------------------------------------------------------

/// The text ends with an ASCII digit.
pub open spec fn ends_with_digit(s: Seq<char>) -> bool {
    s.len() > 0 && is_digit(s.last())
}

fn ends_with_digit_of(s: &[char]) -> (r: bool)
    ensures
        r == ends_with_digit(s@),
{
    s.len() > 0 && is_digit_char(s[s.len() - 1])
}

/// The text after a count was stored.
pub open spec fn reported_text(name: Seq<char>, headcount: int) -> Seq<char> {
    "上报成功，现在\""@ + name + "\"有"@ + int_text(headcount) + "人"@
}

/// The reply after a count was stored.
pub fn reported_reply(msg: &Msg, name: &String, headcount: i32) -> (r: (Post, Option<Msg>))
    ensures
        r.0.endpoint@ == "/send_msg"@,
        post_text(r.0) == quoted(msg, reported_text(name@, headcount as int)),
{
    let mut v: Vec<char> = Vec::new();
    push_str(&mut v, "上报成功，现在\"");
    push_str(&mut v, name.as_str());
    push_str(&mut v, "\"有");
    push_int(&mut v, headcount as i64);
    push_str(&mut v, "人");
    assert(v@ =~= reported_text(name@, headcount as int));
    quoted_reply(msg, string_of(v.as_slice())).send_msg(msg)
}

// ---------------------------------------------------------------------
// 人数查询: how many people are there
// ---------------------------------------------------------------------

/// Asks how many people are at a game center: `<name><j/几/几人/几个人>`.
pub struct GcqrQuery {
    pub status: bool,
}

/// The name asked about: the text without its `j`/`几` ending, or without
/// `几人` or `几个人`; none when it has none of these endings.
pub open spec fn query_name(s: Seq<char>) -> Option<Seq<char>> {
    if s.len() > 0 && "j几"@.contains(s.last()) {
        Some(s.drop_last())
    } else if has_suffix(s, "几人"@) {
        Some(s.take(s.len() - "几人"@.len()))
    } else if has_suffix(s, "几个人"@) {
        Some(s.take(s.len() - "几个人"@.len()))
    } else {
        None
    }
}

/// The name asked about, or the empty text.
pub open spec fn query_name_or_empty(s: Seq<char>) -> Seq<char> {
    match query_name(s) {
        Some(n) => n,
        None => Seq::<char>::empty(),
    }
}

/// A query has no sign and no digit, has a query ending, and names a game
/// center of the group.
pub open spec fn query_matches(table: Map<Seq<char>, i64>, msg: &Msg) -> bool {
    &&& !contains_any(msg.raw_message@, "+加-减0123456789"@)
    &&& (query_name(msg.raw_message@) matches Some(n) && table.contains_key(gc_key(n, msg.group_id)))
}

/// The name asked about in `s`.
pub fn query_name_of(s: &[char]) -> (r: Option<Vec<char>>)
    ensures
        match r {
            Some(v) => query_name(s@) == Some(v@),
            None => query_name(s@) is None,
        },
{
    let n = s.len();
    let jj = chars_of("j几");
    if n > 0 && char_in(s[n - 1], jj.as_slice()) {
        let v = slice_to_vec(s, 0, n - 1);
        assert(v@ =~= s@.drop_last());
        return Some(v);
    }
    if ends_with(s, "几人") {
        let k = chars_of("几人").len();
        return Some(slice_to_vec(s, 0, n - k));
    }
    if ends_with(s, "几个人") {
        let k = chars_of("几个人").len();
        return Some(slice_to_vec(s, 0, n - k));
    }
    None
}

/// One row of the report table for a game center.
pub struct ReportRow {
    pub report_time: i64,
    pub refresh: Option<bool>,
    pub headcount: i64,
    pub report_id: i64,
}

/// The reply when nobody reported today.
pub open spec fn no_report_text() -> Seq<char> {
    "今天还没有上报人数"@
}

/// The reply giving the last report.
pub open spec fn count_text(name: Seq<char>, row: ReportRow, clock: Seq<char>) -> Seq<char> {
    "机厅\""@ + name + "\"现在有 "@ + int_text(row.headcount as int) + " 人"@ + "\n上报时间: "@ + clock
        + "\n上报人: "@ + int_text(row.report_id as int)
}

/// The report is cleared each day: its `refresh` flag is unset or true.
pub open spec fn resets_daily(row: ReportRow) -> bool {
    row.refresh != Some(false)
}

/// What a query answers, given whether the report is from today and the
/// clock time of the report: a report that is reset daily and is not from
/// today counts as no report.
pub open spec fn query_text(name: Seq<char>, row: ReportRow, same_day: bool, clock: Seq<char>) -> Seq<char> {
    let refresh = match row.refresh {
        Some(b) => b,
        None => true,
    };
    if refresh && !same_day {
        no_report_text()
    } else {
        count_text(name, row, clock)
    }
}

/// The refusal when the report table holds no row, or several rows, for
/// the game center.
pub open spec fn rows_error(n: int) -> Seq<char> {
    if n == 0 {
        "未找到机厅，未知错误"@
    } else {
        "找到多个机厅，未知错误"@
    }
}

impl GcqrQuery {
    /// Marks the handler ready.
    pub fn init(&mut self)
        ensures
            final(self).status,
    {
        self.status = true;
    }

    /// The name asked about and its game center; `None` when the table
    /// lacks the name in the group.
    pub fn target(&self, msg: &Msg, names: &GcName) -> (r: Option<(String, i64)>)
        ensures
            match r {
                Some((n, id)) => n@ == query_name_or_empty(msg.raw_message@) && names.table().contains_key(
                    gc_key(n@, msg.group_id),
                ) && id == names.table()[gc_key(n@, msg.group_id)],
                None => !names.table().contains_key(gc_key(query_name_or_empty(msg.raw_message@), msg.group_id)),
            },
    {
        let raw = chars_of(msg.raw_message.as_str());
        let name: Vec<char> = match query_name_of(raw.as_slice()) {
            Some(v) => v,
            None => Vec::new(),
        };
        assert(name@ =~= query_name_or_empty(msg.raw_message@));
        let key = key_of(name.as_slice(), msg.group_id);
        match names.get(key.as_slice()) {
            Some(d) => Some((string_of(name.as_slice()), d.gc_id)),
            None => None,
        }
    }

    /// The answer for one report row, given whether it is from today and
    /// its clock time.
    pub fn answer(&self, msg: &Msg, name: &String, row: &ReportRow, same_day: bool, clock: &String) -> (r: (Post, Option<Msg>))
        ensures
            r.0.endpoint@ == "/send_msg"@,
            post_text(r.0) == quoted(msg, query_text(name@, *row, same_day, clock@)),
    {
        let refresh = match row.refresh {
            Some(b) => b,
            None => true,
        };
        let mut v: Vec<char> = Vec::new();
        if refresh && !same_day {
            push_str(&mut v, "今天还没有上报人数");
        } else {
            push_str(&mut v, "机厅\"");
            push_str(&mut v, name.as_str());
            push_str(&mut v, "\"现在有 ");
            push_int(&mut v, row.headcount);
            push_str(&mut v, " 人");
            push_str(&mut v, "\n上报时间: ");
            push_str(&mut v, clock.as_str());
            push_str(&mut v, "\n上报人: ");
            push_int(&mut v, row.report_id);
        }
        assert(v@ =~= query_text(name@, *row, same_day, clock@));
        quoted_reply(msg, string_of(v.as_slice())).send_msg(msg)
    }

    /// The reply to a query, from the report rows of the game center, given
    /// today's local day, the local day of the report and the clock time of
    /// the report: the report counts as today's only when the two days are
    /// the same day.
    pub fn reply_at(
        &self,
        msg: &Msg,
        name: &String,
        rows: &Vec<ReportRow>,
        today: i32,
        report_day: i32,
        clock: &String,
    ) -> (r: Result<(Post, Option<Msg>), String>)
        ensures
            rows@.len() != 1 ==> (r matches Err(e) && e@ == rows_error(rows@.len() as int)),
            rows@.len() == 1 ==> (r matches Ok(p) && p.0.endpoint@ == "/send_msg"@ && post_text(p.0) == quoted(
                msg,
                query_text(name@, rows@[0], report_day == today, clock@),
            )),
            rows@.len() == 1 && resets_daily(rows@[0]) && report_day != today ==> (r matches Ok(p) && post_text(p.0)
                == quoted(msg, no_report_text())),
    {
        if rows.len() == 0 {
            return Err(String::from_str("未找到机厅，未知错误"));
        }
        if rows.len() > 1 {
            return Err(String::from_str("找到多个机厅，未知错误"));
        }
        let day = report_day;
        let r = self.answer(msg, name, &rows[0], day == today, &clock);
        Ok(r)
    }

    /// The reply to a query, from the report rows of the game center: the
    /// last report, read against today's date on the local clock.
    pub fn reply(&self, msg: &Msg, name: &String, rows: &Vec<ReportRow>) -> (r: Result<(Post, Option<Msg>), String>)
        requires
            rows@.len() == 1 ==> timestamp_in_range(rows@[0].report_time as int),
        ensures
            rows@.len() != 1 ==> (r matches Err(e) && e@ == rows_error(rows@.len() as int)),
            rows@.len() == 1 ==> (r matches Ok(p) && p.0.endpoint@ == "/send_msg"@ && exists|same_day: bool, clock: Seq<char>|
                is_hms(clock) && post_text(p.0) == quoted(msg, #[trigger] query_text(name@, rows@[0], same_day, clock))),
    {
        if rows.len() != 1 {
            return self.reply_at(msg, name, rows, 0, 0, &String::new());
        }
        let (_now_secs, today) = now();
        let (day, clock) = local_time(rows[0].report_time);
        self.reply_at(msg, name, rows, today, day, &clock)
    }
}

impl FnHandler for GcqrQuery {
    open spec fn spec_matches(&self, names: &GcName, msg: &Msg) -> bool {
        query_matches(names.table(), msg)
    }

    open spec fn spec_status(&self) -> bool {
        self.status
    }

    open spec fn spec_name(&self) -> Seq<char> {
        "人数查询"@
    }

    open spec fn spec_help(&self, helps: Seq<char>) -> Seq<char> {
        "查询机厅人数使用\n使用方法：\n<机厅name><j/几/几人/几个人>\neg:\n大玩家几人"@
    }

    fn matches(&self, names: &GcName, msg: &Msg) -> (r: bool) {
        let raw = chars_of(msg.raw_message.as_str());
        if has_any(raw.as_slice(), "+加-减0123456789") {
            return false;
        }
        match query_name_of(raw.as_slice()) {
            Some(n) => {
                let key = key_of(n.as_slice(), msg.group_id);
                names.contains_key(key.as_slice())
            },
            None => false,
        }
    }

    fn status(&self) -> (r: bool) {
        self.status
    }

    fn help(&self, helps: &str) -> (r: String) {
        String::from_str("查询机厅人数使用\n使用方法：\n<机厅name><j/几/几人/几个人>\neg:\n大玩家几人")
    }

    fn name(&self) -> (r: String) {
        String::from_str("人数查询")
    }
}

// ---------------------------------------------------------------------
// 上报人数: set the count
// ---------------------------------------------------------------------

/// Sets the count of a game center: `<name><n>`.
pub struct GcqrSet {
    pub status: bool,
}

/// The name in `<name><n>`: the text without its trailing digits.
pub open spec fn set_name(s: Seq<char>) -> Seq<char> {
    s.take(trimmed_len(s, "0123456789"@))
}

/// A report ends with a digit, has no sign, and names a game center of
/// the group.
pub open spec fn set_matches(table: Map<Seq<char>, i64>, msg: &Msg) -> bool {
    &&& ends_with_digit(msg.raw_message@)
    &&& !contains_any(msg.raw_message@, "+加-减"@)
    &&& table.contains_key(gc_key(set_name(msg.raw_message@), msg.group_id))
}

/// A count to store: the game center, its name as written, the count, who
/// reported it and when.
pub struct Report {
    pub gc_id: i64,
    pub name: String,
    pub headcount: i32,
    pub report_id: i64,
    pub report_time: i64,
}

impl Report {
    /// The write that stores the count.
    pub fn write(&self) -> (r: DbWrite)
        ensures
            r == (DbWrite::SetCount {
                gc_id: self.gc_id,
                headcount: self.headcount,
                report_id: self.report_id,
                report_time: self.report_time,
            }),
    {
        DbWrite::SetCount {
            gc_id: self.gc_id,
            headcount: self.headcount,
            report_id: self.report_id,
            report_time: self.report_time,
        }
    }
}

/// The write that stores a changed count of game center `gc_id`, reported
/// by the sender now. The time is read from the machine's clock, so nothing
/// is said of it.
fn count_write(msg: &Msg, gc_id: i64, headcount: i32) -> (r: DbWrite)
    ensures
        r matches DbWrite::SetCount { gc_id: id, headcount: n, report_id, report_time } && id == gc_id && n
            == headcount && report_id == msg.sender.user_id,
{
    let (now_secs, _today) = now();
    DbWrite::SetCount { gc_id, headcount, report_id: msg.sender.user_id, report_time: now_secs }
}

/// What `<name><n>` asks to store, as (name, count, game center), or why
/// it is refused: the count must parse as an `i32`, then the name must be
/// known.
pub open spec fn set_plan(table: Map<Seq<char>, i64>, msg: &Msg) -> Result<(Seq<char>, i32, i64), Seq<char>> {
    let raw = msg.raw_message@;
    let name = set_name(raw);
    let count = raw.skip(name.len() as int);
    match parse_i32_spec(count) {
        None => Err(int_error_text(parse_error_kind(count, i32::MIN as int, i32::MAX as int))),
        Some(v) => {
            let key = gc_key(name, msg.group_id);
            if table.contains_key(key) {
                Ok((name, v as i32, table[key]))
            } else {
                Err("no gc name found"@)
            }
        },
    }
}

/// Length of the name part of `<name><n>`.
fn set_name_len(s: &[char]) -> (r: usize)
    ensures
        r <= s.len(),
        s@.take(r as int) == set_name(s@),
{
    let r = trim_end_len(s, s.len(), "0123456789");
    assert(s@.take(s.len() as int) =~= s@);
    r
}

impl GcqrSet {
    /// Marks the handler ready.
    pub fn init(&mut self)
        ensures
            final(self).status,
    {
        self.status = true;
    }

    /// The count to store, stamped with the current time, or why the
    /// report is refused.
    pub fn plan(&self, msg: &Msg, names: &GcName) -> (r: Result<Report, String>)
        ensures
            match r {
                Ok(rep) => set_plan(names.table(), msg) == Ok::<(Seq<char>, i32, i64), Seq<char>>(
                    (rep.name@, rep.headcount, rep.gc_id),
                ) && rep.report_id == msg.sender.user_id,
                Err(e) => set_plan(names.table(), msg) == Err::<(Seq<char>, i32, i64), Seq<char>>(e@),
            },
    {
        let raw = chars_of(msg.raw_message.as_str());
        let n = set_name_len(raw.as_slice());
        let count = slice_to_vec(raw.as_slice(), n, raw.len());
        assert(count@ =~= msg.raw_message@.skip(n as int));
        let v = match parse_i32(count.as_slice()) {
            Ok(v) => v,
            Err(k) => {
                return Err(k.text());
            },
        };
        let (now_secs, _today) = now();
        let name = slice_to_vec(raw.as_slice(), 0, n);
        let key = key_of(name.as_slice(), msg.group_id);
        match names.get(key.as_slice()) {
            Some(d) => Ok(Report {
                gc_id: d.gc_id,
                name: string_of(name.as_slice()),
                headcount: v,
                report_id: msg.sender.user_id,
                report_time: now_secs,
            }),
            None => Err(String::from_str("no gc name found")),
        }
    }
}

impl FnHandler for GcqrSet {
    open spec fn spec_matches(&self, names: &GcName, msg: &Msg) -> bool {
        set_matches(names.table(), msg)
    }

    open spec fn spec_status(&self) -> bool {
        self.status
    }

    open spec fn spec_name(&self) -> Seq<char> {
        "上报人数"@
    }

    open spec fn spec_help(&self, helps: Seq<char>) -> Seq<char> {
        "上报人数\n使用方法：\n<机厅name><人数>\neg：\n大玩家1"@
    }

    fn matches(&self, names: &GcName, msg: &Msg) -> (r: bool) {
        let raw = chars_of(msg.raw_message.as_str());
        if !ends_with_digit_of(raw.as_slice()) || has_any(raw.as_slice(), "+加-减") {
            return false;
        }
        let n = set_name_len(raw.as_slice());
        let name = slice_to_vec(raw.as_slice(), 0, n);
        let key = key_of(name.as_slice(), msg.group_id);
        names.contains_key(key.as_slice())
    }

    fn status(&self) -> (r: bool) {
        self.status
    }

    fn help(&self, helps: &str) -> (r: String) {
        String::from_str("上报人数\n使用方法：\n<机厅name><人数>\neg：\n大玩家1")
    }

    fn name(&self) -> (r: String) {
        String::from_str("上报人数")
    }
}

// ---------------------------------------------------------------------
// 增加人数 / 减少人数: change the count
// ---------------------------------------------------------------------

/// Position of the first sign of `set` in `s`.
pub open spec fn first_sign(s: Seq<char>, set: Seq<char>) -> int {
    choose|i: int| first_in(s, set, i)
}

/// The amount of `<name><sign><n>`: the text after the first sign, which
/// must parse as an `i32` between 1 and 20; `low` and `high` are the
/// refusals below and above.
pub open spec fn change_amount(s: Seq<char>, set: Seq<char>, low: Seq<char>, high: Seq<char>) -> Result<i32, Seq<char>> {
    let t = s.skip(first_sign(s, set) + 1);
    match parse_i32_spec(t) {
        None => Err(int_error_text(parse_error_kind(t, i32::MIN as int, i32::MAX as int))),
        Some(v) => if v < 1 {
            Err(low)
        } else if v > 20 {
            Err(high)
        } else {
            Ok(v as i32)
        },
    }
}

/// The name of `<name><sign><n>`: the text before the first sign.
pub open spec fn change_name(s: Seq<char>, set: Seq<char>) -> Seq<char> {
    s.take(first_sign(s, set))
}

/// The position of the first sign of `set` in `s`.
fn sign_at(s: &[char], set: &str) -> (r: usize)
    requires
        contains_any(s@, set@),
    ensures
        r < s.len(),
        r as int == first_sign(s@, set@),
{
    match find_any(s, set) {
        Some(i) => {
            assert(first_in(s@, set@, first_sign(s@, set@)));
            i
        },
        None => 0,
    }
}

/// The amount after the first sign of `set`, or the refusal.
fn amount_of(s: &[char], set: &str, low: &str, high: &str) -> (r: Result<i32, String>)
    requires
        contains_any(s@, set@),
    ensures
        match r {
            Ok(v) => change_amount(s@, set@, low@, high@) == Ok::<i32, Seq<char>>(v),
            Err(e) => change_amount(s@, set@, low@, high@) == Err::<i32, Seq<char>>(e@),
        },
{
    let i = sign_at(s, set);
    let t = slice_to_vec(s, i + 1, s.len());
    assert(t@ =~= s@.skip(i + 1));
    match parse_i32(t.as_slice()) {
        Err(k) => Err(k.text()),
        Ok(v) => if v < 1 {
            Err(String::from_str(low))
        } else if v > 20 {
            Err(String::from_str(high))
        } else {
            Ok(v)
        },
    }
}

/// The name before the first sign of `set`.
fn name_before(s: &[char], set: &str) -> (r: Vec<char>)
    requires
        contains_any(s@, set@),
    ensures
        r@ == change_name(s@, set@),
{
    let i = sign_at(s, set);
    slice_to_vec(s, 0, i)
}

/// Adds to the count of a game center: `<name><+/加><n>`.
pub struct GcqrPlus {
    pub status: bool,
}

/// An increase has a `+` or `加` and ends with a digit.
pub open spec fn plus_matches(msg: &Msg) -> bool {
    contains_any(msg.raw_message@, "+加"@) && ends_with_digit(msg.raw_message@)
}

/// The amount of an increase, or why it is refused.
pub open spec fn plus_amount(msg: &Msg) -> Result<i32, Seq<char>> {
    change_amount(
        msg.raw_message@,
        "+加"@,
        "plus headcount must be greater than 0"@,
        "plus headcount must be less than 20"@,
    )
}

impl GcqrPlus {
    /// Marks the handler ready.
    pub fn init(&mut self)
        ensures
            final(self).status,
    {
        self.status = true;
    }

    /// The amount to add, or why it is refused.
    pub fn amount(&self, msg: &Msg) -> (r: Result<i32, String>)
        requires
            contains_any(msg.raw_message@, "+加"@),
        ensures
            match r {
                Ok(v) => plus_amount(msg) == Ok::<i32, Seq<char>>(v),
                Err(e) => plus_amount(msg) == Err::<i32, Seq<char>>(e@),
            },
    {
        let raw = chars_of(msg.raw_message.as_str());
        amount_of(raw.as_slice(), "+加", "plus headcount must be greater than 0", "plus headcount must be less than 20")
    }

    /// The name before the sign and its game center; `None` when the
    /// table lacks its key.
    pub fn target(&self, msg: &Msg, names: &GcName) -> (r: Option<(String, i64)>)
        requires
            contains_any(msg.raw_message@, "+加"@),
        ensures
            match r {
                Some((n, id)) => n@ == change_name(msg.raw_message@, "+加"@) && names.table().contains_key(
                    gc_key(n@, msg.group_id),
                ) && id == names.table()[gc_key(n@, msg.group_id)],
                None => !names.table().contains_key(gc_key(change_name(msg.raw_message@, "+加"@), msg.group_id)),
            },
    {
        let raw = chars_of(msg.raw_message.as_str());
        let name = name_before(raw.as_slice(), "+加");
        let key = key_of(name.as_slice(), msg.group_id);
        match names.get(key.as_slice()) {
            Some(d) => Some((string_of(name.as_slice()), d.gc_id)),
            None => None,
        }
    }


    /// The write that stores the new count of game center `gc_id`, reported
    /// by the sender now.
    pub fn write(&self, msg: &Msg, gc_id: i64, headcount: i32) -> (r: DbWrite)
        ensures
            r matches DbWrite::SetCount { gc_id: id, headcount: n, report_id, report_time } && id == gc_id && n
                == headcount && report_id == msg.sender.user_id,
    {
        count_write(msg, gc_id, headcount)
    }

    /// The new count and its reply.
    pub fn apply(&self, msg: &Msg, name: &String, old: i32, amount: i32) -> (r: (i32, (Post, Option<Msg>)))
        requires
            old + amount <= i32::MAX,
            old + amount >= i32::MIN,
        ensures
            r.0 == old + amount,
            (r.1).0.endpoint@ == "/send_msg"@,
            post_text((r.1).0) == quoted(msg, reported_text(name@, old + amount)),
    {
        let n = old + amount;
        (n, reported_reply(msg, name, n))
    }
}

impl FnHandler for GcqrPlus {
    open spec fn spec_matches(&self, names: &GcName, msg: &Msg) -> bool {
        plus_matches(msg)
    }

    open spec fn spec_status(&self) -> bool {
        self.status
    }

    open spec fn spec_name(&self) -> Seq<char> {
        "增加人数"@
    }

    open spec fn spec_help(&self, helps: Seq<char>) -> Seq<char> {
        "机厅增加人数\n使用方法:\n<机厅name><+/加><人数>\neg:\n大玩家+1"@
    }

    fn matches(&self, names: &GcName, msg: &Msg) -> (r: bool) {
        let raw = chars_of(msg.raw_message.as_str());
        has_any(raw.as_slice(), "+加") && ends_with_digit_of(raw.as_slice())
    }

    fn status(&self) -> (r: bool) {
        self.status
    }

    fn help(&self, helps: &str) -> (r: String) {
        String::from_str("机厅增加人数\n使用方法:\n<机厅name><+/加><人数>\neg:\n大玩家+1")
    }

    fn name(&self) -> (r: String) {
        String::from_str("增加人数")
    }
}

/// Takes from the count of a game center: `<name><-/减><n>`.
pub struct GcqrMinus {
    pub status: bool,
}

/// A decrease has a `-` or `减` and ends with a digit.
pub open spec fn minus_matches(msg: &Msg) -> bool {
    contains_any(msg.raw_message@, "-减"@) && ends_with_digit(msg.raw_message@)
}

/// The amount of a decrease, or why it is refused.
pub open spec fn minus_amount(msg: &Msg) -> Result<i32, Seq<char>> {
    change_amount(
        msg.raw_message@,
        "-减"@,
        "minus headcount must be greater than 0"@,
        "minus headcount must be less than 20"@,
    )
}

/// The refusal when a decrease would make the count negative.
pub open spec fn negative_text() -> Seq<char> {
    "人数为负？zdjd"@
}

impl GcqrMinus {
    /// Marks the handler ready.
    pub fn init(&mut self)
        ensures
            final(self).status,
    {
        self.status = true;
    }

    /// The amount to take, or why it is refused.
    pub fn amount(&self, msg: &Msg) -> (r: Result<i32, String>)
        requires
            contains_any(msg.raw_message@, "-减"@),
        ensures
            match r {
                Ok(v) => minus_amount(msg) == Ok::<i32, Seq<char>>(v),
                Err(e) => minus_amount(msg) == Err::<i32, Seq<char>>(e@),
            },
    {
        let raw = chars_of(msg.raw_message.as_str());
        amount_of(raw.as_slice(), "-减", "minus headcount must be greater than 0", "minus headcount must be less than 20")
    }

    /// The name before the sign and its game center; `None` when the
    /// table lacks it.
    pub fn target(&self, msg: &Msg, names: &GcName) -> (r: Option<(String, i64)>)
        requires
            contains_any(msg.raw_message@, "-减"@),
        ensures
            match r {
                Some((n, id)) => n@ == change_name(msg.raw_message@, "-减"@) && names.table().contains_key(
                    gc_key(n@, msg.group_id),
                ) && id == names.table()[gc_key(n@, msg.group_id)],
                None => !names.table().contains_key(gc_key(change_name(msg.raw_message@, "-减"@), msg.group_id)),
            },
    {
        let raw = chars_of(msg.raw_message.as_str());
        let name = name_before(raw.as_slice(), "-减");
        let key = key_of(name.as_slice(), msg.group_id);
        match names.get(key.as_slice()) {
            Some(d) => Some((string_of(name.as_slice()), d.gc_id)),
            None => None,
        }
    }


    /// The write that stores the new count of game center `gc_id`, reported
    /// by the sender now.
    pub fn write(&self, msg: &Msg, gc_id: i64, headcount: i32) -> (r: DbWrite)
        ensures
            r matches DbWrite::SetCount { gc_id: id, headcount: n, report_id, report_time } && id == gc_id && n
                == headcount && report_id == msg.sender.user_id,
    {
        count_write(msg, gc_id, headcount)
    }

    /// The new count and its reply, or the refusal when it would be
    /// negative.
    pub fn apply(&self, msg: &Msg, name: &String, old: i32, amount: i32) -> (r: Result<(i32, (Post, Option<Msg>)), String>)
        requires
            old - amount >= i32::MIN,
            old - amount <= i32::MAX,
        ensures
            old - amount < 0 ==> (r matches Err(e) && e@ == negative_text()),
            old - amount >= 0 ==> (r matches Ok((n, p)) && n == old - amount && p.0.endpoint@ == "/send_msg"@
                && post_text(p.0) == quoted(msg, reported_text(name@, old - amount))),
    {
        let n = old - amount;
        if n < 0 {
            return Err(String::from_str("人数为负？zdjd"));
        }
        Ok((n, reported_reply(msg, name, n)))
    }
}

impl FnHandler for GcqrMinus {
    open spec fn spec_matches(&self, names: &GcName, msg: &Msg) -> bool {
        minus_matches(msg)
    }

    open spec fn spec_status(&self) -> bool {
        self.status
    }

    open spec fn spec_name(&self) -> Seq<char> {
        "减少人数"@
    }

    open spec fn spec_help(&self, helps: Seq<char>) -> Seq<char> {
        "机厅减少人数\n使用方法:\n<机厅name><-/减><人数>\neg:\n大玩家-1"@
    }

    fn matches(&self, names: &GcName, msg: &Msg) -> (r: bool) {
        let raw = chars_of(msg.raw_message.as_str());
        has_any(raw.as_slice(), "-减") && ends_with_digit_of(raw.as_slice())
    }

    fn status(&self) -> (r: bool) {
        self.status
    }

    fn help(&self, helps: &str) -> (r: String) {
        String::from_str("机厅减少人数\n使用方法:\n<机厅name><-/减><人数>\neg:\n大玩家-1")
    }

    fn name(&self) -> (r: String) {
        String::from_str("减少人数")
    }
}

// ---------------------------------------------------------------------
// 机厅查询上报: the handler over the four commands
// ---------------------------------------------------------------------

/// The name a query or report speaks of, as the handler reads it before
/// handing the message on: a `j`/`几` ending, then `几人`, then `几个人`,
/// then trailing digits and signs, then a `加`/`减` ending are removed.
pub open spec fn report_name(s: Seq<char>) -> Seq<char> {
    let s1 = strip_char_suffix(s, "j几"@);
    let s2 = strip_suffix_or_keep(s1, "几人"@);
    let s3 = strip_suffix_or_keep(s2, "几个人"@);
    let s4 = s3.take(trimmed_len(s3, "0123456789+-"@));
    strip_char_suffix(s4, "加减"@)
}

/// The name read from `s`.
pub fn report_name_of(s: &[char]) -> (r: Vec<char>)
    ensures
        r@ == report_name(s@),
{
    assert(s@.take(s.len() as int) =~= s@);
    let n1 = strip_char_suffix_len(s, s.len(), "j几");
    let n2 = strip_suffix_len(s, n1, "几人");
    let n3 = strip_suffix_len(s, n2, "几个人");
    let n4 = trim_end_len(s, n3, "0123456789+-");
    assert(s@.take(n3 as int).take(n4 as int) =~= s@.take(n4 as int));
    let n5 = strip_char_suffix_len(s, n4, "加减");
    slice_to_vec(s, 0, n5)
}

/// One of the four commands.
pub enum GcqrSub {
    Query(GcqrQuery),
    SetCount(GcqrSet),
    Plus(GcqrPlus),
    Minus(GcqrMinus),
}

/// The same command, marked ready.
pub open spec fn gcqr_ready(s: GcqrSub) -> GcqrSub {
    match s {
        GcqrSub::Query(_) => GcqrSub::Query(GcqrQuery { status: true }),
        GcqrSub::SetCount(_) => GcqrSub::SetCount(GcqrSet { status: true }),
        GcqrSub::Plus(_) => GcqrSub::Plus(GcqrPlus { status: true }),
        GcqrSub::Minus(_) => GcqrSub::Minus(GcqrMinus { status: true }),
    }
}

impl FnHandler for GcqrSub {
    open spec fn spec_matches(&self, names: &GcName, msg: &Msg) -> bool {
        match self {
            GcqrSub::Query(h) => h.spec_matches(names, msg),
            GcqrSub::SetCount(h) => h.spec_matches(names, msg),
            GcqrSub::Plus(h) => h.spec_matches(names, msg),
            GcqrSub::Minus(h) => h.spec_matches(names, msg),
        }
    }

    open spec fn spec_status(&self) -> bool {
        match self {
            GcqrSub::Query(h) => h.spec_status(),
            GcqrSub::SetCount(h) => h.spec_status(),
            GcqrSub::Plus(h) => h.spec_status(),
            GcqrSub::Minus(h) => h.spec_status(),
        }
    }

    open spec fn spec_name(&self) -> Seq<char> {
        match self {
            GcqrSub::Query(h) => h.spec_name(),
            GcqrSub::SetCount(h) => h.spec_name(),
            GcqrSub::Plus(h) => h.spec_name(),
            GcqrSub::Minus(h) => h.spec_name(),
        }
    }

    open spec fn spec_help(&self, helps: Seq<char>) -> Seq<char> {
        match self {
            GcqrSub::Query(h) => h.spec_help(helps),
            GcqrSub::SetCount(h) => h.spec_help(helps),
            GcqrSub::Plus(h) => h.spec_help(helps),
            GcqrSub::Minus(h) => h.spec_help(helps),
        }
    }

    fn matches(&self, names: &GcName, msg: &Msg) -> (r: bool) {
        match self {
            GcqrSub::Query(h) => h.matches(names, msg),
            GcqrSub::SetCount(h) => h.matches(names, msg),
            GcqrSub::Plus(h) => h.matches(names, msg),
            GcqrSub::Minus(h) => h.matches(names, msg),
        }
    }

    fn status(&self) -> (r: bool) {
        match self {
            GcqrSub::Query(h) => h.status(),
            GcqrSub::SetCount(h) => h.status(),
            GcqrSub::Plus(h) => h.status(),
            GcqrSub::Minus(h) => h.status(),
        }
    }

    fn help(&self, helps: &str) -> (r: String) {
        match self {
            GcqrSub::Query(h) => h.help(helps),
            GcqrSub::SetCount(h) => h.help(helps),
            GcqrSub::Plus(h) => h.help(helps),
            GcqrSub::Minus(h) => h.help(helps),
        }
    }

    fn name(&self) -> (r: String) {
        match self {
            GcqrSub::Query(h) => h.name(),
            GcqrSub::SetCount(h) => h.name(),
            GcqrSub::Plus(h) => h.name(),
            GcqrSub::Minus(h) => h.name(),
        }
    }
}

impl GcqrSub {
    /// Marks the command ready.
    pub fn init(&mut self)
        ensures
            *final(self) == gcqr_ready(*old(self)),
            final(self).spec_status(),
    {
        match self {
            GcqrSub::Query(h) => h.init(),
            GcqrSub::SetCount(h) => h.init(),
            GcqrSub::Plus(h) => h.init(),
            GcqrSub::Minus(h) => h.init(),
        }
    }
}

/// Queries and reports of game-center counts, written as plain messages
/// such as `大玩家几` or `大玩家+1`.
pub struct GCQR {
    /// Set once the database and the names table are ready.
    pub status: bool,
    pub sub_function: Vec<GcqrSub>,
}

/// A message is a query or report when its UTF-8 text is at most 30 bytes
/// and the name it speaks of is a game center of the group.
pub open spec fn gcqr_matches(table: Map<Seq<char>, i64>, msg: &Msg) -> bool {
    utf8_len(msg.raw_message@) <= 30 && table.contains_key(gc_key(report_name(msg.raw_message@), msg.group_id))
}

impl GCQR {
    /// The command that takes `msg`, or the refusal.
    pub fn process(&self, names: &GcName, msg: &Msg) -> (r: Result<usize, String>)
        ensures
            match r {
                Ok(i) => crate::handler::first_taker(self.sub_function@, names, msg, i as int),
                Err(e) => e@ == crate::handler::no_taker_text() && forall|j: int|
                    0 <= j < self.sub_function@.len() ==> !((#[trigger] self.sub_function@[j]).spec_status()
                        && self.sub_function@[j].spec_matches(names, msg)),
            },
    {
        crate::handler::sub_match_process(msg, names, &self.sub_function)
    }

    /// Marks the handler ready (the database and the names table are up)
    /// and its commands.
    pub fn init(&mut self)
        ensures
            final(self).status,
            final(self).sub_function@.len() == old(self).sub_function@.len(),
            forall|i: int|
                0 <= i < final(self).sub_function@.len() ==> #[trigger] final(self).sub_function@[i] == gcqr_ready(
                    old(self).sub_function@[i],
                ),
            forall|i: int| 0 <= i < final(self).sub_function@.len() ==> (#[trigger] final(self).sub_function@[i]).spec_status(),
    {
        let mut subs: Vec<GcqrSub> = Vec::new();
        std::mem::swap(&mut subs, &mut self.sub_function);
        let ghost orig = subs@;
        let mut done: Vec<GcqrSub> = Vec::new();
        while subs.len() > 0
            invariant
                done@.len() + subs@.len() == orig.len(),
                subs@ == orig.skip(done@.len() as int),
                forall|i: int| 0 <= i < done@.len() ==> #[trigger] done@[i] == gcqr_ready(orig[i]),
                forall|i: int| 0 <= i < done@.len() ==> (#[trigger] done@[i]).spec_status(),
            decreases subs@.len(),
        {
            let mut h = subs.remove(0);
            h.init();
            done.push(h);
            assert(subs@ =~= orig.skip(done@.len() as int));
        }
        self.sub_function = done;
        self.status = true;
    }
}

impl FnHandler for GCQR {
    open spec fn spec_matches(&self, names: &GcName, msg: &Msg) -> bool {
        gcqr_matches(names.table(), msg)
    }

    open spec fn spec_status(&self) -> bool {
        self.status
    }

    open spec fn spec_name(&self) -> Seq<char> {
        "机厅查询上报"@
    }

    open spec fn spec_help(&self, helps: Seq<char>) -> Seq<char> {
        crate::handler::sub_help_text(helps, self.sub_function@)
    }

    fn matches(&self, names: &GcName, msg: &Msg) -> (r: bool) {
        let raw = chars_of(msg.raw_message.as_str());
        if utf8_longer_than(raw.as_slice(), 30) {
            return false;
        }
        let name = report_name_of(raw.as_slice());
        let key = key_of(name.as_slice(), msg.group_id);
        names.contains_key(key.as_slice())
    }

    fn status(&self) -> (r: bool) {
        self.status
    }

    fn help(&self, helps: &str) -> (r: String) {
        crate::handler::sub_help(helps, &self.sub_function)
    }

    fn name(&self) -> (r: String) {
        String::from_str("机厅查询上报")
    }
}

/// A character of `s` that is in `small` is in `big` when every character
/// of `small` is.
proof fn lemma_contains_any_grows(s: Seq<char>, small: Seq<char>, big: Seq<char>)
    requires
        contains_any(s, small),
        forall|i: int| 0 <= i < small.len() ==> big.contains(#[trigger] small[i]),
    ensures
        contains_any(s, big),
{
    let i = choose|i: int| 0 <= i < s.len() && small.contains(#[trigger] s[i]);
    let j = choose|j: int| 0 <= j < small.len() && small[j] == s[i];
    assert(big.contains(small[j]));
}

/// The four commands never compete for a message: a query takes no
/// message that a report, an increase or a decrease takes, and a report
/// takes none that an increase or a decrease takes.
pub proof fn law_gcqr_commands_exclusive(table: Map<Seq<char>, i64>, msg: &Msg)
    ensures
        query_matches(table, msg) ==> !set_matches(table, msg) && !plus_matches(msg) && !minus_matches(msg),
        set_matches(table, msg) ==> !plus_matches(msg) && !minus_matches(msg),
{
    reveal_strlit("+加-减0123456789");
    reveal_strlit("+加-减");
    reveal_strlit("+加");
    reveal_strlit("-减");
    let raw = msg.raw_message@;
    let all = "+加-减0123456789"@;
    if query_matches(table, msg) {
        if ends_with_digit(raw) {
            let c = raw.last();
            assert(all[4 + (c as int - 48)] == c);
            assert(contains_any(raw, all)) by {
                assert(all.contains(raw[raw.len() - 1]));
            }
        }
        if plus_matches(msg) {
            lemma_contains_any_grows(raw, "+加"@, all);
        }
        if minus_matches(msg) {
            assert(all[2] == '-' && all[3] == '减');
            lemma_contains_any_grows(raw, "-减"@, all);
        }
    }
    if set_matches(table, msg) {
        if plus_matches(msg) {
            assert("+加-减"@[0] == '+' && "+加-减"@[1] == '加');
            assert("+加-减"@.contains("+加"@[0]) && "+加-减"@.contains("+加"@[1]));
            lemma_contains_any_grows(raw, "+加"@, "+加-减"@);
        }
        if minus_matches(msg) {
            assert("+加-减"@[2] == '-' && "+加-减"@[3] == '减');
            lemma_contains_any_grows(raw, "-减"@, "+加-减"@);
        }
    }
}

/// The handler's commands as registered, in the order they are tried, each
/// with its ready flag unset.
pub open spec fn gcqr_subs() -> Seq<GcqrSub> {
    seq![
        GcqrSub::Query(GcqrQuery { status: false }),
        GcqrSub::SetCount(GcqrSet { status: false }),
        GcqrSub::Plus(GcqrPlus { status: false }),
        GcqrSub::Minus(GcqrMinus { status: false }),
    ]
}

/// The handler with its four commands, none of them ready yet.
pub fn gcqr() -> (r: GCQR)
    ensures
        !r.status,
        r.sub_function@.len() == 4,
        r.sub_function@[0] is Query,
        r.sub_function@[1] is SetCount,
        r.sub_function@[2] is Plus,
        r.sub_function@[3] is Minus,
        forall|i: int| 0 <= i < 4 ==> !(#[trigger] r.sub_function@[i]).spec_status(),
        r.sub_function@ == gcqr_subs(),
{
    let mut subs: Vec<GcqrSub> = Vec::new();
    subs.push(GcqrSub::Query(GcqrQuery { status: false }));
    subs.push(GcqrSub::SetCount(GcqrSet { status: false }));
    subs.push(GcqrSub::Plus(GcqrPlus { status: false }));
    subs.push(GcqrSub::Minus(GcqrMinus { status: false }));
    assert(subs@ =~= gcqr_subs());
    GCQR { status: false, sub_function: subs }
}

/// A report that is cleared each day and was made on another day than
/// today is answered as no report; one made today, or one that is never
/// cleared, is answered with its count, its time and who reported it.
pub proof fn law_query_shows_only_todays_reset_reports(
    name: Seq<char>,
    row: ReportRow,
    same_day: bool,
    clock: Seq<char>,
)
    ensures
        resets_daily(row) && !same_day ==> query_text(name, row, same_day, clock) == no_report_text(),
        same_day || !resets_daily(row) ==> query_text(name, row, same_day, clock) == "机厅\""@ + name
            + "\"现在有 "@ + int_text(row.headcount as int) + " 人"@ + "\n上报时间: "@ + clock + "\n上报人: "@
            + int_text(row.report_id as int),
{
}

} // verus!
