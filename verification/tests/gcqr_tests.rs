use haruna_bot::gc_name::{key_of, GcName};
use haruna_bot::gcqr::{
    gcqr, query_name_of, report_name_of, reported_reply, GcqrMinus, GcqrPlus, GcqrQuery, GcqrSet, GcqrSub,
    ReportRow,
};
use haruna_bot::handler::FnHandler;
use haruna_bot::msg::Msg;
use haruna_bot::reply::{Post, PostType};
use haruna_bot::store::DbWrite;

fn cs(s: &str) -> Vec<char> {
    s.chars().collect()
}

fn msg(raw: &str) -> Msg {
    let mut m = Msg::default();
    m.raw_message = raw.to_string();
    m.group_id = 100;
    m.message_id = 7;
    m.message_type = "group".to_string();
    m.sender.user_id = 42;
    m
}

fn text_of(p: &Post) -> String {
    match &p.body {
        PostType::Message(m) => m.message.clone(),
        PostType::Poke(_) => String::new(),
    }
}

/// A table where 大玩家 is game center 5 in group 100.
fn names() -> GcName {
    let mut n = GcName::new();
    n.insert(key_of(&cs("大玩家"), 100), 5);
    n
}

#[test]
fn query_names() {
    let s = |t: &str| query_name_of(&cs(t)).map(|v| v.into_iter().collect::<String>());
    assert_eq!(s("大玩家j"), Some("大玩家".to_string()));
    assert_eq!(s("大玩家几"), Some("大玩家".to_string()));
    assert_eq!(s("大玩家几人"), Some("大玩家".to_string()));
    assert_eq!(s("大玩家几个人"), Some("大玩家".to_string()));
    assert_eq!(s("大玩家"), None);
}

#[test]
fn report_names() {
    let s = |t: &str| report_name_of(&cs(t)).into_iter().collect::<String>();
    assert_eq!(s("大玩家几人"), "大玩家");
    assert_eq!(s("大玩家12"), "大玩家");
    assert_eq!(s("大玩家+3"), "大玩家");
    assert_eq!(s("大玩家加3"), "大玩家");
    assert_eq!(s("大玩家减3"), "大玩家");
    assert_eq!(s("大玩家j"), "大玩家");
}

#[test]
fn gcqr_takes_short_messages_naming_a_center() {
    let h = gcqr();
    let n = names();
    assert!(h.matches(&n, &msg("大玩家几")));
    assert!(h.matches(&n, &msg("大玩家+2")));
    assert!(!h.matches(&n, &msg("小玩家几")));
    let long = format!("大玩家{}", "1".repeat(25));
    assert!(!h.matches(&n, &msg(&long)));
    assert_eq!(h.name(), "机厅查询上报");
}

#[test]
fn gcqr_routes_to_the_first_ready_command() {
    let mut h = gcqr();
    let n = names();
    assert!(matches!(h.process(&n, &msg("大玩家几")), Err(e) if e == "参数有误，请检查参数"));
    h.init();
    assert!(h.status);
    assert!(matches!(h.process(&n, &msg("大玩家几")), Ok(0)));
    assert!(matches!(h.process(&n, &msg("大玩家3")), Ok(1)));
    assert!(matches!(h.process(&n, &msg("大玩家+3")), Ok(2)));
    assert!(matches!(h.process(&n, &msg("大玩家-3")), Ok(3)));
    assert!(matches!(&h.sub_function[1], GcqrSub::SetCount(_)));
}

#[test]
fn law_commands_do_not_compete() {
    let n = names();
    let q = GcqrQuery { status: true };
    let s = GcqrSet { status: true };
    let p = GcqrPlus { status: true };
    let m = GcqrMinus { status: true };
    for raw in ["大玩家几", "大玩家3", "大玩家+3", "大玩家-3", "大玩家加1减2"] {
        let mm = msg(raw);
        let taken = [q.matches(&n, &mm), s.matches(&n, &mm), p.matches(&n, &mm), m.matches(&n, &mm)];
        if taken[0] {
            assert!(!taken[1] && !taken[2] && !taken[3]);
        }
        if taken[1] {
            assert!(!taken[2] && !taken[3]);
        }
    }
}

#[test]
fn query_target_and_answers() {
    let q = GcqrQuery { status: true };
    let n = names();
    let (name, id) = q.target(&msg("大玩家几人"), &n).unwrap();
    assert!(q.target(&msg("小玩家几人"), &n).is_none());
    assert_eq!(name, "大玩家");
    assert_eq!(id, 5);
    let row = ReportRow { report_time: 0, refresh: Some(true), headcount: 3, report_id: 9 };
    let (p, echo) = q.answer(&msg("大玩家几人"), &name, &row, false, &"12:00:00".to_string());
    assert_eq!(text_of(&p), "[CQ:reply,id=7]今天还没有上报人数");
    assert!(echo.is_some());
    let (p, _) = q.answer(&msg("大玩家几人"), &name, &row, true, &"12:00:00".to_string());
    assert_eq!(text_of(&p), "[CQ:reply,id=7]机厅\"大玩家\"现在有 3 人\n上报时间: 12:00:00\n上报人: 9");
    let kept = ReportRow { report_time: 0, refresh: Some(false), headcount: 4, report_id: 1 };
    let (p, _) = q.answer(&msg("x"), &name, &kept, false, &"01:02:03".to_string());
    assert_eq!(text_of(&p), "[CQ:reply,id=7]机厅\"大玩家\"现在有 4 人\n上报时间: 01:02:03\n上报人: 1");
}

#[test]
fn query_reply_errors_and_clock() {
    let q = GcqrQuery { status: true };
    let name = "大玩家".to_string();
    assert!(matches!(q.reply(&msg("大玩家j"), &name, &vec![]), Err(e) if e == "未找到机厅，未知错误"));
    let r = || ReportRow { report_time: 0, refresh: Some(false), headcount: 2, report_id: 3 };
    assert!(matches!(q.reply(&msg("大玩家j"), &name, &vec![r(), r()]), Err(e) if e == "找到多个机厅，未知错误"));
    let (p, _) = q.reply(&msg("大玩家j"), &name, &vec![r()]).unwrap();
    let t = text_of(&p);
    let head = "[CQ:reply,id=7]机厅\"大玩家\"现在有 2 人\n上报时间: ";
    assert!(t.starts_with(head));
    let clock: String = t[head.len()..].chars().take(8).collect();
    assert_eq!(clock.len(), 8);
    assert_eq!(&clock[2..3], ":");
    assert_eq!(&clock[5..6], ":");
    assert!(t.ends_with("\n上报人: 3"));
}

#[test]
fn set_plans_and_refusals() {
    let s = GcqrSet { status: true };
    let n = names();
    let rep = s.plan(&msg("大玩家12"), &n).unwrap();
    assert_eq!((rep.gc_id, rep.name.as_str(), rep.headcount, rep.report_id), (5, "大玩家", 12, 42));
    assert!(matches!(s.plan(&msg("小玩家12"), &n), Err(e) if e == "no gc name found"));
    assert!(matches!(s.plan(&msg("大玩家99999999999"), &n), Err(e) if e == "number too large to fit in target type"));
    assert!(matches!(s.plan(&msg("大玩家"), &n), Err(e) if e == "cannot parse integer from empty string"));
    assert!(s.matches(&n, &msg("大玩家12")));
    assert!(!s.matches(&n, &msg("大玩家+12")));
}

#[test]
fn plus_amounts_and_reply() {
    let p = GcqrPlus { status: true };
    let n = names();
    assert!(matches!(p.amount(&msg("大玩家+3")), Ok(3)));
    assert!(matches!(p.amount(&msg("大玩家加20")), Ok(20)));
    assert!(matches!(p.amount(&msg("大玩家+0")), Err(e) if e == "plus headcount must be greater than 0"));
    assert!(matches!(p.amount(&msg("大玩家+21")), Err(e) if e == "plus headcount must be less than 20"));
    assert!(matches!(p.amount(&msg("大玩家+x")), Err(e) if e == "invalid digit found in string"));
    let (name, id) = p.target(&msg("大玩家+3"), &n).unwrap();
    assert!(p.target(&msg("小玩家+3"), &n).is_none());
    assert_eq!((name.as_str(), id), ("大玩家", 5));
    let (count, (post, _)) = p.apply(&msg("大玩家+3"), &name, 4, 3);
    assert_eq!(count, 7);
    assert_eq!(text_of(&post), "[CQ:reply,id=7]上报成功，现在\"大玩家\"有7人");
}

#[test]
fn minus_amounts_and_negative_counts() {
    let m = GcqrMinus { status: true };
    let n = names();
    assert!(matches!(m.amount(&msg("大玩家-3")), Ok(3)));
    assert!(matches!(m.amount(&msg("大玩家减0")), Err(e) if e == "minus headcount must be greater than 0"));
    assert!(matches!(m.amount(&msg("大玩家-30")), Err(e) if e == "minus headcount must be less than 20"));
    let (name, id) = m.target(&msg("大玩家-3"), &n).unwrap();
    assert!(m.target(&msg("小玩家-3"), &n).is_none());
    assert_eq!((name.as_str(), id), ("大玩家", 5));
    assert!(matches!(m.apply(&msg("大玩家-3"), &name, 2, 3), Err(e) if e == "人数为负？zdjd"));
    let (count, (post, _)) = m.apply(&msg("大玩家-3"), &name, 5, 3).unwrap();
    assert_eq!(count, 2);
    assert_eq!(text_of(&post), "[CQ:reply,id=7]上报成功，现在\"大玩家\"有2人");
}

#[test]
fn reported_reply_text() {
    let (p, echo) = reported_reply(&msg("x"), &"机厅".to_string(), -1);
    assert_eq!(p.endpoint, "/send_msg");
    assert_eq!(text_of(&p), "[CQ:reply,id=7]上报成功，现在\"机厅\"有-1人");
    assert_eq!(echo.unwrap().raw_message, "[bot_msg][CQ:reply,id=7]上报成功，现在\"机厅\"有-1人");
}

#[test]
fn count_writes() {
    let n = names();
    let rep = GcqrSet { status: true }.plan(&msg("大玩家12"), &n).unwrap();
    let t = rep.report_time;
    assert!(matches!(rep.write(), DbWrite::SetCount { gc_id: 5, headcount: 12, report_id: 42, report_time } if report_time == t));
    let w = GcqrPlus { status: true }.write(&msg("大玩家+3"), 5, 7);
    assert!(matches!(w, DbWrite::SetCount { gc_id: 5, headcount: 7, report_id: 42, .. }));
    let w = GcqrMinus { status: true }.write(&msg("大玩家-3"), 5, 2);
    assert!(matches!(w, DbWrite::SetCount { gc_id: 5, headcount: 2, report_id: 42, .. }));
}
