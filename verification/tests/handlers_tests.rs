use haruna_bot::emoji::{emj_say_of, EmjSay, EmoMjk};
use haruna_bot::gc_name::GcName;
use haruna_bot::handler::{FnHandler, ModHandler};
use haruna_bot::misc::{Help, Play, Test};
use haruna_bot::msg::Msg;
use haruna_bot::notice::{Decrease, Increase, Poke};
use haruna_bot::regin::{
    dispatch, error_reply, mod_handler_regin, msg_handler_regin, notice_error_reply, notice_handler_regin,
    ModUnit, MsgHandler, NoticeHandler,
};
use haruna_bot::reply::{Post, PostType};

fn msg(raw: &str) -> Msg {
    let mut m = Msg::default();
    m.raw_message = raw.to_string();
    m.group_id = 9;
    m.message_id = 3;
    m.user_id = 77;
    m.self_id = 1;
    m.sender.user_id = 77;
    m.message_type = "group".to_string();
    m.post_type = "message".to_string();
    m
}

fn text_of(p: &Post) -> String {
    match &p.body {
        PostType::Message(m) => m.message.clone(),
        PostType::Poke(_) => String::new(),
    }
}

#[test]
fn test_handler_fails_on_purpose() {
    let t = Test { status: false };
    let n = GcName::new();
    assert!(t.matches(&n, &msg("test")));
    assert!(!t.matches(&n, &msg("test ")));
    assert!(FnHandler::status(&t));
    assert!(matches!(t.process(&msg("test")), Err(e) if e == "test err"));
    assert_eq!(FnHandler::help(&t, ""), "测试使用");
}

#[test]
fn play_complains_twice() {
    let p = Play { status: false };
    let n = GcName::new();
    assert!(p.matches(&n, &msg("{\"title\":\"QQ经典农场\"}")));
    assert!(!p.matches(&n, &msg("QQ经典农场")));
    let ((a, _), (b, _)) = p.process(&msg("x"));
    assert_eq!(text_of(&a), "不许给我转QQ农场喵");
    assert_eq!(text_of(&b), "本喵会不开心的喵");
    assert_eq!(FnHandler::name(&p), "娱乐");
}

#[test]
fn stickers_pick_the_character_and_text() {
    let e = EmoMjk { status: false, enable: true };
    let n = GcName::new();
    assert!(e.matches(&n, &msg("睦说 好女孩")));
    assert!(!e.matches(&n, &msg("说 好女孩")));
    let (who, text) = e.prepare(&msg("睦说 好女孩"));
    assert!(matches!(who, EmjSay::Mutsumi(())));
    assert_eq!(text, "好女孩");
    assert_eq!(who.file_name(), "mutsumi");
    assert!(!who.left_aligned());
    let (who, text) = e.prepare(&msg("鲸说"));
    assert!(matches!(who, EmjSay::DS(())));
    assert_eq!(text, "请输入文本");
    assert!(who.left_aligned());
    assert_eq!(who.prefix(), "鲸说");
    let (_, text) = e.prepare(&msg("祥子说  两个空格"));
    assert_eq!(text, " 两个空格");
    assert!(matches!(emj_say_of(&"海铃说".chars().collect::<Vec<char>>()), Some(EmjSay::Umiru(()))));
    let mut e2 = EmoMjk { status: false, enable: false };
    e2.init();
    assert!(!FnHandler::status(&e2));
    let mut e3 = EmoMjk { status: false, enable: true };
    e3.init();
    assert!(FnHandler::status(&e3));
}

#[test]
fn help_lists_and_finds_entries() {
    let mut handlers = msg_handler_regin();
    for h in handlers.iter_mut() {
        h.init();
    }
    let help = Help { status: false };
    let overview = help.overview(&handlers);
    assert!(overview.starts_with(">\ntest\n表情\n娱乐\n"));
    assert!(!overview.contains("\nhelp\n"));
    assert!(!overview.contains("井字棋"));
    assert!(overview.ends_with("\n>\n\n使用\n/help name1 name2...\n查询对应功能帮助列表\neg:\n/help test 表情"));
    let (p, _) = help.process(&msg("/help test"), &handlers);
    assert_eq!(text_of(&p), "[ help list ]\n\n[test]\n测试使用");
    let (p, _) = help.process(&msg("/help 不存在 help"), &handlers);
    let t = text_of(&p);
    assert!(t.starts_with("[ help list ]\n\n>"));
    assert!(t.ends_with("\n未找到帮助项: 不存在 help"));
    let (p, _) = help.process(&msg("/help"), &handlers);
    assert_eq!(text_of(&p), format!("[ help list ]\n\n{}", overview));
    let (p, _) = help.process(&msg("/help 机厅管理-绑定机厅"), &handlers);
    assert!(text_of(&p).starts_with("[ help list ]\n\n[机厅管理]\n<绑定机厅>\n绑定机厅，"));
}

#[test]
fn notices_poke_back_and_greet() {
    let mut poke = Poke { status: false };
    poke.init();
    let n = GcName::new();
    let mut m = msg("");
    m.sub_type = "poke".to_string();
    m.target_id = 1;
    assert!(poke.matches(&n, &m));
    let p = poke.process(&m);
    assert_eq!(p.endpoint, "/group_poke");
    assert!(matches!(p.body, PostType::Poke(ref q) if q.user_id == 77 && q.group_id == Some(9)));
    m.group_id = 0;
    let p = poke.process(&m);
    assert_eq!(p.endpoint, "/friend_poke");
    m.target_id = 2;
    assert!(!poke.matches(&n, &m));

    let d = Decrease { enable: true };
    let mut left = msg("");
    left.notice_type = "group_decrease".to_string();
    assert!(d.matches(&n, &left));
    let (p, _) = d.process(&left, &"小明".to_string());
    assert_eq!(text_of(&p), "いつか、みんなと一緒に出会うかもね ——小明");

    let i = Increase { enable: true };
    let mut joined = msg("");
    joined.notice_type = "group_increase".to_string();
    assert!(i.matches(&n, &joined));
    assert!(!d.matches(&n, &joined));
    let (p, _) = i.process(&joined);
    assert!(text_of(&p).starts_with("[CQ:at,qq=77] 你好呀，欢迎加入"));
}

#[test]
fn registered_lists_in_order() {
    let mods = mod_handler_regin();
    let names: Vec<String> = mods.iter().map(|m| m.name()).collect();
    assert_eq!(names, vec!["字体", "pg数据库", "机厅名字"]);
    assert!(matches!(mods[1], ModUnit::Postgres));
    let msgs = msg_handler_regin();
    let names: Vec<String> = msgs.iter().map(|h| h.name()).collect();
    assert_eq!(names, vec!["test", "表情", "娱乐", "help", "井字棋", "生成表情包", "机厅管理", "机厅查询上报", "加一"]);
    let notices = notice_handler_regin();
    assert_eq!(notices.len(), 3);
    assert!(matches!(notices[0], NoticeHandler::Poke(_)));
    assert!(matches!(notices[2], NoticeHandler::Increase(_)));
}

#[test]
fn dispatch_picks_the_first_ready_handler() {
    let mut handlers = msg_handler_regin();
    let n = GcName::new();
    // before init: `test`, `娱乐` and `help` are always ready
    assert_eq!(dispatch(&handlers, &n, &msg("test")), Some(0));
    assert_eq!(dispatch(&handlers, &n, &msg("睦说 hi")), Some(8));
    for h in handlers.iter_mut() {
        h.init();
    }
    assert_eq!(dispatch(&handlers, &n, &msg("睦说 hi")), Some(1));
    assert_eq!(dispatch(&handlers, &n, &msg("/help")), Some(3));
    assert_eq!(dispatch(&handlers, &n, &msg("随便说说")), Some(8));
    let mut private = msg("随便说说");
    private.message_type = "private".to_string();
    assert_eq!(dispatch(&handlers, &n, &private), None);
    assert!(matches!(handlers[6], MsgHandler::Gcm(_)));
}

#[test]
fn failure_replies() {
    let (p, _) = error_reply(&msg("x"), &"坏了".to_string());
    assert_eq!(text_of(&p), "[CQ:reply,id=3]坏了");
    let p = notice_error_reply(&msg("x"), &"坏了".to_string());
    assert_eq!(p.endpoint, "/send_forward_msg");
    assert_eq!(text_of(&p), "坏了");
}

#[test]
fn law_init_keeps_the_game_off_and_notices_ready() {
    let mut handlers = msg_handler_regin();
    for _ in 0..3 {
        for h in handlers.iter_mut() {
            h.init();
        }
        assert!(!FnHandler::status(&handlers[4]));
    }
    let mut notices = notice_handler_regin();
    for _ in 0..2 {
        for h in notices.iter_mut() {
            h.init();
        }
        assert!(notices.iter().all(|h| FnHandler::status(h)));
    }
}

#[test]
fn registered_sub_commands_in_order() {
    let msgs = msg_handler_regin();
    match &msgs[6] {
        MsgHandler::Gcm(h) => {
            let names: Vec<String> = h.subfunction.iter().map(|s| s.name()).collect();
            assert_eq!(
                names,
                vec!["添加机厅", "删除机厅", "重命名", "添加名字", "绑定机厅", "解绑机厅", "删除名字", "搜索机厅", "修改备注", "本群机厅"]
            );
        },
        _ => panic!("the manager is not at position 6"),
    }
    match &msgs[7] {
        MsgHandler::Gcqr(h) => {
            let names: Vec<String> = h.sub_function.iter().map(|s| s.name()).collect();
            assert_eq!(names, vec!["人数查询", "上报人数", "增加人数", "减少人数"]);
        },
        _ => panic!("the count handler is not at position 7"),
    }
}
