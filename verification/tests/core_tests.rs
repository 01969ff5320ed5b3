use haruna_bot::config::{bw_right, default_bw_status, log_msg, msg_analysis, FuncConfig, MainConfig, PGConfig, Route};
use haruna_bot::msg::Msg;
use haruna_bot::plusone::{PlusOne, PlusOneAction, PlusOneMap};
use haruna_bot::text::IntErrorKind;
use haruna_bot::reply::{http_ip_process, DataNode, PostType, SendMsg, SendPoke};
use haruna_bot::ttt::{
    chess_biggest, chess_check, chess_judgment, chess_refresh, chess_update, chess_xy, chess_yx, init_data, TttError,
    TTT,
};

fn msg(raw: &str) -> Msg {
    let mut m = Msg::default();
    m.raw_message = raw.to_string();
    m.message_type = "group".to_string();
    m.post_type = "message".to_string();
    m.group_id = 8;
    m.self_id = 1;
    m.user_id = 20;
    m.sender.user_id = 20;
    m
}

#[test]
fn config_defaults() {
    assert_eq!(default_bw_status(), "black");
    let c = MainConfig::create_config();
    assert_eq!(c.docker_path, "/app/temp");
    assert_eq!(c.log_level, "info");
    assert!(c.black_list.is_empty());
    let f = FuncConfig {
        postgres: PGConfig {
            pg_ip_port: "db:5432".to_string(),
            pg_username: "u".to_string(),
            db_name: "bot".to_string(),
            pg_password: "p".to_string(),
        },
        super_admin: vec![],
    };
    assert_eq!(f.db_url(), "postgres://u:p@db:5432/bot");
    assert!(FuncConfig::create_config().super_admin.is_empty());
}

#[test]
fn black_and_white_lists() {
    let mut c = MainConfig::create_config();
    let m = msg("hi");
    assert!(!bw_right(&c, &m));
    c.black_list = vec![20];
    assert!(bw_right(&c, &m));
    c.bw_status = "white".to_string();
    assert!(bw_right(&c, &m));
    c.white_list = vec![20];
    assert!(!bw_right(&c, &m));
    c.bw_status = "grey".to_string();
    assert!(bw_right(&c, &m));
}

#[test]
fn routing_and_empty_messages() {
    let c = MainConfig::create_config();
    let mut m = msg("");
    assert!(matches!(msg_analysis(&c, &mut m), Route::Message));
    assert_eq!(m.raw_message, " ");
    let mut n = msg("x");
    n.post_type = "notice".to_string();
    assert!(matches!(msg_analysis(&c, &mut n), Route::Notice));
    let mut o = msg("x");
    o.post_type = "meta_event".to_string();
    assert!(matches!(msg_analysis(&c, &mut o), Route::Ignore));
}

#[test]
fn log_lines() {
    let mut m = msg("你好");
    m.group_name = "群".to_string();
    m.sender.nickname = "小明".to_string();
    assert_eq!(log_msg(&m), Some("[群](8):[小明](20) => <你好>".to_string()));
    m.message_type = "private".to_string();
    assert_eq!(log_msg(&m), Some("小明(20): <你好>".to_string()));
    m.message_type = "group".to_string();
    m.sender.user_id = 1;
    assert_eq!(log_msg(&m), None);
}

#[test]
fn cq_codes_and_addressing() {
    let mut s = SendMsg::new();
    s.join_reply(5);
    s.join_at(6);
    s.join_text("hi".to_string());
    s.join_face(14);
    s.join_image("a.png".to_string());
    s.join_record("r.amr".to_string());
    s.join_video("v.mp4".to_string());
    s.join_file("f.txt".to_string());
    assert_eq!(
        s.message,
        "[CQ:reply,id=5][CQ:at,qq=6] hi[CQ:face,id=14][CQ:image,file=a.png][CQ:record,file=r.amr][CQ:video,file=v.mp4][CQ:file,file=f.txt]"
    );
    let (p, echo) = s.send_msg(&msg("x"));
    assert_eq!(p.endpoint, "/send_msg");
    match &p.body {
        PostType::Message(m) => {
            assert_eq!((m.user_id, m.group_id, m.message_type.as_str()), (20, 8, "group"));
        },
        _ => panic!("a message"),
    }
    let e = echo.unwrap();
    assert!(e.raw_message.starts_with("[bot_msg][CQ:reply,id=5]"));
    assert_eq!((e.user_id, e.sender.user_id, e.group_id), (1, 1, 8));
    let mut private = msg("x");
    private.group_id = 0;
    let (p, echo) = SendMsg::new().send_msg(&private);
    assert!(echo.is_none());
    match &p.body {
        PostType::Message(m) => assert_eq!(m.message_type, "private"),
        _ => panic!("a message"),
    }
    let f = SendMsg::new().send_forward_msg(&msg("x"));
    assert_eq!(f.endpoint, "/send_forward_msg");
    assert_eq!(SendPoke::private(3).endpoint, "/friend_poke");
    assert_eq!(SendPoke::group(4, 3).endpoint, "/group_poke");
    let mut node = DataNode::new(1, "bot".to_string());
    node.join_text("a".to_string());
    node.join_at(2);
    assert_eq!(node.content.len(), 2);
}

#[test]
fn http_addresses() {
    assert_eq!(http_ip_process("127.0.0.1:3000"), "http://127.0.0.1:3000");
    assert_eq!(http_ip_process("http://h:1/"), "http://h:1");
    assert_eq!(http_ip_process("https://h:1"), "http://h:1");
    assert_eq!(http_ip_process(""), "http:/");
}

#[test]
fn board_coordinates() {
    assert_eq!(chess_xy(0), (1, 1));
    assert_eq!(chess_xy(1), (2, 1));
    assert_eq!(chess_xy(3), (1, 2));
    assert_eq!(chess_xy(4), (2, 2));
    assert_eq!(chess_xy(2), (0, 0));
    assert_eq!(chess_xy(8), (0, 0));
    assert_eq!(chess_yx(1, 1), 0);
    assert_eq!(chess_yx(3, 3), 8);
    assert_eq!(chess_yx(2, 3), 7);
}

#[test]
fn law_yx_undoes_xy_on_found_squares() {
    for i in [0usize, 1, 3, 4] {
        let (x, y) = chess_xy(i);
        assert_eq!(chess_yx(x, y), i);
    }
}

#[test]
fn biggest_compares_with_the_index() {
    assert_eq!(chess_biggest(vec![0, 5, 0, 0, 0, 0, 0, 0, 0]), 1);
    assert_eq!(chess_biggest(vec![10, 0, 0, 0, 0, 0, 0, 0, 9]), 8);
    assert_eq!(chess_biggest(vec![0; 9]), 0);
}

#[test]
fn pieces_age_and_leave() {
    let mut b = init_data();
    assert!(chess_check(4, &b).is_ok());
    chess_update(4, &mut b, 1);
    assert!(matches!(chess_check(4, &b), Err(TttError::Occupied)));
    assert_eq!((b[4].player(), b[4].hand()), (1, 1));
    chess_refresh(&mut b);
    chess_refresh(&mut b);
    assert_eq!(b[4].hand(), 3);
    chess_refresh(&mut b);
    assert_eq!((b[4].player(), b[4].hand()), (0, 0));
    assert_eq!(TttError::NoGame.text(), "没有正在进行的对局");
}

#[test]
fn ttt_commands() {
    let mut t = TTT::new(false);
    assert!(!t.status());
    t.init();
    assert!(!t.status());
    let start = msg("[CQ:at,qq=1246137523] /井字棋 开始");
    assert!(t.matches(&start));
    assert!(!t.matches(&msg("5")));
    // the command word is the second word of the message
    assert!(matches!(t.process(&start), Err(TttError::BadNumber(IntErrorKind::InvalidDigit))));
    assert!(matches!(t.process(&msg("x 取消")), Err(TttError::NoGame)));
    // a game is opened before the move is read, so a bad move still opens it
    assert!(matches!(t.process(&msg("x 开始")), Err(TttError::BadNumber(IntErrorKind::InvalidDigit))));
    assert_eq!(t.data_map_status, 1);
    assert!(t.matches(&msg("5")));
    assert!(matches!(t.process(&msg("x 开始")), Err(TttError::GameExists)));
    assert!(t.process(&msg("x 取消")).is_ok());
    assert_eq!(t.data_map_status, 0);
    assert!(!t.matches(&msg("5")));
    assert_eq!(t.name(), "井字棋");
    assert_eq!(t.help(""), "开发中");
}

#[test]
fn plusone_repeats_on_the_third() {
    let p = PlusOne::new();
    let mut data = PlusOneMap::new();
    let mut m = msg("草");
    assert!(matches!(p.process(&mut data, &m), PlusOneAction::Nothing));
    m.user_id = 21;
    assert!(matches!(p.process(&mut data, &m), PlusOneAction::Nothing));
    m.user_id = 22;
    assert!(matches!(p.process(&mut data, &m), PlusOneAction::Echo));
    assert!(matches!(p.process(&mut data, &m), PlusOneAction::Nothing));
    let other = msg("别的");
    assert!(matches!(p.process(&mut data, &other), PlusOneAction::Nothing));
}

#[test]
fn plusone_refuses_repeating_the_bot() {
    let p = PlusOne::new();
    let mut data = PlusOneMap::new();
    let mut bot = msg("喵");
    bot.user_id = 1;
    assert!(matches!(p.process(&mut data, &bot), PlusOneAction::Nothing));
    let human = msg("喵");
    assert!(matches!(p.process(&mut data, &human), PlusOneAction::BreakEcho));
    assert_eq!(p.break_echo_replies(), ("不要复读人家喵".to_string(), "打断复读喵".to_string()));
    let mut private = msg("x");
    private.message_type = "private".to_string();
    assert!(!p.matches(&private));
}

#[test]
fn law_scores_depend_on_owners_only() {
    let mut b1 = init_data();
    for (i, p) in [(2usize, 1i16), (5, 8), (6, 1), (7, 8), (8, 1)] {
        chess_update(i, &mut b1, p);
    }
    let mut b2 = b1.clone();
    chess_refresh(&mut b2);
    let w = chess_judgment(&b1);
    assert_eq!(w, chess_judgment(&b2));
    assert_eq!(w.len(), 9);
    assert_eq!(w[2], 0);
}

#[test]
fn law_normalising_an_address_twice() {
    for s in ["127.0.0.1:3000", "http://h:1/", "https://h:1/", "h/"] {
        let once = http_ip_process(s);
        assert_eq!(http_ip_process(&once), once);
    }
}
