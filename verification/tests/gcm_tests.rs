use haruna_bot::gc_name::{key_of, GcName, GcRow};
use haruna_bot::gcm::{
    game_center_manager, sub_matches, useable_judgment, BindCheck, DeleteStep, GCMAdd, GCMAddName, GCMBind,
    GCMDelete, GCMDeleteName, GCMQueryGc, GCMReDescription, GCMRename, GCMSearch, GCMUnbind, GcInfo,
};
use haruna_bot::handler::FnHandler;
use haruna_bot::msg::Msg;
use haruna_bot::reply::{Post, PostType};
use haruna_bot::store::DbWrite;

fn cs(s: &str) -> Vec<char> {
    s.chars().collect()
}

fn msg(raw: &str) -> Msg {
    let mut m = Msg::default();
    m.raw_message = raw.to_string();
    m.message_type = "group".to_string();
    m.group_id = 10;
    m.message_id = 2;
    m.sender.user_id = 5;
    m.sender.role = "admin".to_string();
    m
}

fn text_of(p: &Post) -> String {
    match &p.body {
        PostType::Message(m) => m.message.clone(),
        PostType::Poke(_) => String::new(),
    }
}

fn row(id: i64, name: &str, desc: &str, gid: i64) -> GcInfo {
    GcInfo { gc_id: id, name: Some(name.to_string()), description: desc.to_string(), admin_gid: gid }
}

#[test]
fn who_may_manage() {
    assert!(useable_judgment(&msg("x"), &vec![]).is_ok());
    let mut private = msg("x");
    private.message_type = "private".to_string();
    assert!(matches!(useable_judgment(&private, &vec![]), Err(e) if e == "请在群聊内使用"));
    let mut member = msg("x");
    member.sender.role = "member".to_string();
    assert!(matches!(useable_judgment(&member, &vec![]), Err(e) if e == "非管理员无法操作"));
    assert!(useable_judgment(&member, &vec![5]).is_ok());
    assert!(sub_matches(&msg("/机厅管理 添加机厅 a"), "添加机厅"));
    assert!(!sub_matches(&msg("/机厅管理"), "添加机厅"));
}

#[test]
fn add_arguments() {
    let h = GCMAdd { status: true };
    let r = h.args(&msg("/机厅管理 添加机厅 大玩家 很大"), &vec![]).unwrap();
    assert_eq!(r, ("大玩家".to_string(), "很大".to_string()));
    let r = h.args(&msg("/机厅管理 添加机厅 大玩家"), &vec![]).unwrap();
    assert_eq!(r.1, "该机厅未备注");
    assert!(matches!(h.args(&msg("/机厅管理 添加机厅"), &vec![]), Err(e) if e == "参数有误\n使用方式:\n/机厅管理 添加机厅 <name> <备注>"));
    assert!(matches!(h.args(&msg("/机厅管理 添加机厅 a1"), &vec![]), Err(e) if e == "机厅名字不能包含数字"));
    assert!(matches!(h.check_unused(1), Err(e) if e == "与现有机厅重名，请更换名字"));
    assert!(h.check_unused(0).is_ok());
    let p = h.done(&msg("x"), &"大玩家".to_string(), &"很大".to_string(), 3);
    assert_eq!(p.endpoint, "/send_forward_msg");
    assert_eq!(text_of(&p), "[CQ:reply,id=2]成功添加机厅: 大玩家\n机厅备注为: 很大\n机厅id为: 3");
}

#[test]
fn add_name_flow() {
    let h = GCMAddName { status: true };
    let (w, id, n) = h.args(&msg("/机厅管理 添加名字 12 大玩"), &vec![]).unwrap();
    assert_eq!((w.as_str(), id, n.as_str()), ("12", 12, "大玩"));
    let r = h.args(&msg("/机厅管理 添加名字 大玩家 大玩2"), &vec![]);
    assert!(matches!(r, Err(e) if e == "机厅名字不能包含数字"));
    let (w, id, n) = h.args(&msg("/机厅管理 添加名字 大玩家 大玩"), &vec![]).unwrap();
    assert_eq!((w.as_str(), id, n.as_str()), ("大玩家", 0, "大玩"));
    assert!(matches!(h.lookup(&vec![]), Err(e) if e == "未找到符合条件的机厅"));
    let two = vec![row(1, "a", "x", 10), row(2, "b", "y", 10)];
    assert!(matches!(h.lookup(&two), Err(e) if e == "找到多个同名机厅：\nid: 1\nname: a\n备注: x\nid: 2\nname: b\n备注: y"));
    let p = h.done(&msg("x"), &row(1, "a", "x", 10), &"c".to_string());
    assert_eq!(text_of(&p), "[CQ:reply,id=2]添加名字成功\nid: 1\nname: a c\n备注: x");
}

#[test]
fn query_group_centers() {
    let h = GCMQueryGc { status: true };
    assert!(h.args(&msg("/机厅管理 本群机厅")).is_ok());
    assert!(matches!(h.args(&msg("/机厅管理 本群机厅 x")), Err(e) if e == "参数错误\n使用方法：\n/机厅管理 本群机厅"));
    assert!(matches!(h.done(&msg("x"), &vec![]), Err(e) if e == "本群没有找到机厅"));
    let (p, _) = h.done(&msg("x"), &vec![row(1, "a b", "d", 10)]).unwrap();
    assert_eq!(text_of(&p), "[CQ:reply,id=2]找到1个机厅:\n\nid: 1\nname: a b\n备注: d");
}

#[test]
fn re_description_flow() {
    let h = GCMReDescription { status: true };
    let mut names = GcName::new();
    names.insert(key_of(&cs("大玩家"), 10), 8);
    assert_eq!(h.args(&msg("/机厅管理 修改备注 3 新的"), &names).unwrap(), (3, "新的".to_string()));
    assert_eq!(h.args(&msg("/机厅管理 修改备注 大玩家 新的"), &names).unwrap(), (8, "新的".to_string()));
    assert!(matches!(h.args(&msg("/机厅管理 修改备注 小玩家 新的"), &names), Err(e) if e == "未找到该机厅"));
    assert!(matches!(h.check(&msg("x"), &vec![row(1, "a", "d", 11)]), Err(e) if e == "没有权限修改绑定的机厅"));
    assert!(h.check(&msg("x"), &vec![row(1, "a", "d", 10)]).is_ok());
    let (p, _) = h.done(&msg("x"), 1, &"旧".to_string(), &"新".to_string());
    assert_eq!(text_of(&p), "[CQ:reply,id=2]修改成功\nid: 1\n原备注: 旧\n备注: 新");
}

#[test]
fn unbind_flow() {
    let h = GCMUnbind { status: true };
    let n = GcName::new();
    assert!(h.matches(&n, &msg("/机厅管理 解除绑定 5")));
    assert!(h.matches(&n, &msg("/机厅管理 解绑机厅 5")));
    assert!(!h.matches(&n, &msg("/机厅管理 绑定机厅 5")));
    assert_eq!(h.args(&msg("/机厅管理 解除绑定 7"), &vec![]).unwrap(), (None, Some(7)));
    assert_eq!(h.args(&msg("/机厅管理 解除绑定 大玩家"), &vec![]).unwrap(), (Some("大玩家".to_string()), None));
    assert!(matches!(h.lookup(&msg("x"), &vec![row(1, "a", "d", 10)]), Err(e) if e.starts_with("该机厅为当前群聊创建")));
    assert!(h.lookup(&msg("x"), &vec![row(1, "a", "d", 11)]).is_ok());
    let (p, _) = h.done(&msg("x"), &row(1, "a", "d", 11));
    assert_eq!(text_of(&p), "[CQ:reply,id=2]成功解除机厅绑定\nid:1\nname:a\n备注:d");
}

#[test]
fn delete_name_flow() {
    let h = GCMDeleteName { status: true };
    assert_eq!(h.args(&msg("/机厅管理 删除名字 大玩"), &vec![]).unwrap(), ("大玩".to_string(), None));
    assert_eq!(h.args(&msg("/机厅管理 删除名字 4 大玩"), &vec![]).unwrap(), ("大玩".to_string(), Some(4)));
    assert!(matches!(h.args(&msg("/机厅管理 删除名字 x 大玩"), &vec![]), Err(e) if e == "invalid digit found in string"));
    assert!(matches!(h.lookup(0), Err(e) if e == "未找到符合条件的机厅"));
    assert!(matches!(h.lookup(2), Ok(false)));
    assert!(matches!(h.lookup(1), Ok(true)));
    assert!(h.check_count(1).is_err());
    assert!(h.check_count(2).is_ok());
    let (p, _) = h.done(&msg("x"), 4, &"大玩".to_string());
    assert_eq!(text_of(&p), "[CQ:reply,id=2]已删除机厅id：4的名字：大玩");
}

#[test]
fn bind_flow() {
    let h = GCMBind { status: true };
    assert_eq!(h.args(&msg("/机厅管理 绑定机厅 6 大玩")).unwrap(), (6, "大玩".to_string()));
    assert!(matches!(h.args(&msg("/机厅管理 绑定机厅 x 大玩")), Err(e) if e == "invalid digit found in string"));
    assert!(matches!(h.check(&msg("x"), &vec![]), Err(e) if e == "未找到符合条件的机厅，请检查机厅id是否正确"));
    assert!(matches!(h.check(&msg("x"), &vec![row(6, "a", "d", 10)]), Err(e) if e == "不能绑定该群聊创建的机厅"));
    assert!(matches!(h.check(&msg("x"), &vec![row(6, "a", "d", 11)]), Ok(BindCheck::Proceed)));
    assert!(matches!(h.check(&msg("x"), &vec![row(6, "a", "d", 11), row(6, "b", "d", 12)]), Ok(BindCheck::Duplicate)));
    let (p, _) = h.done(&msg("x"), 6, &"大玩".to_string(), &"d".to_string());
    assert_eq!(text_of(&p), "[CQ:reply,id=2]绑定机厅成功\nid: 6\nname: 大玩\n机厅备注: d");
}

#[test]
fn delete_flow() {
    let h = GCMDelete { status: true };
    assert_eq!(h.args(&msg("/机厅管理 删除机厅 大玩家")).unwrap(), ("大玩家".to_string(), 0));
    assert_eq!(h.args(&msg("/机厅管理 删除机厅 9")).unwrap(), ("9".to_string(), 9));
    let w = "9".to_string();
    assert!(matches!(h.decide(&msg("x"), &vec![], &w, 9), Err(e) if e == "未找到可以删除的机厅"));
    assert!(matches!(h.decide(&msg("x"), &vec![row(9, "a", "d", 11)], &w, 9), Err(e) if e == "非可管理群聊，无法进行删除操作"));
    match h.decide(&msg("x"), &vec![row(9, "a", "d", 10)], &w, 9) {
        Ok(DeleteStep::Delete(g, p)) => {
            assert_eq!(g, 9);
            assert_eq!(text_of(&p), "已删除id为: <9> 的机厅");
        },
        _ => panic!("expected a deletion"),
    }
    match h.decide(&msg("x"), &vec![row(1, "a", "d", 10), row(2, "b", "e", 10)], &"a".to_string(), 0) {
        Ok(DeleteStep::List(p)) => assert_eq!(text_of(&p), "找到多个可删除项:\nID:1\nname:a\n备注:\nd\nID:2\nname:b\n备注:\ne"),
        _ => panic!("expected a listing"),
    }
}

#[test]
fn rename_and_search() {
    let h = GCMRename { status: true };
    assert_eq!(h.args(&msg("/机厅管理 重命名 a b")).unwrap(), ("a".to_string(), 0, "b".to_string()));
    assert_eq!(h.args(&msg("/机厅管理 重命名 3 a b")).unwrap(), ("a".to_string(), 3, "b".to_string()));
    assert!(h.args(&msg("/机厅管理 重命名 a")).is_err());
    let p = h.done(&msg("x"), 3, &"a".to_string(), &"b".to_string());
    assert_eq!(text_of(&p), "成功修改机厅名字\nid:3\nold_name:a\nnew_name:b");
    let s = GCMSearch { status: true };
    assert_eq!(s.args(&msg("/机厅管理 搜索机厅 大玩")).unwrap(), "大玩");
    let (p, _) = s.done(&msg("x"), &vec![row(1, "大玩家", "d", 10)]);
    assert_eq!(text_of(&p), "[CQ:reply,id=2]查询列表\n\nid：1\nname：大玩家\n备注：d");
}

#[test]
fn manager_routes_and_helps() {
    let mut m = game_center_manager();
    let names = GcName::new();
    assert!(m.matches(&names, &msg("/机厅管理 搜索机厅 a")));
    assert!(!FnHandler::status(&m));
    m.init();
    assert!(FnHandler::status(&m));
    assert!(matches!(m.process(&names, &msg("/机厅管理 搜索机厅 a")), Ok(7)));
    assert!(matches!(m.process(&names, &msg("/机厅管理 添加机厅 a")), Ok(0)));
    assert!(matches!(m.process(&names, &msg("/机厅管理 删除机厅 a")), Ok(1)));
    assert!(matches!(m.process(&names, &msg("/机厅管理 解除绑定 a")), Ok(5)));
    assert!(matches!(m.process(&names, &msg("/机厅管理 本群机厅")), Ok(9)));
    assert!(matches!(m.process(&names, &msg("/机厅管理 不知道")), Err(e) if e == "参数有误，请检查参数"));
    let help = m.help("机厅管理-搜索机厅");
    assert_eq!(help, "<搜索机厅>\n通过搜索机厅名字获取机厅id\n使用方法：\n/机厅管理 搜索机厅 <机厅名字(别名)>");
    let overview = m.help("机厅管理");
    assert!(overview.starts_with(">\n添加机厅\n"));
    assert!(overview.contains("或者使用-all获取全部子项详细信息"));
}

#[test]
fn names_table_from_rows() {
    let mut t = GcName::new();
    let rows = vec![
        GcRow { name: "大玩家".to_string(), gc_id: 1, gid: 10 },
        GcRow { name: "大玩家".to_string(), gc_id: 2, gid: 10 },
        GcRow { name: "小玩家".to_string(), gc_id: 3, gid: 11 },
    ];
    t.init(&rows);
    assert_eq!(t.get(&key_of(&cs("大玩家"), 10)).map(|d| d.gc_id), Some(2));
    assert!(t.contains_key(&cs("小玩家11")));
    assert!(!t.contains_key(&cs("小玩家10")));
    t.insert(key_of(&cs("小玩家"), 11), 4);
    assert_eq!(t.get(&cs("小玩家11")).map(|d| d.gc_id), Some(4));
    t.clear();
    assert!(!t.contains_key(&cs("小玩家11")));
    assert_eq!(t.name(), "机厅名字");
}

#[test]
fn manager_writes() {
    let m = msg("x");
    let add = GCMAdd { status: true };
    assert!(matches!(add.center_write(&m, &"很大".to_string()), DbWrite::NewCenter { admin_gid: 10, description } if description == "很大"));
    assert!(matches!(add.name_write(&m, &"大玩家".to_string(), 3), DbWrite::AddName { gc_id: 3, gid: 10, name } if name == "大玩家"));
    let w = GCMAddName { status: true }.write(&m, &row(4, "a", "x", 11), &"b".to_string());
    assert!(matches!(w, DbWrite::AddName { gc_id: 4, gid: 10, name } if name == "b"));
    let w = GCMBind { status: true }.write(&m, 6, &"c".to_string());
    assert!(matches!(w, DbWrite::AddName { gc_id: 6, gid: 10, name } if name == "c"));
    let w = GCMUnbind { status: true }.write(&m, &row(7, "a", "x", 11));
    assert!(matches!(w, DbWrite::RemoveGroupNames { gc_id: 7, gid: 10 }));
    let w = GCMDeleteName { status: true }.write(&m, 8, &"d".to_string());
    assert!(matches!(w, DbWrite::RemoveName { gc_id: 8, gid: 10, name } if name == "d"));
    assert!(matches!(GCMDelete { status: true }.write(9), DbWrite::RemoveCenter { gc_id: 9 }));
    let w = GCMRename { status: true }.write(&m, &row(2, "old", "x", 10), &"new".to_string());
    assert!(matches!(w, DbWrite::Rename { gc_id: 2, gid: 10, old: Some(o), new } if o == "old" && new == "new"));
    let w = GCMReDescription { status: true }.write(1, &"备注".to_string());
    assert!(matches!(w, DbWrite::SetDescription { gc_id: 1, description } if description == "备注"));
}
