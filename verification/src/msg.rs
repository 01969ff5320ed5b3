//! The event that the chat server pushes to the bot, with the fields that
//! the handlers read.

use vstd::prelude::*;

verus! {

/// The author of an event.
pub struct MsgSender {
    pub user_id: i64,
    pub nickname: String,
    pub card: String,
    pub role: String,
    pub sex: String,
    pub age: i64,
}

/// An event pushed by the chat server: a message or a notice.
pub struct Msg {
    pub time: i64,
    pub self_id: i64,
    pub post_type: String,
    pub message_type: String,
    pub sub_type: String,
    pub target_id: i64,
    pub message_id: i64,
    pub message_seq: i64,
    pub group_id: i64,
    pub group_name: String,
    pub user_id: i64,
    pub message: String,
    pub raw_message: String,
    pub font: i16,
    pub sender: MsgSender,
    pub notice_type: String,
}

impl Default for MsgSender {
    fn default() -> (r: MsgSender)
        ensures
            r.user_id == 0,
            r.nickname@.len() == 0,
            r.card@.len() == 0,
            r.role@.len() == 0,
            r.sex@.len() == 0,
            r.age == 0,
    {
        MsgSender {
            user_id: 0,
            nickname: String::new(),
            card: String::new(),
            role: String::new(),
            sex: String::new(),
            age: 0,
        }
    }
}

impl Default for Msg {
    fn default() -> (r: Msg)
        ensures
            r.time == 0,
            r.self_id == 0,
            r.post_type@.len() == 0,
            r.message_type@.len() == 0,
            r.sub_type@.len() == 0,
            r.target_id == 0,
            r.message_id == 0,
            r.message_seq == 0,
            r.group_id == 0,
            r.group_name@.len() == 0,
            r.user_id == 0,
            r.message@.len() == 0,
            r.raw_message@.len() == 0,
            r.font == 0,
            r.sender.user_id == 0,
            r.sender.nickname@.len() == 0,
            r.sender.role@.len() == 0,
            r.notice_type@.len() == 0,
    {
        Msg {
            time: 0,
            self_id: 0,
            post_type: String::new(),
            message_type: String::new(),
            sub_type: String::new(),
            target_id: 0,
            message_id: 0,
            message_seq: 0,
            group_id: 0,
            group_name: String::new(),
            user_id: 0,
            message: String::new(),
            raw_message: String::new(),
            font: 0,
            sender: MsgSender::default(),
            notice_type: String::new(),
        }
    }
}

} // verus!
