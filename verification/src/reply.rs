//! Replies: a message built from CQ codes, forward nodes, pokes, and the
//! request that carries them to the chat server's HTTP API.

use crate::msg::{Msg, MsgSender};
use crate::text::{has_prefix, has_suffix, int_text, int_to_text, string_of, chars_of, starts_with, ends_with, slice_to_vec, push_str, push_chars};
use vstd::prelude::*;
use vstd::string::*;

verus! {

/// A message to send: its text (plain text mixed with CQ codes) and where
/// it goes.
pub struct SendMsg {
    pub message_type: String,
    pub group_id: i64,
    pub user_id: i64,
    pub message: String,
}

/// `a` followed by the decimal text of `n` and then `b`.
pub open spec fn code(a: Seq<char>, n: int, b: Seq<char>) -> Seq<char> {
    a + int_text(n) + b
}

/// The decimal text of `n` as a `String`.
fn int_string(n: i64) -> (r: String)
    ensures
        r@ == int_text(n as int),
{
    let v = int_to_text(n);
    string_of(v.as_slice())
}

impl SendMsg {
    /// An empty message with no destination yet.
    pub fn new() -> (r: SendMsg)
        ensures
            r.message_type@.len() == 0,
            r.group_id == 0,
            r.user_id == 0,
            r.message@.len() == 0,
    {
        SendMsg { message_type: String::new(), group_id: 0, user_id: 0, message: String::new() }
    }

    /// Appends plain text.
    pub fn join_text(&mut self, s: String)
        ensures
            final(self).message@ == old(self).message@ + s@,
            final(self).group_id == old(self).group_id,
            final(self).user_id == old(self).user_id,
            final(self).message_type@ == old(self).message_type@,
    {
        self.message.append(s.as_str());
    }

    /// Appends an at-mention of `at_id`, followed by a space.
    pub fn join_at(&mut self, at_id: i64)
        ensures
            final(self).message@ == old(self).message@ + code("[CQ:at,qq="@, at_id as int, "] "@),
            final(self).group_id == old(self).group_id,
            final(self).user_id == old(self).user_id,
            final(self).message_type@ == old(self).message_type@,
    {
        self.message.append("[CQ:at,qq=");
        self.message.append(int_string(at_id).as_str());
        self.message.append("] ");
    }

    /// Appends an image given by path, URL or `base64://` data.
    pub fn join_image(&mut self, pic_path: String)
        ensures
            final(self).message@ == old(self).message@ + "[CQ:image,file="@ + pic_path@ + "]"@,
            final(self).group_id == old(self).group_id,
            final(self).user_id == old(self).user_id,
            final(self).message_type@ == old(self).message_type@,
    {
        self.message.append("[CQ:image,file=");
        self.message.append(pic_path.as_str());
        self.message.append("]");
    }

    /// Appends a QQ face.
    pub fn join_face(&mut self, face_id: i32)
        ensures
            final(self).message@ == old(self).message@ + code("[CQ:face,id="@, face_id as int, "]"@),
            final(self).group_id == old(self).group_id,
            final(self).user_id == old(self).user_id,
            final(self).message_type@ == old(self).message_type@,
    {
        self.message.append("[CQ:face,id=");
        self.message.append(int_string(face_id as i64).as_str());
        self.message.append("]");
    }

    /// Appends a reply to message `message_id`.
    pub fn join_reply(&mut self, message_id: i64)
        ensures
            final(self).message@ == old(self).message@ + code("[CQ:reply,id="@, message_id as int, "]"@),
            final(self).group_id == old(self).group_id,
            final(self).user_id == old(self).user_id,
            final(self).message_type@ == old(self).message_type@,
    {
        self.message.append("[CQ:reply,id=");
        self.message.append(int_string(message_id).as_str());
        self.message.append("]");
    }

    /// Appends a voice recording.
    pub fn join_record(&mut self, file_path: String)
        ensures
            final(self).message@ == old(self).message@ + "[CQ:record,file="@ + file_path@ + "]"@,
            final(self).group_id == old(self).group_id,
            final(self).user_id == old(self).user_id,
            final(self).message_type@ == old(self).message_type@,
    {
        self.message.append("[CQ:record,file=");
        self.message.append(file_path.as_str());
        self.message.append("]");
    }

    /// Appends a video.
    pub fn join_video(&mut self, file_path: String)
        ensures
            final(self).message@ == old(self).message@ + "[CQ:video,file="@ + file_path@ + "]"@,
            final(self).group_id == old(self).group_id,
            final(self).user_id == old(self).user_id,
            final(self).message_type@ == old(self).message_type@,
    {
        self.message.append("[CQ:video,file=");
        self.message.append(file_path.as_str());
        self.message.append("]");
    }

    /// Appends a file.
    pub fn join_file(&mut self, file_path: String)
        ensures
            final(self).message@ == old(self).message@ + "[CQ:file,file="@ + file_path@ + "]"@,
            final(self).group_id == old(self).group_id,
            final(self).user_id == old(self).user_id,
            final(self).message_type@ == old(self).message_type@,
    {
        self.message.append("[CQ:file,file=");
        self.message.append(file_path.as_str());
        self.message.append("]");
    }

    /// Appends a forward node, given as its JSON text.
    pub fn join_node(&mut self, node_json: &str)
        ensures
            final(self).message@ == old(self).message@ + node_json@,
            final(self).group_id == old(self).group_id,
            final(self).user_id == old(self).user_id,
            final(self).message_type@ == old(self).message_type@,
    {
        self.message.append(node_json);
    }

    /// Sends to where `msg` came from unless a destination was set, and
    /// marks the message private when no group is set.
    pub fn address(&mut self, msg: &Msg)
        ensures
            ({
                let (u, g) = if old(self).user_id == 0 && old(self).group_id == 0 {
                    (msg.sender.user_id, msg.group_id)
                } else {
                    (old(self).user_id, old(self).group_id)
                };
                &&& final(self).user_id == u
                &&& final(self).group_id == g
                &&& final(self).message_type@ == (if g == 0 { "private"@ } else { "group"@ })
            }),
            final(self).message@ == old(self).message@,
    {
        if self.user_id == 0 && self.group_id == 0 {
            self.user_id = msg.sender.user_id;
            self.group_id = msg.group_id;
        }
        if self.group_id == 0 {
            self.message_type = String::from_str("private");
        } else {
            self.message_type = String::from_str("group");
        }
    }

    /// Addresses the message and gives the request for `/send_msg`, with,
    /// for a group message, the record of the bot's own message that is fed
    /// back into the event stream.
    pub fn send_msg(self, msg: &Msg) -> (r: (Post, Option<Msg>))
        ensures
            r.0.endpoint@ == "/send_msg"@,
            (r.0.body matches PostType::Message(m) && ({
                let (u, g) = if self.user_id == 0 && self.group_id == 0 {
                    (msg.sender.user_id, msg.group_id)
                } else {
                    (self.user_id, self.group_id)
                };
                &&& m.user_id == u
                &&& m.group_id == g
                &&& m.message_type@ == (if g == 0 { "private"@ } else { "group"@ })
                &&& m.message@ == self.message@
                &&& (g != 0 <==> r.1 is Some)
                &&& (r.1 matches Some(e) ==> bot_echo(e, msg, self.message@))
            })),
    {
        let mut s = self;
        s.address(msg);
        let echo = if s.group_id != 0 { Some(echo_msg(msg, &s.message)) } else { None };
        (Post { endpoint: String::from_str("/send_msg"), body: PostType::Message(s) }, echo)
    }

    /// Addresses the message and gives the request for
    /// `/send_forward_msg`.
    pub fn send_forward_msg(self, msg: &Msg) -> (r: Post)
        ensures
            r.endpoint@ == "/send_forward_msg"@,
            (r.body matches PostType::Message(m) && ({
                let (u, g) = if self.user_id == 0 && self.group_id == 0 {
                    (msg.sender.user_id, msg.group_id)
                } else {
                    (self.user_id, self.group_id)
                };
                &&& m.user_id == u
                &&& m.group_id == g
                &&& m.message_type@ == (if g == 0 { "private"@ } else { "group"@ })
                &&& m.message@ == self.message@
            })),
    {
        let mut s = self;
        s.address(msg);
        Post { endpoint: String::from_str("/send_forward_msg"), body: PostType::Message(s) }
    }
}

/// The record of the bot's own group message `text`, sent in answer to
/// `msg`, as it is fed back into the event stream.
pub open spec fn bot_echo(e: Msg, msg: &Msg, text: Seq<char>) -> bool {
    &&& e.time == 0
    &&& e.self_id == msg.self_id
    &&& e.post_type@ == "message"@
    &&& e.message_type@ == "group"@
    &&& e.sub_type@.len() == 0
    &&& e.target_id == 0
    &&& e.message_id == 0
    &&& e.message_seq == 0
    &&& e.group_id == msg.group_id
    &&& e.group_name@ == "bot"@
    &&& e.user_id == msg.self_id
    &&& e.message@.len() == 0
    &&& e.raw_message@ == "[bot_msg]"@ + text
    &&& e.font == 0
    &&& e.sender.user_id == msg.self_id
    &&& e.sender.nickname@ == "bot"@
    &&& e.sender.card@.len() == 0
    &&& e.sender.role@.len() == 0
    &&& e.sender.sex@.len() == 0
    &&& e.sender.age == 0
    &&& e.notice_type@.len() == 0
}

fn echo_msg(msg: &Msg, text: &String) -> (e: Msg)
    ensures
        bot_echo(e, msg, text@),
{
    let mut raw = String::from_str("[bot_msg]");
    raw.append(text.as_str());
    Msg {
        time: 0,
        self_id: msg.self_id,
        post_type: String::from_str("message"),
        message_type: String::from_str("group"),
        sub_type: String::new(),
        target_id: 0,
        message_id: 0,
        message_seq: 0,
        group_id: msg.group_id,
        group_name: String::from_str("bot"),
        user_id: msg.self_id,
        message: String::new(),
        raw_message: raw,
        font: 0,
        sender: MsgSender {
            user_id: msg.self_id,
            nickname: String::from_str("bot"),
            card: String::new(),
            role: String::new(),
            sex: String::new(),
            age: 0,
        },
        notice_type: String::new(),
    }
}

/// What a request to the HTTP API carries.
pub enum PostType {
    Message(SendMsg),
    Poke(SendPoke),
}

/// A request to the chat server's HTTP API: the endpoint and the body.
pub struct Post {
    pub endpoint: String,
    pub body: PostType,
}

/// A poke back at a user, in a group or in private.
pub struct SendPoke {
    pub user_id: i64,
    pub group_id: Option<i64>,
}

impl SendPoke {
    /// A private poke at `uid`, for `/friend_poke`.
    pub fn private(uid: i64) -> (r: Post)
        ensures
            r.endpoint@ == "/friend_poke"@,
            (r.body matches PostType::Poke(p) && p.user_id == uid && p.group_id is None),
    {
        Post { endpoint: String::from_str("/friend_poke"), body: PostType::Poke(SendPoke { user_id: uid, group_id: None }) }
    }

    /// A poke at `uid` in group `gid`, for `/group_poke`.
    pub fn group(gid: i64, uid: i64) -> (r: Post)
        ensures
            r.endpoint@ == "/group_poke"@,
            (r.body matches PostType::Poke(p) && p.user_id == uid && p.group_id == Some(gid)),
    {
        Post { endpoint: String::from_str("/group_poke"), body: PostType::Poke(SendPoke { user_id: uid, group_id: Some(gid) }) }
    }
}

// ---------------------------------------------------------------------
// Forward nodes
// ---------------------------------------------------------------------

/// One segment of a forward node: its type and its data.
pub struct Message {
    pub segment_type: String,
    pub data: Data,
}

/// Data of a segment.
pub enum Data {
    Text(DataText),
    At(DataAt),
    Image(DataImage),
    Face(DataFace),
    Reply(DataReply),
    Record(DataRecord),
    Video(DataVideo),
    File(DataFile),
    Node(DataNode),
}

/// Data of a mention segment: whom it mentions.
pub struct DataAt {
    pub qq: i64,
}

/// Data of a text segment.
pub struct DataText {
    pub text: String,
}

/// Data of an image segment: the picture's path, URL or data.
pub struct DataImage {
    pub file: String,
}

/// Data of a face segment: the face's id.
pub struct DataFace {
    pub id: i32,
}

/// Data of a reply segment: the quoted message's id.
pub struct DataReply {
    pub id: i64,
}

/// Data of a voice segment: the recording's file.
pub struct DataRecord {
    pub file: String,
}

/// Data of a video segment: the video's file.
pub struct DataVideo {
    pub file: String,
}

/// Data of a file segment: the file and its name.
pub struct DataFile {
    pub file: String,
    pub name: String,
}

/// A forward node: who it shows as the author, and its segments.
pub struct DataNode {
    pub user_id: i64,
    pub nickname: String,
    pub content: Vec<Message>,
}

/// The node keeps its author and its earlier segments and gains one.
pub open spec fn node_grows(old_node: &DataNode, new_node: &DataNode) -> bool {
    &&& new_node.user_id == old_node.user_id
    &&& new_node.nickname@ == old_node.nickname@
    &&& new_node.content@.len() == old_node.content@.len() + 1
    &&& new_node.content@.take(old_node.content@.len() as int) == old_node.content@
}

impl DataNode {
    /// A node shown as written by `user_id` under `nickname`, with no
    /// segments.
    pub fn new(user_id: i64, nickname: String) -> (r: DataNode)
        ensures
            r.user_id == user_id,
            r.nickname@ == nickname@,
            r.content@.len() == 0,
    {
        DataNode { user_id, nickname, content: Vec::new() }
    }

    fn push_segment(&mut self, m: Message)
        ensures
            node_grows(old(self), final(self)),
            final(self).content@.last() == m,
    {
        let ghost before = self.content@;
        self.content.push(m);
        assert(self.content@.take(before.len() as int) =~= before);
    }

    /// Adds a text segment.
    pub fn join_text(&mut self, s: String)
        ensures
            node_grows(old(self), final(self)),
            final(self).content@.last().segment_type@ == "text"@,
            (final(self).content@.last().data matches Data::Text(t) && t.text@ == s@),
    {
        self.push_segment(Message { segment_type: String::from_str("text"), data: Data::Text(DataText { text: s }) });
    }

    /// Adds an at-mention, as a text segment `[CQ:at,qq=<id>` (without the
    /// closing bracket).
    pub fn join_at(&mut self, at_id: i64)
        ensures
            node_grows(old(self), final(self)),
            final(self).content@.last().segment_type@ == "text"@,
            (final(self).content@.last().data matches Data::Text(t) && t.text@ == "[CQ:at,qq="@ + int_text(at_id as int)),
    {
        let mut text = String::from_str("[CQ:at,qq=");
        text.append(int_string(at_id).as_str());
        self.push_segment(Message { segment_type: String::from_str("text"), data: Data::Text(DataText { text }) });
    }

    /// Adds an image segment.
    pub fn join_image(&mut self, pic_path: String)
        ensures
            node_grows(old(self), final(self)),
            final(self).content@.last().segment_type@ == "image"@,
            (final(self).content@.last().data matches Data::Image(t) && t.file@ == pic_path@),
    {
        self.push_segment(Message { segment_type: String::from_str("image"), data: Data::Image(DataImage { file: pic_path }) });
    }

    /// Adds a face segment.
    pub fn join_face(&mut self, face_id: i32)
        ensures
            node_grows(old(self), final(self)),
            final(self).content@.last().segment_type@ == "face"@,
            (final(self).content@.last().data matches Data::Face(t) && t.id == face_id),
    {
        self.push_segment(Message { segment_type: String::from_str("face"), data: Data::Face(DataFace { id: face_id }) });
    }

    /// Adds a reply segment.
    pub fn join_reply(&mut self, message_id: i64)
        ensures
            node_grows(old(self), final(self)),
            final(self).content@.last().segment_type@ == "reply"@,
            (final(self).content@.last().data matches Data::Reply(t) && t.id == message_id),
    {
        self.push_segment(Message { segment_type: String::from_str("reply"), data: Data::Reply(DataReply { id: message_id }) });
    }

    /// Adds a recording segment.
    pub fn join_record(&mut self, file_path: String)
        ensures
            node_grows(old(self), final(self)),
            final(self).content@.last().segment_type@ == "record"@,
            (final(self).content@.last().data matches Data::Record(t) && t.file@ == file_path@),
    {
        self.push_segment(Message { segment_type: String::from_str("record"), data: Data::Record(DataRecord { file: file_path }) });
    }

    /// Adds a video segment.
    pub fn join_video(&mut self, file_path: String)
        ensures
            node_grows(old(self), final(self)),
            final(self).content@.last().segment_type@ == "video"@,
            (final(self).content@.last().data matches Data::Video(t) && t.file@ == file_path@),
    {
        self.push_segment(Message { segment_type: String::from_str("video"), data: Data::Video(DataVideo { file: file_path }) });
    }

    /// Adds a nested node.
    pub fn join_node(&mut self, user_id: i64, nickname: String, content: Vec<Message>)
        ensures
            node_grows(old(self), final(self)),
            final(self).content@.last().segment_type@ == "node"@,
            (final(self).content@.last().data matches Data::Node(t) && t.user_id == user_id
                && t.nickname@ == nickname@ && t.content@ == content@),
    {
        self.push_segment(Message {
            segment_type: String::from_str("node"),
            data: Data::Node(DataNode { user_id, nickname, content }),
        });
    }
}

// ---------------------------------------------------------------------
// The HTTP base address
// ---------------------------------------------------------------------

/// The configured address with an `http://` scheme: an `https://` one is
/// replaced, a missing one added.
pub open spec fn with_scheme(s: Seq<char>) -> Seq<char> {
    if has_prefix(s, "http://"@) {
        s
    } else {
        "http://"@ + (if has_prefix(s, "https://"@) { s.skip(8) } else { s })
    }
}

/// The configured address with an `http://` scheme and without one
/// trailing `/`.
pub open spec fn ip_process(s: Seq<char>) -> Seq<char> {
    let a = with_scheme(s);
    if has_suffix(a, "/"@) { a.drop_last() } else { a }
}

/// The base URL of the chat server's HTTP API, from the configured
/// `http_ip_port`.
pub fn http_ip_process(http_ip_port: &str) -> (r: String)
    ensures
        r@ == ip_process(http_ip_port@),
{
    proof {
        reveal_strlit("http://");
        reveal_strlit("https://");
        reveal_strlit("/");
    }
    let s = chars_of(http_ip_port);
    let mut a: Vec<char> = Vec::new();
    if starts_with(s.as_slice(), "http://") {
        push_chars(&mut a, s.as_slice());
    } else {
        push_str(&mut a, "http://");
        if starts_with(s.as_slice(), "https://") {
            let rest = slice_to_vec(s.as_slice(), 8, s.len());
            push_chars(&mut a, rest.as_slice());
            assert(rest@ == s@.skip(8));
        } else {
            push_chars(&mut a, s.as_slice());
        }
    }
    assert(a@ =~= with_scheme(s@));
    if ends_with(a.as_slice(), "/") {
        let b = slice_to_vec(a.as_slice(), 0, a.len() - 1);
        assert(b@ =~= a@.drop_last());
        string_of(b.as_slice())
    } else {
        string_of(a.as_slice())
    }
}

/// Normalising an address that is already normalised changes nothing,
/// for every address with something after its scheme that does not end
/// in `//`.
pub proof fn law_ip_process_idempotent(s: Seq<char>)
    requires
        with_scheme(s).len() > 7,
        !has_suffix(with_scheme(s), "//"@),
    ensures
        ip_process(ip_process(s)) == ip_process(s),
{
    reveal_strlit("http://");
    reveal_strlit("https://");
    reveal_strlit("/");
    reveal_strlit("//");
    let a = with_scheme(s);
    let r = ip_process(s);
    if !has_prefix(s, "http://"@) {
        let x = if has_prefix(s, "https://"@) { s.skip(8) } else { s };
        assert(("http://"@ + x).take(7) =~= "http://"@);
    }
    assert(has_prefix(a, "http://"@));
    if has_suffix(a, "/"@) {
        assert(r =~= a.drop_last());
        assert(r.take(7) =~= a.take(7));
        assert(a.skip(a.len() - 2) =~= seq![a[a.len() - 2], a[a.len() - 1]]);
        assert(a.skip(a.len() - 1)[0] == a[a.len() - 1]);
        assert("/"@[0] == '/');
        assert(a[a.len() - 1] == '/');
        if a[a.len() - 2] == '/' {
            assert(a.skip(a.len() - 2) =~= "//"@);
        }
        assert(a[a.len() - 2] != '/');
        assert(r.skip(r.len() - 1) =~= seq![a[a.len() - 2]]);
        assert(!has_suffix(r, "/"@));
    }
    assert(has_prefix(r, "http://"@));
    assert(with_scheme(r) == r);
}

} // verus!
