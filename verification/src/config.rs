//! The bot's configuration and the decisions taken from it: who may talk
//! to the bot, and how an incoming event is routed and logged.

use crate::msg::Msg;
use crate::text::{chars_eq_str, chars_of, int_text, push_int, push_str, string_of};
use vstd::prelude::*;
use vstd::string::*;

verus! {

/// The main configuration file.
pub struct MainConfig {
    pub docker_path: String,
    pub ws_ip_port: String,
    pub ws_token: String,
    pub http_ip_port: String,
    pub http_token: String,
    pub bw_status: String,
    pub black_list: Vec<i64>,
    pub white_list: Vec<i64>,
    pub log_level: String,
}

/// The value of `bw_status` when the file does not set it.
pub fn default_bw_status() -> (r: String)
    ensures
        r@ == "black"@,
{
    String::from_str("black")
}

impl MainConfig {
    /// The configuration written when there is no configuration file.
    pub fn create_config() -> (r: MainConfig)
        ensures
            r.docker_path@ == "/app/temp"@,
            r.ws_ip_port@.len() == 0,
            r.ws_token@.len() == 0,
            r.http_ip_port@.len() == 0,
            r.http_token@.len() == 0,
            r.bw_status@ == "black"@,
            r.black_list@.len() == 0,
            r.white_list@.len() == 0,
            r.log_level@ == "info"@,
    {
        MainConfig {
            docker_path: String::from_str("/app/temp"),
            ws_ip_port: String::new(),
            ws_token: String::new(),
            http_ip_port: String::new(),
            http_token: String::new(),
            bw_status: default_bw_status(),
            black_list: Vec::new(),
            white_list: Vec::new(),
            log_level: String::from_str("info"),
        }
    }
}

/// The feature configuration file.
pub struct FuncConfig {
    pub postgres: PGConfig,
    pub super_admin: Vec<i64>,
}

/// How to reach the database.
pub struct PGConfig {
    pub pg_ip_port: String,
    pub pg_username: String,
    pub db_name: String,
    pub pg_password: String,
}

impl FuncConfig {
    /// The configuration written when there is no configuration file.
    pub fn create_config() -> (r: FuncConfig)
        ensures
            r.postgres.pg_ip_port@.len() == 0,
            r.postgres.pg_username@.len() == 0,
            r.postgres.db_name@.len() == 0,
            r.postgres.pg_password@.len() == 0,
            r.super_admin@.len() == 0,
    {
        FuncConfig {
            postgres: PGConfig {
                pg_ip_port: String::new(),
                pg_username: String::new(),
                db_name: String::new(),
                pg_password: String::new(),
            },
            super_admin: Vec::new(),
        }
    }

    /// The address the database pool connects to.
    pub fn db_url(&self) -> (r: String)
        ensures
            r@ == "postgres://"@ + self.postgres.pg_username@ + ":"@ + self.postgres.pg_password@ + "@"@
                + self.postgres.pg_ip_port@ + "/"@ + self.postgres.db_name@,
    {
        let mut s = String::from_str("postgres://");
        s.append(self.postgres.pg_username.as_str());
        s.append(":");
        s.append(self.postgres.pg_password.as_str());
        s.append("@");
        s.append(self.postgres.pg_ip_port.as_str());
        s.append("/");
        s.append(self.postgres.db_name.as_str());
        s
    }
}

/// Whether `x` is in the list.
pub fn list_contains(list: &Vec<i64>, x: i64) -> (r: bool)
    ensures
        r == list@.contains(x),
{
    let mut i: usize = 0;
    while i < list.len()
        invariant
            i <= list.len(),
            forall|j: int| 0 <= j < i ==> list@[j] != x,
        decreases list.len() - i,
    {
        if list[i] == x {
            return true;
        }
        i = i + 1;
    }
    false
}

/// Whether the sender is kept away from the bot: in black-list mode the
/// listed users are, in white-list mode all but the listed users are, and
/// with any other mode everybody is.
pub open spec fn refused(bw_status: Seq<char>, black: Seq<i64>, white: Seq<i64>, user: i64) -> bool {
    if bw_status == "black"@ {
        black.contains(user)
    } else if bw_status == "white"@ {
        !white.contains(user)
    } else {
        true
    }
}

/// Whether the sender of `msg` is refused.
pub fn bw_right(config: &MainConfig, msg: &Msg) -> (r: bool)
    ensures
        r == refused(config.bw_status@, config.black_list@, config.white_list@, msg.sender.user_id),
{
    let mode = chars_of(config.bw_status.as_str());
    if chars_eq_str(mode.as_slice(), "black") {
        return list_contains(&config.black_list, msg.sender.user_id);
    } else if chars_eq_str(mode.as_slice(), "white") {
        if list_contains(&config.white_list, msg.sender.user_id) {
            return false;
        }
    }
    true
}

/// The line logged for an incoming message, if it is logged.
pub open spec fn log_line(msg: &Msg) -> Option<Seq<char>> {
    if msg.message_type@ == "group"@ && msg.sender.user_id != msg.self_id {
        Some("["@ + msg.group_name@ + "]("@ + int_text(msg.group_id as int) + "):["@ + msg.sender.nickname@
            + "]("@ + int_text(msg.sender.user_id as int) + ") => <"@ + msg.raw_message@ + ">"@)
    } else if msg.message_type@ == "private"@ {
        Some(msg.sender.nickname@ + "("@ + int_text(msg.sender.user_id as int) + "): <"@ + msg.raw_message@
            + ">"@)
    } else {
        None
    }
}

/// Group messages from others and private messages are logged.
pub fn log_msg(msg: &Msg) -> (r: Option<String>)
    ensures
        match r {
            Some(s) => log_line(msg) == Some(s@),
            None => log_line(msg) is None,
        },
{
    let kind = chars_of(msg.message_type.as_str());
    if chars_eq_str(kind.as_slice(), "group") && msg.sender.user_id != msg.self_id {
        let mut v: Vec<char> = Vec::new();
        push_str(&mut v, "[");
        push_str(&mut v, msg.group_name.as_str());
        push_str(&mut v, "](");
        push_int(&mut v, msg.group_id);
        push_str(&mut v, "):[");
        push_str(&mut v, msg.sender.nickname.as_str());
        push_str(&mut v, "](");
        push_int(&mut v, msg.sender.user_id);
        push_str(&mut v, ") => <");
        push_str(&mut v, msg.raw_message.as_str());
        push_str(&mut v, ">");
        Some(string_of(v.as_slice()))
    } else if chars_eq_str(kind.as_slice(), "private") {
        let mut v: Vec<char> = Vec::new();
        push_str(&mut v, msg.sender.nickname.as_str());
        push_str(&mut v, "(");
        push_int(&mut v, msg.sender.user_id);
        push_str(&mut v, "): <");
        push_str(&mut v, msg.raw_message.as_str());
        push_str(&mut v, ">");
        Some(string_of(v.as_slice()))
    } else {
        None
    }
}

/// Where an incoming event goes.
pub enum Route {
    /// Dropped: a refused sender, or neither a notice nor a message.
    Ignore,
    /// To the notice handlers.
    Notice,
    /// To the message handlers.
    Message,
}

/// Routes an event, first turning an empty message into a single space.
pub fn msg_analysis(config: &MainConfig, msg: &mut Msg) -> (r: Route)
    ensures
        final(msg).raw_message@ == (if old(msg).raw_message@.len() == 0 { " "@ } else { old(msg).raw_message@ }),
        final(msg).sender.user_id == old(msg).sender.user_id,
        final(msg).post_type@ == old(msg).post_type@,
        final(msg).message_type@ == old(msg).message_type@,
        final(msg).group_id == old(msg).group_id,
        final(msg).self_id == old(msg).self_id,
        final(msg).user_id == old(msg).user_id,
        r == (if refused(config.bw_status@, config.black_list@, config.white_list@, old(msg).sender.user_id) {
            Route::Ignore
        } else if old(msg).post_type@ == "notice"@ {
            Route::Notice
        } else if old(msg).post_type@ == "message"@ {
            Route::Message
        } else {
            Route::Ignore
        }),
{
    if msg.raw_message.as_str().is_empty() {
        msg.raw_message = String::from_str(" ");
    }
    if bw_right(config, msg) {
        return Route::Ignore;
    }
    let post = chars_of(msg.post_type.as_str());
    if chars_eq_str(post.as_slice(), "notice") {
        Route::Notice
    } else if chars_eq_str(post.as_slice(), "message") {
        Route::Message
    } else {
        Route::Ignore
    }
}

/// In black-list mode a sender is refused exactly when some entry of the
/// black list is that sender, wherever it stands; in white-list mode
/// exactly when no entry of the white list is; in any other mode always.
pub proof fn law_lists_are_searched_whole(bw_status: Seq<char>, black: Seq<i64>, white: Seq<i64>, user: i64)
    ensures
        bw_status == "black"@ ==> (refused(bw_status, black, white, user) <==> exists|i: int|
            0 <= i < black.len() && black[i] == user),
        bw_status == "white"@ ==> (refused(bw_status, black, white, user) <==> forall|i: int|
            0 <= i < white.len() ==> white[i] != user),
        bw_status != "black"@ && bw_status != "white"@ ==> refused(bw_status, black, white, user),
{
    reveal_strlit("black");
    reveal_strlit("white");
    assert("white"@[0] != "black"@[0]);
}

} // verus!
