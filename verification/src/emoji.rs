//! `表情`: `<character>说 <text>` makes a sticker of a character saying
//! the text. Which character, which picture and where the text goes are
//! decided here; the drawing is done by the caller.

use crate::gc_name::GcName;
use crate::handler::FnHandler;
use crate::msg::Msg;
use crate::text::{chars_of, has_prefix, slice_to_vec, starts_with, string_of};
use vstd::prelude::*;
use vstd::string::*;

verus! {

/// The characters a sticker can show.
pub enum EmjSay {
    Mutsumi(()),
    Saki(()),
    Uika(()),
    Nyamu(()),
    Umiru(()),
    DS(()),
}

impl EmjSay {
    /// The words that ask for the character.
    pub open spec fn spec_prefix(&self) -> Seq<char> {
        match self {
            EmjSay::Mutsumi(_) => "睦说"@,
            EmjSay::Saki(_) => "祥子说"@,
            EmjSay::Uika(_) => "初华说"@,
            EmjSay::Nyamu(_) => "喵梦说"@,
            EmjSay::Umiru(_) => "海铃说"@,
            EmjSay::DS(_) => "鲸说"@,
        }
    }

    /// The name of the character's picture file.
    pub open spec fn spec_file_name(&self) -> Seq<char> {
        match self {
            EmjSay::Mutsumi(_) => "mutsumi"@,
            EmjSay::Saki(_) => "saki"@,
            EmjSay::Uika(_) => "uika"@,
            EmjSay::Nyamu(_) => "nyamu"@,
            EmjSay::Umiru(_) => "umiru"@,
            EmjSay::DS(_) => "DS"@,
        }
    }

    /// The words that ask for the character.
    pub fn prefix(&self) -> (r: &'static str)
        ensures
            r@ == self.spec_prefix(),
    {
        match self {
            EmjSay::Mutsumi(_) => "睦说",
            EmjSay::Saki(_) => "祥子说",
            EmjSay::Uika(_) => "初华说",
            EmjSay::Nyamu(_) => "喵梦说",
            EmjSay::Umiru(_) => "海铃说",
            EmjSay::DS(_) => "鲸说",
        }
    }

    /// The name of the character's picture file.
    pub fn file_name(&self) -> (r: String)
        ensures
            r@ == self.spec_file_name(),
    {
        match self {
            EmjSay::Mutsumi(_) => String::from_str("mutsumi"),
            EmjSay::Saki(_) => String::from_str("saki"),
            EmjSay::Uika(_) => String::from_str("uika"),
            EmjSay::Nyamu(_) => String::from_str("nyamu"),
            EmjSay::Umiru(_) => String::from_str("umiru"),
            EmjSay::DS(_) => String::from_str("DS"),
        }
    }

    /// Whether the text is set towards the left of the picture rather
    /// than centred (only for DS).
    pub fn left_aligned(&self) -> (r: bool)
        ensures
            r == (self is DS),
    {
        match self {
            EmjSay::DS(_) => true,
            _ => false,
        }
    }
}

/// The character a message asks for, by the first prefix it starts with.
pub open spec fn emj_of(raw: Seq<char>) -> Option<EmjSay> {
    if has_prefix(raw, "睦说"@) {
        Some(EmjSay::Mutsumi(()))
    } else if has_prefix(raw, "祥子说"@) {
        Some(EmjSay::Saki(()))
    } else if has_prefix(raw, "初华说"@) {
        Some(EmjSay::Uika(()))
    } else if has_prefix(raw, "喵梦说"@) {
        Some(EmjSay::Nyamu(()))
    } else if has_prefix(raw, "海铃说"@) {
        Some(EmjSay::Umiru(()))
    } else if has_prefix(raw, "鲸说"@) {
        Some(EmjSay::DS(()))
    } else {
        None
    }
}

/// The text the character says: what follows the prefix, without one
/// leading space; `请输入文本` when that is empty.
pub open spec fn emj_text(raw: Seq<char>, prefix: Seq<char>) -> Seq<char> {
    let t = raw.skip(prefix.len() as int);
    let t = if has_prefix(t, " "@) { t.drop_first() } else { t };
    if t.len() == 0 { "请输入文本"@ } else { t }
}

/// The character a message asks for.
pub fn emj_say_of(raw: &[char]) -> (r: Option<EmjSay>)
    ensures
        r == emj_of(raw@),
{
    if starts_with(raw, "睦说") {
        Some(EmjSay::Mutsumi(()))
    } else if starts_with(raw, "祥子说") {
        Some(EmjSay::Saki(()))
    } else if starts_with(raw, "初华说") {
        Some(EmjSay::Uika(()))
    } else if starts_with(raw, "喵梦说") {
        Some(EmjSay::Nyamu(()))
    } else if starts_with(raw, "海铃说") {
        Some(EmjSay::Umiru(()))
    } else if starts_with(raw, "鲸说") {
        Some(EmjSay::DS(()))
    } else {
        None
    }
}

/// Makes stickers of characters saying a text.
pub struct EmoMjk {
    pub status: bool,
    pub enable: bool,
}

impl EmoMjk {
    /// Ready once the font is loaded, when enabled.
    pub fn init(&mut self)
        ensures
            final(self).enable == old(self).enable,
            final(self).status == (old(self).status || old(self).enable),
    {
        if !self.enable {
            return;
        }
        self.status = true;
    }

    /// The character asked for and the text it says.
    pub fn prepare(&self, msg: &Msg) -> (r: (EmjSay, String))
        requires
            emj_of(msg.raw_message@) is Some,
        ensures
            Some(r.0) == emj_of(msg.raw_message@),
            r.1@ == emj_text(msg.raw_message@, r.0.spec_prefix()),
    {
        proof {
            reveal_strlit(" ");
            reveal_strlit("请输入文本");
        }
        let raw = chars_of(msg.raw_message.as_str());
        let who = match emj_say_of(raw.as_slice()) {
            Some(w) => w,
            None => EmjSay::Mutsumi(()),
        };
        let pl = chars_of(who.prefix()).len();
        let mut start = pl;
        if start < raw.len() && raw[start] == ' ' {
            start = start + 1;
        }
        let t = slice_to_vec(raw.as_slice(), start, raw.len());
        proof {
            let rest = msg.raw_message@.skip(pl as int);
            if pl < raw@.len() && raw@[pl as int] == ' ' {
                assert(rest.take(1) =~= " "@);
                assert(t@ =~= rest.drop_first());
            } else {
                assert(has_prefix(msg.raw_message@, who.spec_prefix()));
                assert(pl <= raw@.len());
                if pl < raw@.len() {
                    assert(rest.take(1)[0] == raw@[pl as int]);
                    assert(rest.take(1) != " "@);
                }
                assert(!has_prefix(rest, " "@));
                assert(t@ =~= rest);
            }
        }
        if t.len() == 0 {
            (who, String::from_str("请输入文本"))
        } else {
            (who, string_of(t.as_slice()))
        }
    }
}

impl FnHandler for EmoMjk {
    open spec fn spec_matches(&self, names: &GcName, msg: &Msg) -> bool {
        emj_of(msg.raw_message@) is Some
    }

    open spec fn spec_status(&self) -> bool {
        self.enable && self.status
    }

    open spec fn spec_name(&self) -> Seq<char> {
        "表情"@
    }

    open spec fn spec_help(&self, helps: Seq<char>) -> Seq<char> {
        "生成表情包，格式为<角色说><空格><文字内容>\n角色支持:\n睦/祥子/初华/喵梦/海铃/鲸(DS娘)\neg:\n睦说 好女孩"@
    }

    fn matches(&self, names: &GcName, msg: &Msg) -> (r: bool) {
        let raw = chars_of(msg.raw_message.as_str());
        emj_say_of(raw.as_slice()).is_some()
    }

    fn status(&self) -> (r: bool) {
        self.enable && self.status
    }

    fn help(&self, helps: &str) -> (r: String) {
        String::from_str("生成表情包，格式为<角色说><空格><文字内容>\n角色支持:\n睦/祥子/初华/喵梦/海铃/鲸(DS娘)\neg:\n睦说 好女孩")
    }

    fn name(&self) -> (r: String) {
        String::from_str("表情")
    }
}

/// The character a sticker shows is the one whose words the message
/// starts with: a pick starts the message with the character's words, and
/// a message that starts with a character's words picks that character.
pub proof fn law_sticker_shows_the_named_character(raw: Seq<char>, c: EmjSay)
    ensures
        emj_of(raw) matches Some(d) ==> has_prefix(raw, d.spec_prefix()),
        has_prefix(raw, c.spec_prefix()) ==> emj_of(raw) == Some(c),
{
    reveal_strlit("睦说");
    reveal_strlit("祥子说");
    reveal_strlit("初华说");
    reveal_strlit("喵梦说");
    reveal_strlit("海铃说");
    reveal_strlit("鲸说");
    if has_prefix(raw, c.spec_prefix()) {
        assert(raw[0] == c.spec_prefix()[0]);
    }
}

} // verus!
