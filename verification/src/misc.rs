//! The small message handlers: `test`, `娱乐` and `help`.

use crate::gc_name::GcName;
use crate::gcm::{plain_reply, post_text};
use crate::handler::{names_listing, FnHandler};
use crate::msg::Msg;
use crate::reply::Post;
use crate::text::{
    chars_eq_str, chars_of, contains, has_infix, has_prefix, push_chars, push_str, split, split_on, starts_with,
    string_of, views,
};
use vstd::prelude::*;
use vstd::string::*;

verus! {

// ---------------------------------------------------------------------
// test
// ---------------------------------------------------------------------

/// Answers `test` with an error, to try the error path.
pub struct Test {
    pub status: bool,
}

impl Test {
    /// Nothing to prepare: the handler is always ready.
    pub fn init(&mut self)
        ensures
            final(self).status == old(self).status,
    {
    }

    /// Always the test error.
    pub fn process(&self, msg: &Msg) -> (r: Result<(), String>)
        ensures
            r matches Err(e) && e@ == "test err"@,
    {
        Err(String::from_str("test err"))
    }
}

impl FnHandler for Test {
    open spec fn spec_matches(&self, names: &GcName, msg: &Msg) -> bool {
        msg.raw_message@ == "test"@
    }

    open spec fn spec_status(&self) -> bool {
        true
    }

    open spec fn spec_name(&self) -> Seq<char> {
        "test"@
    }

    open spec fn spec_help(&self, helps: Seq<char>) -> Seq<char> {
        "测试使用"@
    }

    fn matches(&self, names: &GcName, msg: &Msg) -> (r: bool) {
        let raw = chars_of(msg.raw_message.as_str());
        chars_eq_str(raw.as_slice(), "test")
    }

    fn status(&self) -> (r: bool) {
        true
    }

    fn help(&self, helps: &str) -> (r: String) {
        String::from_str("测试使用")
    }

    fn name(&self) -> (r: String) {
        String::from_str("test")
    }
}

// ---------------------------------------------------------------------
// 娱乐
// ---------------------------------------------------------------------

/// Small jokes: complains when a QQ farm card is shared.
pub struct Play {
    pub status: bool,
}

impl Play {
    /// Nothing to prepare: the handler is always ready.
    pub fn init(&mut self)
        ensures
            final(self).status == old(self).status,
    {
    }

    /// The two complaints, in order.
    pub fn process(&self, msg: &Msg) -> (r: ((Post, Option<Msg>), (Post, Option<Msg>)))
        ensures
            (r.0).0.endpoint@ == "/send_msg"@,
            post_text((r.0).0) == "不许给我转QQ农场喵"@,
            (r.1).0.endpoint@ == "/send_msg"@,
            post_text((r.1).0) == "本喵会不开心的喵"@,
    {
        let first = plain_reply(String::from_str("不许给我转QQ农场喵")).send_msg(msg);
        let second = plain_reply(String::from_str("本喵会不开心的喵")).send_msg(msg);
        (first, second)
    }
}

impl FnHandler for Play {
    open spec fn spec_matches(&self, names: &GcName, msg: &Msg) -> bool {
        has_infix(msg.raw_message@, "title\":\"QQ经典农场"@)
    }

    open spec fn spec_status(&self) -> bool {
        true
    }

    open spec fn spec_name(&self) -> Seq<char> {
        "娱乐"@
    }

    open spec fn spec_help(&self, helps: Seq<char>) -> Seq<char> {
        "娱乐功能，或许会有一些小彩蛋"@
    }

    fn matches(&self, names: &GcName, msg: &Msg) -> (r: bool) {
        let raw = chars_of(msg.raw_message.as_str());
        contains(raw.as_slice(), "title\":\"QQ经典农场")
    }

    fn status(&self) -> (r: bool) {
        true
    }

    fn help(&self, helps: &str) -> (r: String) {
        String::from_str("娱乐功能，或许会有一些小彩蛋")
    }

    fn name(&self) -> (r: String) {
        String::from_str("娱乐")
    }
}

// ---------------------------------------------------------------------
// help
// ---------------------------------------------------------------------

/// `/help [name...]`: the help of the named handlers, or an overview.
pub struct Help {
    pub status: bool,
}

/// The end of the overview of all handlers.
pub open spec fn help_overview_tail() -> Seq<char> {
    "\n>\n\n使用\n/help name1 name2...\n查询对应功能帮助列表\neg:\n/help test 表情"@
}

/// The overview: the names of the ready handlers other than `help`.
pub open spec fn help_overview<H: FnHandler>(subs: Seq<H>) -> Seq<char> {
    ">"@ + names_listing(subs) + help_overview_tail()
}

/// The entry for a queried word: the first ready handler whose name the
/// word starts with (a word starting with `help` asks for none).
pub open spec fn help_entry<H: FnHandler>(subs: Seq<H>, piece: Seq<char>) -> Option<Seq<char>>
    decreases subs.len(),
{
    if subs.len() == 0 {
        None
    } else if !has_prefix(piece, "help"@) && subs[0].spec_status() && has_prefix(piece, subs[0].spec_name()) {
        Some("\n\n["@ + subs[0].spec_name() + "]\n"@ + subs[0].spec_help(piece))
    } else {
        help_entry(subs.drop_first(), piece)
    }
}

/// The entries found for the queried words, in order.
pub open spec fn help_found<H: FnHandler>(subs: Seq<H>, pieces: Seq<Seq<char>>) -> Seq<char>
    decreases pieces.len(),
{
    if pieces.len() == 0 {
        Seq::<char>::empty()
    } else {
        help_found(subs, pieces.drop_last()) + match help_entry(subs, pieces.last()) {
            Some(e) => e,
            None => Seq::<char>::empty(),
        }
    }
}

/// The queried words with no entry, each after a space.
pub open spec fn help_missing<H: FnHandler>(subs: Seq<H>, pieces: Seq<Seq<char>>) -> Seq<char>
    decreases pieces.len(),
{
    if pieces.len() == 0 {
        Seq::<char>::empty()
    } else {
        help_missing(subs, pieces.drop_last()) + match help_entry(subs, pieces.last()) {
            Some(_) => Seq::<char>::empty(),
            None => " "@ + pieces.last(),
        }
    }
}

/// The reply to `/help w1 w2 ...`: the entries of the words (the overview
/// when there is none), then the words that have none.
pub open spec fn help_reply_text<H: FnHandler>(subs: Seq<H>, raw: Seq<char>) -> Seq<char> {
    let pieces = split_on(raw, ' ').drop_first();
    let found = help_found(subs, pieces);
    let data = if found.len() == 0 { "\n\n"@ + help_overview(subs) } else { found };
    let missing = help_missing(subs, pieces);
    "[ help list ]"@ + data + (if missing.len() == 0 { Seq::<char>::empty() } else { "\n未找到帮助项:"@ + missing })
}

fn entry_of<H: FnHandler>(handlers: &Vec<H>, piece: &[char]) -> (r: Option<String>)
    ensures
        match r {
            Some(e) => help_entry(handlers@, piece@) == Some(e@),
            None => help_entry(handlers@, piece@) is None,
        },
{
    let is_help = starts_with(piece, "help");
    let mut j: usize = 0;
    assert(handlers@.skip(0) =~= handlers@);
    while j < handlers.len()
        invariant
            j <= handlers.len(),
            is_help == has_prefix(piece@, "help"@),
            help_entry(handlers@, piece@) == help_entry(handlers@.skip(j as int), piece@),
        decreases handlers.len() - j,
    {
        let ghost rest = handlers@.skip(j as int);
        assert(rest[0] == handlers@[j as int]);
        assert(rest.drop_first() =~= handlers@.skip(j + 1));
        let name = handlers[j].name();
        let nv = chars_of(name.as_str());
        let ns = string_of(nv.as_slice());
        if !is_help && handlers[j].status() && starts_with(piece, ns.as_str()) {
            let ps = string_of(piece);
            let text = handlers[j].help(ps.as_str());
            let mut v: Vec<char> = Vec::new();
            push_str(&mut v, "\n\n[");
            push_str(&mut v, name.as_str());
            push_str(&mut v, "]\n");
            push_str(&mut v, text.as_str());
            assert(v@ =~= "\n\n["@ + handlers@[j as int].spec_name() + "]\n"@ + handlers@[j as int].spec_help(piece@));
            return Some(string_of(v.as_slice()));
        }
        j = j + 1;
    }
    assert(handlers@.skip(handlers.len() as int) =~= Seq::<H>::empty());
    None
}

impl Help {
    /// Nothing to prepare: the handler is always ready.
    pub fn init(&mut self)
        ensures
            final(self).status == old(self).status,
    {
    }

    /// The overview of the handlers.
    pub fn overview<H: FnHandler>(&self, handlers: &Vec<H>) -> (r: String)
        ensures
            r@ == help_overview(handlers@),
    {
        let mut listing: Vec<char> = Vec::new();
        let mut j: usize = 0;
        assert(handlers@.take(0) =~= Seq::<H>::empty());
        while j < handlers.len()
            invariant
                j <= handlers.len(),
                listing@ == names_listing(handlers@.take(j as int)),
            decreases handlers.len() - j,
        {
            let name = handlers[j].name();
            let nv = chars_of(name.as_str());
            if !chars_eq_str(nv.as_slice(), "help") && handlers[j].status() {
                push_str(&mut listing, "\n");
                push_chars(&mut listing, nv.as_slice());
            }
            assert(handlers@.take(j + 1).drop_last() =~= handlers@.take(j as int));
            j = j + 1;
        }
        assert(handlers@.take(handlers.len() as int) =~= handlers@);
        let mut out: Vec<char> = Vec::new();
        push_str(&mut out, ">");
        push_chars(&mut out, listing.as_slice());
        push_str(&mut out, "\n>\n\n使用\n/help name1 name2...\n查询对应功能帮助列表\neg:\n/help test 表情");
        assert(out@ =~= help_overview(handlers@));
        string_of(out.as_slice())
    }

    /// The reply to `/help ...`, given the list of handlers.
    pub fn process<H: FnHandler>(&self, msg: &Msg, handlers: &Vec<H>) -> (r: (Post, Option<Msg>))
        ensures
            r.0.endpoint@ == "/send_msg"@,
            post_text(r.0) == help_reply_text(handlers@, msg.raw_message@),
    {
        let raw = chars_of(msg.raw_message.as_str());
        let words = split(raw.as_slice(), ' ');
        let ghost pieces = split_on(msg.raw_message@, ' ').drop_first();
        proof {
            crate::text::lemma_split_len(msg.raw_message@, ' ');
        }
        let mut found: Vec<char> = Vec::new();
        let mut missing: Vec<char> = Vec::new();
        let mut k: usize = 1;
        assert(pieces.take(0) =~= Seq::<Seq<char>>::empty());
        while k < words.len()
            invariant
                1 <= k <= words.len(),
                views(words@) == split_on(msg.raw_message@, ' '),
                pieces == views(words@).drop_first(),
                found@ == help_found(handlers@, pieces.take(k - 1)),
                missing@ == help_missing(handlers@, pieces.take(k - 1)),
            decreases words.len() - k,
        {
            let piece = words[k].as_slice();
            assert(pieces[k - 1] == piece@);
            assert(pieces.take(k as int).drop_last() =~= pieces.take(k - 1));
            assert(pieces.take(k as int).last() == piece@);
            match entry_of(handlers, piece) {
                Some(e) => {
                    push_str(&mut found, e.as_str());
                },
                None => {
                    push_str(&mut missing, " ");
                    push_chars(&mut missing, piece);
                },
            }
            k = k + 1;
        }
        assert(pieces.take(words.len() - 1) =~= pieces);
        let mut text: Vec<char> = Vec::new();
        push_str(&mut text, "[ help list ]");
        if found.len() == 0 {
            push_str(&mut text, "\n\n");
            let o = self.overview(handlers);
            push_str(&mut text, o.as_str());
        } else {
            push_chars(&mut text, found.as_slice());
        }
        if missing.len() != 0 {
            push_str(&mut text, "\n未找到帮助项:");
            push_chars(&mut text, missing.as_slice());
        }
        assert(text@ =~= help_reply_text(handlers@, msg.raw_message@));
        plain_reply(string_of(text.as_slice())).send_msg(msg)
    }
}

impl FnHandler for Help {
    open spec fn spec_matches(&self, names: &GcName, msg: &Msg) -> bool {
        has_prefix(msg.raw_message@, "/help"@)
    }

    open spec fn spec_status(&self) -> bool {
        true
    }

    open spec fn spec_name(&self) -> Seq<char> {
        "help"@
    }

    /// Without the list of handlers the overview lists none;
    /// [`Help::overview`] gives it for a list.
    open spec fn spec_help(&self, helps: Seq<char>) -> Seq<char> {
        ">"@ + help_overview_tail()
    }

    fn matches(&self, names: &GcName, msg: &Msg) -> (r: bool) {
        let raw = chars_of(msg.raw_message.as_str());
        starts_with(raw.as_slice(), "/help")
    }

    fn status(&self) -> (r: bool) {
        true
    }

    fn help(&self, helps: &str) -> (r: String) {
        let mut out: Vec<char> = Vec::new();
        push_str(&mut out, ">");
        push_str(&mut out, "\n>\n\n使用\n/help name1 name2...\n查询对应功能帮助列表\neg:\n/help test 表情");
        string_of(out.as_slice())
    }

    fn name(&self) -> (r: String) {
        String::from_str("help")
    }
}

} // verus!
