//! What every command handler offers, and the two pieces of logic that
//! work over a list of handlers: picking the one that takes a message, and
//! assembling help text.

use crate::gc_name::GcName;
use crate::msg::Msg;
use crate::text::{chars_eq, chars_eq_str, chars_of, contains, has_infix, push_chars, push_str, split, split_on, string_of, views};
use vstd::prelude::*;
use vstd::string::*;

verus! {

/// A command handler: whether it takes a message, whether it is ready, its
/// name and its help text.
pub trait FnHandler: Sized {
    /// Whether the handler takes `msg`, given the game-center names table.
    spec fn spec_matches(&self, names: &GcName, msg: &Msg) -> bool;

    /// Whether the handler is enabled and ready.
    spec fn spec_status(&self) -> bool;

    /// The handler's display name.
    spec fn spec_name(&self) -> Seq<char>;

    /// The handler's help text for the query `helps`.
    spec fn spec_help(&self, helps: Seq<char>) -> Seq<char>;

    fn matches(&self, names: &GcName, msg: &Msg) -> (r: bool)
        ensures
            r == self.spec_matches(names, msg),
    ;

    fn status(&self) -> (r: bool)
        ensures
            r == self.spec_status(),
    ;

    fn name(&self) -> (r: String)
        ensures
            r@ == self.spec_name(),
    ;

    fn help(&self, helps: &str) -> (r: String)
        ensures
            r@ == self.spec_help(helps@),
    ;
}

/// A module that other handlers wait for.
pub trait ModHandler {
    fn name(&self) -> String;
}

/// The first handler of the list that is ready and takes the message.
pub open spec fn first_taker<H: FnHandler>(subs: Seq<H>, names: &GcName, msg: &Msg, i: int) -> bool {
    &&& 0 <= i < subs.len()
    &&& subs[i].spec_status() && subs[i].spec_matches(names, msg)
    &&& forall|j: int| 0 <= j < i ==> !((#[trigger] subs[j]).spec_status() && subs[j].spec_matches(names, msg))
}

/// The reply when no handler of a list takes the message.
pub open spec fn no_taker_text() -> Seq<char> {
    "参数有误，请检查参数"@
}

/// The index of the first handler that is ready and takes `msg`, or the
/// refusal when none does.
pub fn sub_match_process<H: FnHandler>(msg: &Msg, names: &GcName, handlers: &Vec<H>) -> (r: Result<usize, String>)
    ensures
        match r {
            Ok(i) => first_taker(handlers@, names, msg, i as int),
            Err(e) => e@ == no_taker_text() && forall|j: int|
                0 <= j < handlers@.len() ==> !((#[trigger] handlers@[j]).spec_status() && handlers@[j].spec_matches(names, msg)),
        },
{
    let mut i: usize = 0;
    while i < handlers.len()
        invariant
            i <= handlers.len(),
            forall|j: int| 0 <= j < i ==> !((#[trigger] handlers@[j]).spec_status() && handlers@[j].spec_matches(names, msg)),
        decreases handlers.len() - i,
    {
        if handlers[i].status() && handlers[i].matches(names, msg) {
            return Ok(i);
        }
        i = i + 1;
    }
    Err(String::from_str("参数有误，请检查参数"))
}

// ---------------------------------------------------------------------
// Help text
// ---------------------------------------------------------------------

/// One handler's help block.
pub open spec fn help_block<H: FnHandler>(h: H, piece: Seq<char>) -> Seq<char> {
    "<"@ + h.spec_name() + ">\n"@ + h.spec_help(piece) + "\n"@
}

/// The block of the first ready handler named `piece`, if any.
pub open spec fn first_block<H: FnHandler>(subs: Seq<H>, piece: Seq<char>) -> Seq<char>
    decreases subs.len(),
{
    if subs.len() == 0 {
        Seq::<char>::empty()
    } else if subs[0].spec_status() && subs[0].spec_name() == piece {
        help_block(subs[0], piece)
    } else {
        first_block(subs.drop_first(), piece)
    }
}

/// The blocks of all handlers.
pub open spec fn all_blocks<H: FnHandler>(subs: Seq<H>, piece: Seq<char>) -> Seq<char>
    decreases subs.len(),
{
    if subs.len() == 0 {
        Seq::<char>::empty()
    } else {
        all_blocks(subs.drop_last(), piece) + help_block(subs.last(), piece)
    }
}

/// The blocks for the queried pieces: every handler's block for each piece
/// when `all` is asked for, otherwise the first ready handler of each name.
pub open spec fn help_data<H: FnHandler>(pieces: Seq<Seq<char>>, subs: Seq<H>, all: bool) -> Seq<char>
    decreases pieces.len(),
{
    if pieces.len() == 0 {
        Seq::<char>::empty()
    } else {
        help_data(pieces.drop_last(), subs, all) + (if all {
            all_blocks(subs, pieces.last())
        } else {
            first_block(subs, pieces.last())
        })
    }
}

/// The names of the ready handlers other than `help`, one per line.
pub open spec fn names_listing<H: FnHandler>(subs: Seq<H>) -> Seq<char>
    decreases subs.len(),
{
    if subs.len() == 0 {
        Seq::<char>::empty()
    } else {
        names_listing(subs.drop_last()) + (if subs.last().spec_name() != "help"@ && subs.last().spec_status() {
            "\n"@ + subs.last().spec_name()
        } else {
            Seq::<char>::empty()
        })
    }
}

/// The end of the overview of a handler's sub-commands.
pub open spec fn sub_help_tail() -> Seq<char> {
    "\n>\n\n使用\n/help <主功能>-<子功能>...\n来查询子功能详细用法\neg:\n/help 机厅管理-添加-删除\n或者使用-all获取全部子项详细信息"@
}

/// Help for the sub-commands of a handler: `helps` is `<main>-<sub>-...`;
/// the blocks of the named sub-commands (of all of them with `all`), or,
/// when there are none, an overview of the ready sub-commands.
pub open spec fn sub_help_text<H: FnHandler>(helps: Seq<char>, subs: Seq<H>) -> Seq<char> {
    let pieces = split_on(helps, '-').drop_first();
    let data = help_data(pieces, subs, has_infix(helps, "all"@));
    if data.len() > 0 {
        data.drop_last()
    } else {
        let listing = names_listing(subs);
        ">"@ + (if listing.len() == 0 { "\n..."@ } else { listing }) + sub_help_tail()
    }
}

fn push_block<H: FnHandler>(v: &mut Vec<char>, h: &H, piece: &[char])
    ensures
        final(v)@ == old(v)@ + help_block(*h, piece@),
{
    let ghost start = v@;
    let name = h.name();
    let ps = string_of(piece);
    let text = h.help(ps.as_str());
    push_str(v, "<");
    push_str(v, name.as_str());
    push_str(v, ">\n");
    push_str(v, text.as_str());
    push_str(v, "\n");
    assert(v@ =~= start + help_block(*h, piece@));
}

proof fn lemma_help_block_ends<H: FnHandler>(h: H, p: Seq<char>)
    ensures
        help_block(h, p).len() > 0,
        help_block(h, p).last() == '\n',
{
    reveal_strlit("\n");
}

proof fn lemma_first_block_ends<H: FnHandler>(subs: Seq<H>, p: Seq<char>)
    ensures
        first_block(subs, p).len() > 0 ==> first_block(subs, p).last() == '\n',
    decreases subs.len(),
{
    if subs.len() > 0 {
        lemma_help_block_ends(subs[0], p);
        lemma_first_block_ends(subs.drop_first(), p);
    }
}

/// Help for the sub-commands of a handler.
pub fn sub_help<H: FnHandler>(helps: &str, handlers: &Vec<H>) -> (r: String)
    ensures
        r@ == sub_help_text(helps@, handlers@),
{
    proof {
        reveal_strlit("<");
        reveal_strlit(">\n");
        reveal_strlit("\n");
        reveal_strlit("help");
    }
    let hv = chars_of(helps);
    let pieces = split(hv.as_slice(), '-');
    let all = contains(hv.as_slice(), "all");
    let ghost ps = views(pieces@).drop_first();
    let mut data: Vec<char> = Vec::new();
    let mut k: usize = 1;
    proof {
        crate::text::lemma_split_len(helps@, '-');
        assert(ps.take(0) =~= Seq::<Seq<char>>::empty());
    }
    while k < pieces.len()
        invariant
            1 <= k <= pieces.len(),
            views(pieces@) == split_on(helps@, '-'),
            ps == views(pieces@).drop_first(),
            all == has_infix(helps@, "all"@),
            data@ == help_data(ps.take(k - 1), handlers@, all),
            data@.len() > 0 ==> data@.last() == '\n',
        decreases pieces.len() - k,
    {
        let piece = pieces[k].as_slice();
        let ghost before = data@;
        assert(ps[k - 1] == piece@);
        if all {
            let mut j: usize = 0;
            assert(handlers@.take(0) =~= Seq::<H>::empty());
            while j < handlers.len()
                invariant
                    j <= handlers.len(),
                    data@ == before + all_blocks(handlers@.take(j as int), piece@),
                    before.len() > 0 ==> before.last() == '\n',
                    data@.len() > 0 ==> data@.last() == '\n',
                decreases handlers.len() - j,
            {
                let ghost mid = data@;
                push_block(&mut data, &handlers[j], piece);
                proof {
                    lemma_help_block_ends(handlers@[j as int], piece@);
                }
                assert(handlers@.take(j + 1).drop_last() =~= handlers@.take(j as int));
                assert(data@ =~= before + all_blocks(handlers@.take(j + 1), piece@));
                j = j + 1;
            }
            assert(handlers@.take(handlers.len() as int) =~= handlers@);
        } else {
            let mut j: usize = 0;
            let mut found = false;
            assert(handlers@.skip(0) =~= handlers@);
            while j < handlers.len()
                invariant_except_break
                    !found,
                    data@ == before,
                invariant
                    j <= handlers.len(),
                    first_block(handlers@, piece@) == first_block(handlers@.skip(j as int), piece@),
                ensures
                    found ==> data@ == before + first_block(handlers@, piece@),
                    !found ==> data@ == before && j == handlers.len(),
                decreases handlers.len() - j,
            {
                let name = handlers[j].name();
                let nv = chars_of(name.as_str());
                assert(handlers@.skip(j as int)[0] == handlers@[j as int]);
                if handlers[j].status() && chars_eq(nv.as_slice(), piece) {
                    push_block(&mut data, &handlers[j], piece);
                    found = true;
                    break;
                }
                assert(handlers@.skip(j as int).len() > 0);
                assert(handlers@.skip(j as int).drop_first() =~= handlers@.skip(j + 1));
                j = j + 1;
            }
            if !found {
                assert(handlers@.skip(handlers.len() as int) =~= Seq::<H>::empty());
            } else {
                proof {
                    lemma_first_block_ends(handlers@, piece@);
                }
            }
        }
        proof {
            assert(ps.take(k as int).last() == ps[k - 1]);
            assert(ps.take(k as int).drop_last() =~= ps.take(k - 1));
        }
        assert(ps.take(k as int).drop_last() =~= ps.take(k - 1));
        k = k + 1;
    }
    assert(ps.take(pieces.len() - 1) =~= ps);
    if data.len() > 0 {
        let n = data.len() - 1;
        let trimmed = crate::text::slice_to_vec(data.as_slice(), 0, n);
        assert(trimmed@ =~= data@.drop_last());
        return string_of(trimmed.as_slice());
    }
    let mut out: Vec<char> = Vec::new();
    push_str(&mut out, ">");
    let mut listing: Vec<char> = Vec::new();
    let mut j: usize = 0;
    assert(handlers@.take(0) =~= Seq::<H>::empty());
    while j < handlers.len()
        invariant
            j <= handlers.len(),
            listing@ == names_listing(handlers@.take(j as int)),
        decreases handlers.len() - j,
    {
        let name = handlers[j].name();
        let nv = chars_of(name.as_str());
        let ghost before = listing@;
        if !chars_eq_str(nv.as_slice(), "help") && handlers[j].status() {
            push_str(&mut listing, "\n");
            push_chars(&mut listing, nv.as_slice());
        }
        assert(handlers@.take(j + 1).drop_last() =~= handlers@.take(j as int));
        assert(listing@ =~= names_listing(handlers@.take(j + 1)));
        j = j + 1;
    }
    assert(handlers@.take(handlers.len() as int) =~= handlers@);
    if listing.len() == 0 {
        push_str(&mut out, "\n...");
    } else {
        push_chars(&mut out, listing.as_slice());
    }
    push_str(&mut out, "\n>\n\n使用\n/help <主功能>-<子功能>...\n来查询子功能详细用法\neg:\n/help 机厅管理-添加-删除\n或者使用-all获取全部子项详细信息");
    string_of(out.as_slice())
}

} // verus!
