//! Picture commands: `生成表情包` applies a list of edits named after the
//! picture (`怀念` or `遗照`, `镜像上/下/左/右`, `反色`), `图片镜像` mirrors one half of a
//! picture. The words of the command, where the picture comes from, the
//! pixel edits and the reply are decided here; fetching, decoding and the
//! animated-picture pipeline are done by the caller.

use crate::gc_name::GcName;
use crate::gcm::{post_text, quoted};
use crate::handler::FnHandler;
use crate::image::{invert, inverted, mirror, mirrored, Mirror, RgbaImage};
use crate::msg::Msg;
use crate::reply::{code, Post, SendMsg};
use crate::text::{
    chars_eq_str, chars_of, contains, has_infix, has_prefix, index_of, index_of_str, rfind_char, slice_to_vec,
    split, split_on, starts_with, string_of, views,
};
use vstd::prelude::*;
use vstd::string::*;

verus! {

// ---------------------------------------------------------------------
// Outside calls: PNG encoding and base64
// ---------------------------------------------------------------------

/// The PNG file that the `image` crate writes for an 8-bit RGBA buffer,
/// or the text of its error.
pub uninterp spec fn png_encoded(width: u32, height: u32, pixels: Seq<u8>) -> Result<Seq<u8>, Seq<char>>;

/// The standard base64 alphabet: the character of each six-bit value.
pub open spec fn base64_alphabet() -> Seq<char> {
    "ABCDEFGHIJKLMNOPQRSTUVWXYZabcdefghijklmnopqrstuvwxyz0123456789+/"@
}

/// The four characters of a group of one to three bytes: the bytes read as
/// one big-endian number of 24 bits (missing bytes as zero), cut into four
/// six-bit values; the characters that only missing bytes fill are `=`.
pub open spec fn base64_group(b: Seq<u8>) -> Seq<char> {
    let b1: int = if b.len() > 1 { b[1] as int } else { 0 };
    let b2: int = if b.len() > 2 { b[2] as int } else { 0 };
    let n: int = (b[0] as int) * 65536 + b1 * 256 + b2;
    let a = base64_alphabet();
    seq![
        a[n / 262144],
        a[(n / 4096) % 64],
        if b.len() > 1 { a[(n / 64) % 64] } else { '=' },
        if b.len() > 2 { a[n % 64] } else { '=' },
    ]
}

/// The padded standard base64 text of some bytes: the groups of three
/// bytes in order, the last one possibly shorter.
pub open spec fn base64_text(bytes: Seq<u8>) -> Seq<char>
    decreases bytes.len(),
{
    if bytes.len() == 0 {
        Seq::empty()
    } else if bytes.len() <= 3 {
        base64_group(bytes)
    } else {
        base64_group(bytes.take(3)) + base64_text(bytes.skip(3))
    }
}

/// The text has four characters for every three bytes or part of three.
pub proof fn lemma_base64_len(bytes: Seq<u8>)
    ensures
        base64_text(bytes).len() == 4 * ((bytes.len() + 2) / 3),
    decreases bytes.len(),
{
    if bytes.len() > 3 {
        lemma_base64_len(bytes.skip(3));
    }
}

/// A `Result` of bytes or error text, as plain values.
pub open spec fn bytes_or_text(r: Result<Vec<u8>, String>) -> Result<Seq<u8>, Seq<char>> {
    match r {
        Ok(v) => Ok(v@),
        Err(e) => Err(e@),
    }
}

/// `image::codecs::png::PngEncoder::write_image` with `Rgba8` into a
/// fresh buffer: the PNG file of the picture or the text of the error, a
/// function of its arguments alone. It panics when the buffer length does
/// not match the size, which `requires` rules out.
#[verifier::external_body]
fn png_encode(width: u32, height: u32, pixels: &[u8]) -> (r: Result<Vec<u8>, String>)
    requires
        pixels@.len() == 4 * (width as int) * (height as int),
    ensures
        bytes_or_text(r) == png_encoded(width, height, pixels@),
{
    let mut out: Vec<u8> = Vec::new();
    let encoder = image::codecs::png::PngEncoder::new(&mut out);
    match image::ImageEncoder::write_image(encoder, pixels, width, height, image::ExtendedColorType::Rgba8) {
        Ok(()) => Ok(out),
        Err(e) => Err(e.to_string()),
    }
}

/// `base64::engine::general_purpose::STANDARD.encode`: the padded
/// standard base64 text of the bytes (RFC 4648, standard alphabet, `=`
/// padding). A slice never holds enough bytes to overflow the length
/// computation, so it does not panic.
#[verifier::external_body]
fn base64_encode(bytes: &[u8]) -> (r: String)
    ensures
        r@ == base64_text(bytes@),
{
    base64::Engine::encode(&base64::engine::general_purpose::STANDARD, bytes)
}

/// Whether the `image` crate takes some bytes for a GIF file (`Ok(false)`
/// for another format it knows), or the text of its error.
pub uninterp spec fn format_is_gif(bytes: Seq<u8>) -> Result<bool, Seq<char>>;

/// The picture the `image` crate decodes from some bytes, as width,
/// height and 8-bit RGBA pixels, or the text of its error.
pub uninterp spec fn decoded_rgba(bytes: Seq<u8>) -> Result<(u32, u32, Seq<u8>), Seq<char>>;

/// A decoded picture or error text, as plain values.
pub open spec fn picture_or_text(r: Result<RgbaImage, String>) -> Result<(u32, u32, Seq<u8>), Seq<char>> {
    match r {
        Ok(p) => Ok((p.width, p.height, p.pixels@)),
        Err(e) => Err(e@),
    }
}

/// A format guess or error text, as plain values.
pub open spec fn flag_or_text(r: Result<bool, String>) -> Result<bool, Seq<char>> {
    match r {
        Ok(b) => Ok(b),
        Err(e) => Err(e@),
    }
}

/// `image::guess_format`, compared with `ImageFormat::Gif`: a function of
/// the bytes alone (it reads their first bytes).
#[verifier::external_body]
fn guess_gif(bytes: &[u8]) -> (r: Result<bool, String>)
    ensures
        flag_or_text(r) == format_is_gif(bytes@),
{
    match image::guess_format(bytes) {
        Ok(image::ImageFormat::Gif) => Ok(true),
        Ok(_) => Ok(false),
        Err(e) => Err(e.to_string()),
    }
}

/// `image::load_from_memory` (guess the format, then decode) and
/// `to_rgba8`: a function of the bytes alone; an `ImageBuffer` holds four
/// bytes per pixel.
#[verifier::external_body]
fn decode_rgba(bytes: &[u8]) -> (r: Result<RgbaImage, String>)
    ensures
        picture_or_text(r) == decoded_rgba(bytes@),
        r matches Ok(p) ==> p.well_formed(),
{
    match image::load_from_memory(bytes) {
        Ok(img) => {
            let buf = img.to_rgba8();
            let (width, height) = buf.dimensions();
            Ok(RgbaImage { width, height, pixels: buf.into_raw() })
        },
        Err(e) => Err(e.to_string()),
    }
}

/// What a fetched picture is: `Ok(None)` for an animated GIF, which is
/// edited frame by frame; the decoded picture otherwise; or the error of
/// the format guess or of decoding.
pub open spec fn picture_kind(bytes: Seq<u8>) -> Result<Option<(u32, u32, Seq<u8>)>, Seq<char>> {
    match format_is_gif(bytes) {
        Err(e) => Err(e),
        Ok(true) => Ok(None),
        Ok(false) => match decoded_rgba(bytes) {
            Ok(p) => Ok(Some(p)),
            Err(e) => Err(e),
        },
    }
}

/// Tells an animated GIF from a still picture, and decodes the latter. A
/// still picture is held as 8-bit RGBA whatever colour type its file had,
/// and the PNG written from it later is 8-bit RGBA too.
pub fn read_picture(bytes: &[u8]) -> (r: Result<Option<RgbaImage>, String>)
    ensures
        match r {
            Ok(Some(p)) => p.well_formed() && picture_kind(bytes@) == Ok::<Option<(u32, u32, Seq<u8>)>, Seq<char>>(
                Some((p.width, p.height, p.pixels@)),
            ),
            Ok(None) => picture_kind(bytes@) == Ok::<Option<(u32, u32, Seq<u8>)>, Seq<char>>(None),
            Err(e) => picture_kind(bytes@) == Err::<Option<(u32, u32, Seq<u8>)>, Seq<char>>(e@),
        },
{
    match guess_gif(bytes) {
        Err(e) => Err(e),
        Ok(true) => Ok(None),
        Ok(false) => match decode_rgba(bytes) {
            Ok(p) => Ok(Some(p)),
            Err(e) => Err(e),
        },
    }
}

/// The base64 text of some bytes.
pub fn base64_of(bytes: &[u8]) -> (r: String)
    ensures
        r@ == base64_text(bytes@),
        r@.len() == 4 * ((bytes@.len() + 2) / 3),
{
    proof {
        lemma_base64_len(bytes@);
    }
    base64_encode(bytes)
}

/// The picture as the base64 text of its PNG file.
pub fn img_to_base64(pic: &RgbaImage) -> (r: Result<String, String>)
    requires
        pic.well_formed(),
    ensures
        match png_encoded(pic.width, pic.height, pic.pixels@) {
            Ok(png) => r matches Ok(t) && t@ == base64_text(png),
            Err(e) => r matches Err(t) && t@ == e,
        },
{
    match png_encode(pic.width, pic.height, pic.pixels.as_slice()) {
        Ok(png) => Ok(base64_encode(png.as_slice())),
        Err(e) => Err(e),
    }
}

/// The reference to a picture given as base64 data.
pub open spec fn base64_ref(b64: Seq<char>) -> Seq<char> {
    "base64://"@ + b64
}

/// The reference to a picture given as base64 data.
pub fn base64_picture(b64: &String) -> (r: String)
    ensures
        r@ == base64_ref(b64@),
{
    let mut v: Vec<char> = Vec::new();
    crate::text::push_str(&mut v, "base64://");
    crate::text::push_str(&mut v, b64.as_str());
    string_of(v.as_slice())
}

/// The text of a reply carrying a made picture: a quote, the picture and
/// the time it took.
pub open spec fn picture_text(msg: &Msg, pic: Seq<char>, elapsed: Seq<char>) -> Seq<char> {
    quoted(msg, "[CQ:image,file="@ + pic + "]"@ + "耗时:"@ + elapsed)
}

/// The reply carrying a made picture, given by path or as `base64://`
/// data.
pub fn picture_reply(msg: &Msg, pic: &String, elapsed: &String) -> (r: (Post, Option<Msg>))
    ensures
        r.0.endpoint@ == "/send_msg"@,
        post_text(r.0) == picture_text(msg, pic@, elapsed@),
{
    let mut rep = SendMsg::new();
    rep.join_reply(msg.message_id);
    rep.join_image(pic.clone());
    let mut t: Vec<char> = Vec::new();
    crate::text::push_str(&mut t, "耗时:");
    crate::text::push_str(&mut t, elapsed.as_str());
    rep.join_text(string_of(t.as_slice()));
    assert(rep.message@ =~= picture_text(msg, pic@, elapsed@));
    rep.send_msg(msg)
}

// ---------------------------------------------------------------------
// Where the picture comes from
// ---------------------------------------------------------------------

/// The text between the first `open` and the first `close` of `s`, when
/// both occur in that order.
pub open spec fn between(s: Seq<char>, open: Seq<char>, close: Seq<char>) -> Option<Seq<char>> {
    match (index_of(s, open), index_of(s, close)) {
        (Some(a), Some(b)) => if a + open.len() <= b {
            Some(s.subrange(a + open.len(), b))
        } else {
            None
        },
        _ => None,
    }
}

fn between_of(s: &[char], open: &str, close: &str) -> (r: Option<String>)
    ensures
        match r {
            Some(t) => between(s@, open@, close@) == Some(t@),
            None => between(s@, open@, close@) is None,
        },
{
    let a = match index_of_str(s, open) {
        Some(a) => a,
        None => {
            return None;
        },
    };
    let b = match index_of_str(s, close) {
        Some(b) => b,
        None => {
            return None;
        },
    };
    let ol = chars_of(open).len();
    if ol <= b && a <= b - ol {
        Some(string_of(slice_to_vec(s, a + ol, b).as_slice()))
    } else {
        None
    }
}

/// Where the picture of a command is.
pub enum ImgSource {
    /// In the message with this id, which the command quotes.
    Reply(String),
    /// In the command itself: the file id of its picture.
    File(String),
}

/// The file id of the picture in a message text: what stands between
/// `,file=` and `,sub_type=`.
pub open spec fn file_id_spec(raw: Seq<char>) -> Option<Seq<char>> {
    between(raw, ",file="@, ",sub_type="@)
}

/// Where the picture is: the quoted message for a reply, the file id for
/// a picture sent with the command; `Err` when there is neither; `Ok(None)`
/// when the code that names it is cut short.
pub open spec fn img_source_spec(raw: Seq<char>) -> Result<Option<(bool, Seq<char>)>, Seq<char>> {
    if has_prefix(raw, "[CQ:reply,id="@) {
        match between(raw, "[CQ:reply,id="@, "]"@) {
            Some(id) => Ok(Some((true, id))),
            None => Ok(None),
        }
    } else if has_infix(raw, "[CQ:image,file="@) || has_infix(raw, "[CQ:image,summary="@) {
        match file_id_spec(raw) {
            Some(id) => Ok(Some((false, id))),
            None => Ok(None),
        }
    } else {
        Err("未找到图片id"@)
    }
}

/// The file id of the picture in a message text, if its code is whole.
pub fn file_id(raw: &str) -> (r: Option<String>)
    ensures
        match r {
            Some(t) => file_id_spec(raw@) == Some(t@),
            None => file_id_spec(raw@) is None,
        },
{
    let s = chars_of(raw);
    between_of(s.as_slice(), ",file=", ",sub_type=")
}

/// Where the picture of a command is (the first step of looking up its
/// address).
pub fn get_img_id(raw: &str) -> (r: Result<Option<ImgSource>, String>)
    ensures
        match r {
            Ok(Some(ImgSource::Reply(id))) => img_source_spec(raw@) == Ok::<Option<(bool, Seq<char>)>, Seq<char>>(
                Some((true, id@)),
            ),
            Ok(Some(ImgSource::File(id))) => img_source_spec(raw@) == Ok::<Option<(bool, Seq<char>)>, Seq<char>>(
                Some((false, id@)),
            ),
            Ok(None) => img_source_spec(raw@) == Ok::<Option<(bool, Seq<char>)>, Seq<char>>(None),
            Err(e) => img_source_spec(raw@) == Err::<Option<(bool, Seq<char>)>, Seq<char>>(e@),
        },
{
    let s = chars_of(raw);
    if starts_with(s.as_slice(), "[CQ:reply,id=") {
        return match between_of(s.as_slice(), "[CQ:reply,id=", "]") {
            Some(id) => Ok(Some(ImgSource::Reply(id))),
            None => Ok(None),
        };
    }
    if contains(s.as_slice(), "[CQ:image,file=") || contains(s.as_slice(), "[CQ:image,summary=") {
        return match between_of(s.as_slice(), ",file=", ",sub_type=") {
            Some(id) => Ok(Some(ImgSource::File(id))),
            None => Ok(None),
        };
    }
    Err(String::from_str("未找到图片id"))
}

// ---------------------------------------------------------------------
// The mirror side named in a text
// ---------------------------------------------------------------------

/// The side named in `s`: `左`, then `右`, then `上`, then `下`.
pub open spec fn mirror_of(s: Seq<char>) -> Option<Mirror> {
    if has_infix(s, "左"@) {
        Some(Mirror::Left)
    } else if has_infix(s, "右"@) {
        Some(Mirror::Right)
    } else if has_infix(s, "上"@) {
        Some(Mirror::Up)
    } else if has_infix(s, "下"@) {
        Some(Mirror::Down)
    } else {
        None
    }
}

fn mirror_side(s: &[char]) -> (r: Option<Mirror>)
    ensures
        r == mirror_of(s@),
{
    if contains(s, "左") {
        Some(Mirror::Left)
    } else if contains(s, "右") {
        Some(Mirror::Right)
    } else if contains(s, "上") {
        Some(Mirror::Up)
    } else if contains(s, "下") {
        Some(Mirror::Down)
    } else {
        None
    }
}

/// The bytes of a picture mirrored along the side named in `s`, or kept
/// when none is named.
pub open spec fn mirrored_by(s: Seq<char>, w: int, h: int, px: Seq<u8>) -> Seq<u8> {
    match mirror_of(s) {
        Some(d) => mirrored(d, w, h, px),
        None => px,
    }
}

fn mirror_by(s: &[char], img: &RgbaImage) -> (r: RgbaImage)
    requires
        img.well_formed(),
    ensures
        r.well_formed(),
        r.width == img.width,
        r.height == img.height,
        r.pixels@ == mirrored_by(s@, img.width as int, img.height as int, img.pixels@),
{
    match mirror_side(s) {
        Some(d) => mirror(img, d),
        None => RgbaImage { width: img.width, height: img.height, pixels: img.pixels.clone() },
    }
}

// ---------------------------------------------------------------------
// 生成表情包: a list of edits
// ---------------------------------------------------------------------

/// One edit named after the picture.
pub enum ProcessEnum {
    /// A word that names no edit.
    Keep,
    /// `怀念` or `遗照`: a grey portrait in a mourning frame.
    Die,
    /// `镜像上/下/左/右`: the named half mirrored onto the other.
    Mirror(String),
    /// `反色`: the colours inverted.
    Invert,
}

/// The words that name a mirroring.
pub open spec fn is_mirror_word(w: Seq<char>) -> bool {
    w == "镜像上"@ || w == "镜像下"@ || w == "镜像左"@ || w == "镜像右"@
}

/// The words that name the mourning frame.
pub open spec fn is_mourning_word(w: Seq<char>) -> bool {
    w == "怀念"@ || w == "遗照"@
}

/// The words that name an edit.
pub open spec fn is_edit_word(w: Seq<char>) -> bool {
    is_mourning_word(w) || is_mirror_word(w) || w == "反色"@
}

/// `p` is the edit that word `w` names.
pub open spec fn way_of(p: ProcessEnum, w: Seq<char>) -> bool {
    match p {
        ProcessEnum::Die => is_mourning_word(w),
        ProcessEnum::Mirror(s) => s@ == w && is_mirror_word(w),
        ProcessEnum::Invert => w == "反色"@,
        ProcessEnum::Keep => !is_edit_word(w),
    }
}

/// The words after the last `]` of a text, split on spaces.
pub open spec fn tail_words(raw: Seq<char>, last: int) -> Seq<Seq<char>> {
    split_on(raw.skip(last + 1), ' ')
}

/// The position of the last `]`.
pub open spec fn last_bracket(raw: Seq<char>, i: int) -> bool {
    0 <= i < raw.len() && raw[i] == ']' && forall|j: int| i < j < raw.len() ==> raw[j] != ']'
}

/// `生成表情包` takes a picture (sent or quoted) followed by words among
/// which one names an edit; the bot's own echoes are left alone.
pub open spec fn photo_matches(raw: Seq<char>) -> bool {
    &&& !has_prefix(raw, "[bot_msg]"@)
    &&& exists|i: int| #[trigger] last_bracket(raw, i) && exists|k: int|
        0 <= k < tail_words(raw, i).len() && is_edit_word(#[trigger] tail_words(raw, i)[k])
    &&& has_infix(raw, "[CQ:image,"@) || has_infix(raw, "[CQ:reply,id="@)
}

fn is_edit_word_of(w: &[char]) -> (r: bool)
    ensures
        r == is_edit_word(w@),
{
    chars_eq_str(w, "怀念") || chars_eq_str(w, "遗照") || chars_eq_str(w, "镜像上") || chars_eq_str(w, "镜像下") || chars_eq_str(w, "镜像左")
        || chars_eq_str(w, "镜像右") || chars_eq_str(w, "反色")
}

/// The words after the last `]`.
fn words_after_bracket(s: &[char]) -> (r: Option<(usize, Vec<Vec<char>>)>)
    ensures
        match r {
            Some((i, w)) => last_bracket(s@, i as int) && views(w@) == tail_words(s@, i as int),
            None => forall|j: int| 0 <= j < s@.len() ==> s@[j] != ']',
        },
{
    match rfind_char(s, ']') {
        Some(i) => {
            let rest = slice_to_vec(s, i + 1, s.len());
            assert(rest@ =~= s@.skip(i + 1));
            Some((i, split(rest.as_slice(), ' ')))
        },
        None => None,
    }
}

/// The pixels after one edit: a mirroring or an inversion; any other
/// edit leaves them as they are.
pub open spec fn edit_step(px: Seq<u8>, w: int, h: int, way: ProcessEnum) -> Seq<u8> {
    match way {
        ProcessEnum::Mirror(s) => mirrored_by(s@, w, h, px),
        ProcessEnum::Invert => inverted(px),
        _ => px,
    }
}

/// The pixels after the edits of `ways`, applied in order.
pub open spec fn edited(px: Seq<u8>, w: int, h: int, ways: Seq<ProcessEnum>) -> Seq<u8>
    decreases ways.len(),
{
    if ways.len() == 0 {
        px
    } else {
        edit_step(edited(px, w, h, ways.drop_last()), w, h, ways.last())
    }
}

/// Makes meme pictures from a sent or quoted picture.
pub struct MemPhoto {
    pub status: bool,
}

impl MemPhoto {
    /// Marks the handler ready.
    pub fn init(&mut self)
        ensures
            final(self).status,
    {
        self.status = true;
    }

    /// The edits named after the last `]`, one per word, in order.
    pub fn ways(&self, msg: &Msg) -> (r: Vec<ProcessEnum>)
        requires
            exists|i: int| last_bracket(msg.raw_message@, i),
        ensures
            forall|i: int| #[trigger] last_bracket(msg.raw_message@, i) ==> {
                let w = tail_words(msg.raw_message@, i);
                r@.len() == w.len() && forall|k: int| 0 <= k < w.len() ==> way_of(#[trigger] r@[k], w[k])
            },
    {
        let s = chars_of(msg.raw_message.as_str());
        let (i, words) = match words_after_bracket(s.as_slice()) {
            Some(p) => p,
            None => {
                proof {
                    let j = choose|j: int| last_bracket(msg.raw_message@, j);
                    assert(s@[j] == ']');
                }
                (0, Vec::new())
            },
        };
        let mut out: Vec<ProcessEnum> = Vec::new();
        let mut k: usize = 0;
        while k < words.len()
            invariant
                k <= words.len(),
                out@.len() == k,
                forall|m: int| 0 <= m < k ==> way_of(#[trigger] out@[m], words@[m]@),
            decreases words.len() - k,
        {
            let w = words[k].as_slice();
            let way = if chars_eq_str(w, "怀念") || chars_eq_str(w, "遗照") {
                ProcessEnum::Die
            } else if chars_eq_str(w, "镜像上") || chars_eq_str(w, "镜像下") || chars_eq_str(w, "镜像左")
                || chars_eq_str(w, "镜像右") {
                ProcessEnum::Mirror(string_of(w))
            } else if chars_eq_str(w, "反色") {
                ProcessEnum::Invert
            } else {
                ProcessEnum::Keep
            };
            out.push(way);
            k = k + 1;
        }
        proof {
            assert forall|j: int| #[trigger] last_bracket(msg.raw_message@, j) implies j == i as int by {
                if j < i as int {
                    assert(s@[i as int] == ']');
                } else if j > i as int {
                    assert(s@[j] == ']');
                }
            }
            assert forall|m: int| 0 <= m < words@.len() implies views(words@)[m] == words@[m]@ by {}
        }
        out
    }

    /// Applies the edits of `ways` from position `from` on, in order, up to
    /// the first mourning frame (or the end): words that name no edit are
    /// passed over. Returns the picture and where it stopped, so that the
    /// caller draws the frame there and goes on after it.
    pub fn edit_run(&self, img: RgbaImage, ways: &Vec<ProcessEnum>, from: usize) -> (r: (RgbaImage, usize))
        requires
            img.well_formed(),
            from <= ways@.len(),
        ensures
            from <= r.1 <= ways@.len(),
            r.1 == ways@.len() || ways@[r.1 as int] is Die,
            forall|k: int| from <= k < r.1 ==> !(#[trigger] ways@[k] is Die),
            r.0.well_formed(),
            r.0.width == img.width,
            r.0.height == img.height,
            r.0.pixels@ == edited(img.pixels@, img.width as int, img.height as int, ways@.subrange(from as int, r.1 as int)),
    {
        let ghost w = img.width as int;
        let ghost h = img.height as int;
        let ghost px = img.pixels@;
        let mut cur = img;
        let mut k: usize = from;
        assert(ways@.subrange(from as int, from as int) =~= Seq::<ProcessEnum>::empty());
        while k < ways.len()
            invariant
                from <= k <= ways@.len(),
                forall|j: int| from <= j < k ==> !(#[trigger] ways@[j] is Die),
                cur.well_formed(),
                cur.width as int == w,
                cur.height as int == h,
                cur.pixels@ == edited(px, w, h, ways@.subrange(from as int, k as int)),
            ensures
                k == ways@.len() || ways@[k as int] is Die,
            decreases ways.len() - k,
        {
            let way = &ways[k];
            if let ProcessEnum::Die = way {
                break;
            }
            let next = match way {
                ProcessEnum::Keep => None,
                _ => match self.photo_main_process(&cur, way) {
                    Ok(out) => Some(out),
                    Err(_) => None,
                },
            };
            match next {
                Some(out) => {
                    cur = out;
                },
                None => {},
            }
            proof {
                let done = ways@.subrange(from as int, k + 1);
                assert(done.drop_last() =~= ways@.subrange(from as int, k as int));
                assert(done.last() == ways@[k as int]);
            }
            k = k + 1;
        }
        (cur, k)
    }

    /// One pixel edit: a mirroring or an inversion; a word that names no
    /// edit is refused. (The mourning frame is drawn by the caller.)
    pub fn photo_main_process(&self, img: &RgbaImage, way: &ProcessEnum) -> (r: Result<RgbaImage, String>)
        requires
            img.well_formed(),
            !(way is Die),
        ensures
            match way {
                ProcessEnum::Keep => r matches Err(e) && e@ == "未知错误"@,
                ProcessEnum::Mirror(s) => r matches Ok(out) && out.well_formed() && out.width == img.width
                    && out.height == img.height && out.pixels@ == mirrored_by(
                    s@,
                    img.width as int,
                    img.height as int,
                    img.pixels@,
                ),
                ProcessEnum::Invert => r matches Ok(out) && out.well_formed() && out.width == img.width
                    && out.height == img.height && out.pixels@ == inverted(img.pixels@),
                ProcessEnum::Die => false,
            },
    {
        match way {
            ProcessEnum::Keep => Err(String::from_str("未知错误")),
            ProcessEnum::Mirror(s) => {
                let sv = chars_of(s.as_str());
                Ok(mirror_by(sv.as_slice(), img))
            },
            ProcessEnum::Invert => Ok(invert(img)),
            ProcessEnum::Die => Err(String::from_str("未知错误")),
        }
    }
}

impl FnHandler for MemPhoto {
    open spec fn spec_matches(&self, names: &GcName, msg: &Msg) -> bool {
        photo_matches(msg.raw_message@)
    }

    open spec fn spec_status(&self) -> bool {
        self.status
    }

    open spec fn spec_name(&self) -> Seq<char> {
        "生成表情包"@
    }

    open spec fn spec_help(&self, helps: Seq<char>) -> Seq<char> {
        "生成表情包,支持gif,支持遗照,镜像上下左右,反色,可一次性使用多个\neg:\n[回复图片]镜像右 反色 遗照\n根据指令顺序进行修改，比如eg中，先镜像右边，然后去图片的反色，最后加上遗照的边框并黑白"@
    }

    fn matches(&self, names: &GcName, msg: &Msg) -> (r: bool) {
        let s = chars_of(msg.raw_message.as_str());
        if starts_with(s.as_slice(), "[bot_msg]") {
            return false;
        }
        let (i, words) = match words_after_bracket(s.as_slice()) {
            Some(p) => p,
            None => {
                assert forall|j: int| !last_bracket(msg.raw_message@, j) by {
                    if last_bracket(msg.raw_message@, j) {
                        assert(s@[j] == ']');
                    }
                }
                return false;
            },
        };
        let mut ok = false;
        let mut k: usize = 0;
        while k < words.len()
            invariant
                k <= words.len(),
                ok == exists|m: int| 0 <= m < k && is_edit_word(#[trigger] words@[m]@),
            decreases words.len() - k,
        {
            if is_edit_word_of(words[k].as_slice()) {
                ok = true;
            }
            k = k + 1;
        }
        proof {
            assert forall|j: int| #[trigger] last_bracket(msg.raw_message@, j) implies j == i as int by {
                if j < i as int {
                    assert(s@[i as int] == ']');
                } else if j > i as int {
                    assert(s@[j] == ']');
                }
            }
            assert forall|m: int| 0 <= m < words@.len() implies views(words@)[m] == words@[m]@ by {}
            if ok {
                let m = choose|m: int| 0 <= m < words@.len() && is_edit_word(#[trigger] words@[m]@);
                assert(is_edit_word(tail_words(msg.raw_message@, i as int)[m]));
            }
            if exists|j: int| #[trigger] last_bracket(msg.raw_message@, j) && exists|m: int|
                0 <= m < tail_words(msg.raw_message@, j).len() && is_edit_word(#[trigger] tail_words(msg.raw_message@, j)[m]) {
                let j = choose|j: int| #[trigger] last_bracket(msg.raw_message@, j) && exists|m: int|
                    0 <= m < tail_words(msg.raw_message@, j).len() && is_edit_word(#[trigger] tail_words(msg.raw_message@, j)[m]);
                assert(j == i as int);
                let m = choose|m: int| 0 <= m < tail_words(msg.raw_message@, j).len() && is_edit_word(#[trigger] tail_words(msg.raw_message@, j)[m]);
                assert(is_edit_word(words@[m]@));
            }
        }
        ok && (contains(s.as_slice(), "[CQ:image,") || contains(s.as_slice(), "[CQ:reply,id="))
    }

    fn status(&self) -> (r: bool) {
        self.status
    }

    fn help(&self, helps: &str) -> (r: String) {
        String::from_str("生成表情包,支持gif,支持遗照,镜像上下左右,反色,可一次性使用多个\neg:\n[回复图片]镜像右 反色 遗照\n根据指令顺序进行修改，比如eg中，先镜像右边，然后去图片的反色，最后加上遗照的边框并黑白")
    }

    fn name(&self) -> (r: String) {
        String::from_str("生成表情包")
    }
}

/// The record of the bot's own group message, fed back into the event
/// stream, is never taken by `生成表情包`, even when it carries a picture
/// and an edit word: the bot does not edit its own pictures again.
pub proof fn law_echo_not_edited(e: Msg, msg: &Msg, text: Seq<char>)
    requires
        crate::reply::bot_echo(e, msg, text),
    ensures
        !photo_matches(e.raw_message@),
{
    assert(e.raw_message@.take("[bot_msg]"@.len() as int) =~= "[bot_msg]"@);
}

// ---------------------------------------------------------------------
// 图片镜像: mirror a picture
// ---------------------------------------------------------------------

/// Mirrors one half of a sent or quoted picture onto the other.
pub struct FlipHorizontally {
    pub enabled: bool,
    pub status: bool,
}

/// `图片镜像` takes `镜像` with a picture, or a quote followed by `]镜像`.
pub open spec fn flip_matches(raw: Seq<char>) -> bool {
    (has_infix(raw, "镜像"@) && has_infix(raw, "[CQ:image,"@)) || (has_prefix(raw, "[CQ:reply,id="@) && has_infix(
        raw,
        "]镜像"@,
    ))
}

impl FlipHorizontally {
    /// Ready when enabled.
    pub fn init(&mut self)
        ensures
            final(self).status == (old(self).status || old(self).enabled),
            final(self).enabled == old(self).enabled,
    {
        if self.enabled {
            self.status = true;
        }
    }

    /// The picture mirrored along the side the message names, or kept.
    pub fn photo_process(&self, msg: &Msg, img: &RgbaImage) -> (r: RgbaImage)
        requires
            img.well_formed(),
        ensures
            r.well_formed(),
            r.width == img.width,
            r.height == img.height,
            r.pixels@ == mirrored_by(msg.raw_message@, img.width as int, img.height as int, img.pixels@),
    {
        let s = chars_of(msg.raw_message.as_str());
        mirror_by(s.as_slice(), img)
    }
}

impl FnHandler for FlipHorizontally {
    open spec fn spec_matches(&self, names: &GcName, msg: &Msg) -> bool {
        flip_matches(msg.raw_message@)
    }

    open spec fn spec_status(&self) -> bool {
        self.status
    }

    open spec fn spec_name(&self) -> Seq<char> {
        "图片镜像"@
    }

    open spec fn spec_help(&self, helps: Seq<char>) -> Seq<char> {
        "图片中间裁剪并镜像\n使用方法：\n镜像<上/下/左/右><图片>\n[回复图片]镜像<上/下/左/右>\n左右分别为保留图片的左/右半部分\neg：\n镜像左<图片>"@
    }

    fn matches(&self, names: &GcName, msg: &Msg) -> (r: bool) {
        let s = chars_of(msg.raw_message.as_str());
        (contains(s.as_slice(), "镜像") && contains(s.as_slice(), "[CQ:image,")) || (starts_with(
            s.as_slice(),
            "[CQ:reply,id=",
        ) && contains(s.as_slice(), "]镜像"))
    }

    fn status(&self) -> (r: bool) {
        self.status
    }

    fn help(&self, helps: &str) -> (r: String) {
        String::from_str("图片中间裁剪并镜像\n使用方法：\n镜像<上/下/左/右><图片>\n[回复图片]镜像<上/下/左/右>\n左右分别为保留图片的左/右半部分\neg：\n镜像左<图片>")
    }

    fn name(&self) -> (r: String) {
        String::from_str("图片镜像")
    }
}

} // verus!
