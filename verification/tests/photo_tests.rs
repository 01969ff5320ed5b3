use haruna_bot::gc_name::GcName;
use haruna_bot::handler::FnHandler;
use haruna_bot::image::{invert, mirror, Mirror, RgbaImage};
use haruna_bot::msg::Msg;
use haruna_bot::photo::{
    base64_of, base64_picture, file_id, get_img_id, img_to_base64, picture_reply, read_picture, FlipHorizontally,
    ImgSource, MemPhoto, ProcessEnum,
};
use haruna_bot::reply::{Post, PostType};

fn msg(raw: &str) -> Msg {
    let mut m = Msg::default();
    m.raw_message = raw.to_string();
    m.group_id = 1;
    m.message_id = 55;
    m
}

fn text_of(p: &Post) -> String {
    match &p.body {
        PostType::Message(m) => m.message.clone(),
        PostType::Poke(_) => String::new(),
    }
}

/// A 3 by 2 picture whose pixel (x, y) is [10x + y, 0, 0, 200 + x].
fn picture() -> RgbaImage {
    let (w, h) = (3u32, 2u32);
    let mut px = Vec::new();
    for y in 0..h {
        for x in 0..w {
            px.extend_from_slice(&[(10 * x + y) as u8, 0, 0, (200 + x) as u8]);
        }
    }
    RgbaImage { width: w, height: h, pixels: px }
}

fn red(img: &RgbaImage, x: u32, y: u32) -> u8 {
    img.pixels[(4 * (y * img.width + x)) as usize]
}

#[test]
fn mirror_left_copies_the_left_half() {
    let img = picture();
    let r = mirror(&img, Mirror::Left);
    assert_eq!((r.width, r.height), (3, 2));
    // half width 1: column 1 takes column 0, column 2 is kept
    assert_eq!(red(&r, 0, 0), 0);
    assert_eq!(red(&r, 1, 0), 0);
    assert_eq!(red(&r, 2, 0), 20);
    assert_eq!(red(&r, 1, 1), 1);
}

#[test]
fn mirror_right_copies_the_right_half() {
    let r = mirror(&picture(), Mirror::Right);
    // columns 0 and 1 read columns 2 and 1
    assert_eq!(red(&r, 0, 0), 20);
    assert_eq!(red(&r, 1, 0), 10);
    assert_eq!(red(&r, 2, 0), 20);
}

#[test]
fn mirror_up_and_down() {
    let img = picture();
    let up = mirror(&img, Mirror::Up);
    assert_eq!(red(&up, 2, 1), 20);
    assert_eq!(red(&up, 2, 0), 20);
    let down = mirror(&img, Mirror::Down);
    assert_eq!(red(&down, 2, 0), 21);
    assert_eq!(red(&down, 2, 1), 21);
}

#[test]
fn law_mirror_twice_is_mirror_once() {
    for d in [Mirror::Left, Mirror::Right, Mirror::Up, Mirror::Down] {
        let once = mirror(&picture(), d);
        let twice = mirror(&once, d);
        assert_eq!(once.pixels, twice.pixels);
    }
}

#[test]
fn invert_keeps_alpha() {
    let r = invert(&picture());
    assert_eq!(&r.pixels[0..4], &[255, 255, 255, 200]);
    assert_eq!(&r.pixels[4..8], &[245, 255, 255, 201]);
}

#[test]
fn law_invert_twice_is_identity() {
    let img = picture();
    assert_eq!(invert(&invert(&img)).pixels, img.pixels);
}

#[test]
fn empty_picture_edits() {
    let e = RgbaImage { width: 0, height: 5, pixels: vec![] };
    assert!(mirror(&e, Mirror::Down).pixels.is_empty());
    assert!(invert(&e).pixels.is_empty());
}

#[test]
fn base64_matches_the_standard_alphabet() {
    assert_eq!(base64_of(b""), "");
    assert_eq!(base64_of(b"f"), "Zg==");
    assert_eq!(base64_of(b"fo"), "Zm8=");
    assert_eq!(base64_of(b"foobar"), "Zm9vYmFy");
    assert_eq!(base64_of(&[0xfb, 0xff, 0xbf]), "+/+/");
    assert_eq!(base64_picture(&"Zg==".to_string()), "base64://Zg==");
}

#[test]
fn png_of_a_picture_decodes_back() {
    let img = picture();
    let b64 = img_to_base64(&img).unwrap();
    assert!(b64.starts_with("iVBORw0KGgo"));
    assert_eq!(b64.len() % 4, 0);
}

#[test]
fn picture_reply_text() {
    let (p, _) = picture_reply(&msg("x"), &"base64://AA==".to_string(), &"1.5ms".to_string());
    assert_eq!(text_of(&p), "[CQ:reply,id=55][CQ:image,file=base64://AA==]耗时:1.5ms");
}

#[test]
fn image_sources() {
    assert!(matches!(get_img_id("[CQ:reply,id=123]镜像左"), Ok(Some(ImgSource::Reply(id))) if id == "123"));
    assert!(matches!(
        get_img_id("[CQ:image,file=abc.png,sub_type=0,url=x]反色"),
        Ok(Some(ImgSource::File(id))) if id == "abc.png"
    ));
    assert!(matches!(
        get_img_id("[CQ:image,summary=,file=f1,sub_type=1]"),
        Ok(Some(ImgSource::File(id))) if id == "f1"
    ));
    assert!(matches!(get_img_id("[CQ:image,file=abc.png]"), Ok(None)));
    assert!(matches!(get_img_id("镜像左"), Err(e) if e == "未找到图片id"));
    assert_eq!(file_id("[CQ:image,file=q.gif,sub_type=0]"), Some("q.gif".to_string()));
    assert_eq!(file_id("nothing"), None);
}

#[test]
fn meme_matches_and_words() {
    let h = MemPhoto { status: true };
    let n = GcName::new();
    assert!(h.matches(&n, &msg("[CQ:image,file=a,sub_type=0]镜像左 反色")));
    assert!(h.matches(&n, &msg("[CQ:reply,id=1]怀念")));
    assert!(h.matches(&n, &msg("[CQ:reply,id=123]遗照")));
    assert!(!h.matches(&n, &msg("[CQ:image,file=a,sub_type=0]你好")));
    assert!(!h.matches(&n, &msg("反色")));
    assert!(!h.matches(&n, &msg("[bot_msg][CQ:image,file=a,sub_type=0]镜像左")));
    let ways = h.ways(&msg("[CQ:reply,id=1]镜像右 反色 怀念 好"));
    assert_eq!(ways.len(), 4);
    assert!(matches!(&ways[0], ProcessEnum::Mirror(s) if s == "镜像右"));
    assert!(matches!(ways[1], ProcessEnum::Invert));
    assert!(matches!(ways[2], ProcessEnum::Die));
    assert!(matches!(ways[3], ProcessEnum::Keep));
    let ways = h.ways(&msg("[CQ:reply,id=1]镜像右 反色 遗照"));
    assert_eq!(ways.len(), 3);
    assert!(matches!(ways[2], ProcessEnum::Die));
}

#[test]
fn meme_edits() {
    let h = MemPhoto { status: true };
    let img = picture();
    assert!(matches!(h.photo_main_process(&img, &ProcessEnum::Keep), Err(e) if e == "未知错误"));
    let r = h.photo_main_process(&img, &ProcessEnum::Mirror("镜像右".to_string())).unwrap();
    assert_eq!(r.pixels, mirror(&img, Mirror::Right).pixels);
    let r = h.photo_main_process(&img, &ProcessEnum::Invert).unwrap();
    assert_eq!(r.pixels, invert(&img).pixels);
}

#[test]
fn flip_matches_and_sides() {
    let mut h = FlipHorizontally { enabled: true, status: false };
    h.init();
    assert!(h.status);
    let n = GcName::new();
    assert!(h.matches(&n, &msg("镜像左[CQ:image,file=a,sub_type=0]")));
    assert!(h.matches(&n, &msg("[CQ:reply,id=3]镜像上")));
    assert!(!h.matches(&n, &msg("镜像左")));
    let img = picture();
    assert_eq!(h.photo_process(&msg("镜像下"), &img).pixels, mirror(&img, Mirror::Down).pixels);
    assert_eq!(h.photo_process(&msg("镜像"), &img).pixels, img.pixels);
    let mut off = FlipHorizontally { enabled: false, status: false };
    off.init();
    assert!(!off.status);
}

#[test]
fn pictures_are_read_or_left_to_the_animation_path() {
    let img = picture();
    let buf = image::RgbaImage::from_raw(img.width, img.height, img.pixels.clone()).unwrap();
    let mut png = std::io::Cursor::new(Vec::new());
    buf.write_to(&mut png, image::ImageFormat::Png).unwrap();
    let read = read_picture(png.get_ref()).unwrap().unwrap();
    assert_eq!((read.width, read.height), (3, 2));
    assert_eq!(read.pixels, img.pixels);
    assert!(matches!(read_picture(b"GIF89a\x01\x00\x01\x00"), Ok(None)));
    assert!(read_picture(b"not a picture").is_err());
}

#[test]
fn edits_run_in_order_up_to_the_frame() {
    let h = MemPhoto { status: true };
    let img = picture();
    let ways = vec![ProcessEnum::Mirror("镜像右".to_string()), ProcessEnum::Keep, ProcessEnum::Invert, ProcessEnum::Die, ProcessEnum::Invert];
    let (out, stop) = h.edit_run(picture(), &ways, 0);
    assert_eq!(stop, 3);
    assert_eq!(out.pixels, invert(&mirror(&img, Mirror::Right)).pixels);
    assert_eq!((out.width, out.height), (img.width, img.height));
    let (out, stop) = h.edit_run(picture(), &ways, 4);
    assert_eq!(stop, 5);
    assert_eq!(out.pixels, invert(&img).pixels);
    let (out, stop) = h.edit_run(picture(), &ways, 5);
    assert_eq!(stop, 5);
    assert_eq!(out.pixels, img.pixels);
}
