use flicks::data_uri::{avatar_type, data_uri, encode_avatar};
use flicks::discord_client::{avatar_change_request, avatar_change_result, discord_headers, AvatarChangeRequest};
use flicks::errors::ChangeAvatarError;
use flicks::image::Image;
use flicks::cli::file_repository::FileRepository;

fn s(x: &str) -> String {
    x.to_string()
}

#[test]
fn headers_valid() {
    let h = discord_headers(s("tok"), s("props"), s("c=1; d=2"), s("Mozilla/5.0\tX")).unwrap();
    assert_eq!(h.authorization, "tok");
    assert_eq!(h.super_properties, "props");
    assert_eq!(h.cookie, "c=1; d=2");
    assert_eq!(h.user_agent, "Mozilla/5.0\tX");
    assert!(discord_headers(s("é"), s(""), s(""), s("")).is_ok());
}

#[test]
fn headers_invalid_in_order() {
    assert_eq!(discord_headers(s("a\nb"), s("\x7f"), s(""), s("")).err().unwrap(), "Invalid Authorization header");
    assert_eq!(discord_headers(s("a"), s("\x7f"), s("\n"), s("\n")).err().unwrap(), "Invalid X-Super-Properties header");
    assert_eq!(discord_headers(s("a"), s("b"), s("\n"), s("\r")).err().unwrap(), "Invalid User-Agent header");
    assert_eq!(discord_headers(s("a"), s("b"), s("\x01"), s("ua")).err().unwrap(), "Invalid Cookie header");
}

#[test]
fn avatar_types() {
    assert_eq!(avatar_type("cat.png"), "png");
    assert_eq!(avatar_type("cat.jpg"), "jpg");
    assert_eq!(avatar_type("cat.gif"), "jpg");
    assert_eq!(avatar_type("cat"), "jpg");
}

#[test]
fn data_uri_shape() {
    assert_eq!(data_uri("png", "AAAA"), "data:image/png;base64,AAAA");
}

#[test]
fn avatar_request_encodes_base64() {
    let image = Image::new(s("hello.png"), b"hello".to_vec());
    let r = avatar_change_request(&image);
    assert_eq!(r.avatar(), "data:image/png;base64,aGVsbG8=");
    assert_eq!(encode_avatar("x.jpg", &vec![0xff, 0xfe]), "data:image/jpg;base64,//4=");
    assert_eq!(encode_avatar("x.jpg", &vec![]), "data:image/jpg;base64,");
    assert_eq!(AvatarChangeRequest::new(s("a")).avatar(), "a");
}

#[test]
fn cli_repository_reads_data_uri() {
    let repo = FileRepository::new(s("pics"));
    assert_eq!(repo.base_path(), "pics");
    assert_eq!(repo.encode_image("pics/a.png", &b"hel".to_vec()), "data:image/png;base64,aGVs");
    let entries = vec![Some(s("pics/a.png")), Some(s("pics/b.txt"))];
    assert_eq!(repo.get_list_of_images(&entries), vec![s("pics/a.png")]);
}

#[test]
fn answer_status() {
    assert!(avatar_change_result(200, s("")).is_ok());
    let e = avatar_change_result(400, s("bad avatar")).unwrap_err();
    assert_eq!(e.details(), "bad avatar");
    assert_eq!(e.message(), "change avatar error");
    assert!(avatar_change_result(204, s("")).is_err());
    assert_eq!(ChangeAvatarError::new(s("x")).details(), "x");
}
