use flicks::avatar_providers::{AvatarFileProvider, TakeOutcome};
use flicks::file_repository::{select_images, FileRepository};
use flicks::image::Image;
use flicks::image_storage::ImageStorage;

fn storage() -> ImageStorage {
    ImageStorage::new("pictures".to_string(), "used".to_string(), FileRepository::new())
}

#[test]
fn select_images_keeps_jpg_and_png_in_order() {
    let entries = vec![
        Some("pictures/a.png".to_string()),
        Some("pictures/notes.txt".to_string()),
        None,
        Some("pictures/b.jpg".to_string()),
        Some("pictures/c.gif".to_string()),
        Some("pictures/.jpg".to_string()),
    ];
    assert_eq!(select_images(&entries), vec!["pictures/a.png".to_string(), "pictures/b.jpg".to_string()]);
    assert_eq!(storage().get_list_of_images(&entries).len(), 2);
    assert!(select_images(&vec![]).is_empty());
}

#[test]
fn storage_keeps_its_paths() {
    let s = storage();
    assert_eq!(s.base_path(), "pictures");
    assert_eq!(s.used_images_path(), "used");
}

#[test]
fn take_moves_into_used_and_rollback_moves_back() {
    let s = storage();
    let t = s.get_image("pictures/cat.jpg".to_string());
    assert_eq!(t.image_path(), "pictures/cat.jpg");
    assert_eq!(t.get_file_name(), "cat.jpg");
    let (from, to) = t.take_move();
    assert_eq!(from, "pictures/cat.jpg");
    assert_eq!(to, "used/cat.jpg");
    let (back_from, back_to) = t.rollback_move();
    assert_eq!(back_from, to);
    assert_eq!(back_to, from);
    let image = t.taken_image(vec![1, 2, 3]);
    assert_eq!(image.name, "cat.jpg");
    assert_eq!(image.bytes, vec![1, 2, 3]);
}

#[test]
fn pick_from_no_pictures_gives_nothing() {
    let provider = AvatarFileProvider::new(storage());
    assert!(provider.pick(&vec![]).is_none());
}

#[test]
fn pick_gives_one_of_the_pictures() {
    let provider = AvatarFileProvider::new(storage());
    let paths = vec!["pictures/a.png".to_string(), "pictures/b.jpg".to_string()];
    for _ in 0..20 {
        let t = provider.pick(&paths).expect("a picture");
        assert!(paths.iter().any(|p| p == t.image_path()));
    }
    let single = vec!["pictures/only.jpg".to_string()];
    assert_eq!(provider.pick(&single).unwrap().image_path(), "pictures/only.jpg");
    assert_eq!(provider.storage().used_images_path(), "used");
}

#[test]
fn after_take_and_rollback() {
    let ok: Result<Image, String> = Ok(Image::new("a.jpg".to_string(), vec![7]));
    match AvatarFileProvider::after_take(ok) {
        TakeOutcome::Provide(i) => assert_eq!(i.bytes, vec![7]),
        TakeOutcome::RollBack => panic!("expected the image"),
    }
    let err: Result<Image, String> = Err("no file".to_string());
    assert!(matches!(AvatarFileProvider::after_take(err), TakeOutcome::RollBack));
    assert!(matches!(AvatarFileProvider::after_rollback(Ok(())), Ok(None)));
    assert_eq!(
        AvatarFileProvider::after_rollback(Err("denied".to_string())).err(),
        Some("Something went wrong while rollback operation: denied".to_string())
    );
}

#[test]
fn image_new_keeps_fields() {
    let i = Image::new("x.png".to_string(), vec![9, 8]);
    assert_eq!(i.name, "x.png");
    assert_eq!(i.bytes, vec![9, 8]);
    let c = flicks::cli::image::Image::new("y.jpg".to_string(), "data".to_string());
    assert_eq!(c.name, "y.jpg");
    assert_eq!(c.data, "data");
}
