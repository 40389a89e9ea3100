use panther::images::{get_gif, get_image, load_images, ImageData, ImageLoader};

fn image(texture_id: u32, width: u32, height: u32) -> ImageData {
    ImageData { texture_id, width, height }
}

fn stills() -> Vec<(String, ImageData)> {
    vec![
        ("panther_hd".to_string(), image(1, 1024, 768)),
        ("home".to_string(), image(2, 64, 64)),
        ("play".to_string(), image(3, 128, 96)),
    ]
}

fn animations() -> Vec<(String, Vec<ImageData>)> {
    vec![
        ("running".to_string(), vec![image(10, 32, 32), image(11, 32, 32), image(12, 32, 32)]),
        ("eyes".to_string(), vec![]),
    ]
}

#[test]
fn images_are_found_by_name() {
    let loader = ImageLoader::new(stills(), animations());
    assert_eq!(loader.get_image("panther_hd"), Some(image(1, 1024, 768)));
    assert_eq!(loader.get_image("home"), Some(image(2, 64, 64)));
    assert_eq!(loader.get_image("play"), Some(image(3, 128, 96)));
}

#[test]
fn unknown_names_are_not_found() {
    let loader = ImageLoader::new(stills(), animations());
    assert_eq!(loader.get_image("stats"), None);
    assert_eq!(loader.get_image(""), None);
    assert_eq!(loader.get_image("Home"), None);
    assert_eq!(loader.get_image("running"), None);
    assert_eq!(loader.get_gif("home"), None);
    assert_eq!(loader.get_gif("walking"), None);
}

#[test]
fn animations_keep_their_frames_in_order() {
    let loader = ImageLoader::new(stills(), animations());
    assert_eq!(
        loader.get_gif("running"),
        Some(vec![image(10, 32, 32), image(11, 32, 32), image(12, 32, 32)])
    );
    assert_eq!(loader.get_gif("eyes"), Some(vec![]));
}

#[test]
fn later_entry_of_a_name_counts() {
    let mut entries = stills();
    entries.push(("home".to_string(), image(9, 8, 8)));
    let mut gifs = animations();
    gifs.push(("running".to_string(), vec![image(20, 1, 1)]));
    let loader = ImageLoader::new(entries, gifs);
    assert_eq!(loader.get_image("home"), Some(image(9, 8, 8)));
    assert_eq!(loader.get_image("play"), Some(image(3, 128, 96)));
    assert_eq!(loader.get_gif("running"), Some(vec![image(20, 1, 1)]));
}

#[test]
fn empty_catalogue_finds_nothing() {
    let loader = ImageLoader::new(Vec::new(), Vec::new());
    assert_eq!(loader.get_image("home"), None);
    assert_eq!(loader.get_gif("running"), None);
}

#[test]
fn first_loaded_catalogue_stays() {
    let mut slot = None;
    load_images(&mut slot, stills(), animations());
    assert_eq!(get_image(&slot, "home"), Some(image(2, 64, 64)));
    assert_eq!(get_gif(&slot, "running").map(|f| f.len()), Some(3));
    load_images(&mut slot, vec![("home".to_string(), image(7, 7, 7))], Vec::new());
    assert_eq!(get_image(&slot, "home"), Some(image(2, 64, 64)));
    assert_eq!(get_image(&slot, "stats"), None);
    assert_eq!(get_gif(&slot, "walking"), None);
    assert_eq!(get_gif(&slot, "running").map(|f| f.len()), Some(3));
}
