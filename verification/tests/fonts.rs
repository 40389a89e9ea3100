use panther::catalogue::find;
use panther::fonts::{get_font, load_fonts, FontLoader};

#[derive(Debug, PartialEq)]
struct Face {
    texture: u32,
    ascent: f32,
}

fn faces() -> Vec<(String, Face)> {
    vec![
        ("queensides".to_string(), Face { texture: 4, ascent: 0.25 }),
        ("sparky-stones".to_string(), Face { texture: 5, ascent: 0.5 }),
    ]
}

#[test]
fn fonts_are_found_by_name() {
    let loader = FontLoader::new(faces());
    assert_eq!(loader.get_font("queensides"), Some(&Face { texture: 4, ascent: 0.25 }));
    assert_eq!(loader.get_font("sparky-stones"), Some(&Face { texture: 5, ascent: 0.5 }));
    assert_eq!(loader.get_font("sparky_stones"), None);
    assert_eq!(loader.get_font(""), None);
}

#[test]
fn first_loaded_fonts_stay() {
    let mut slot = None;
    load_fonts(&mut slot, faces());
    assert_eq!(get_font(&slot, "queensides").map(|f| f.texture), Some(4));
    load_fonts(&mut slot, vec![("queensides".to_string(), Face { texture: 9, ascent: 1.0 })]);
    assert_eq!(get_font(&slot, "queensides").map(|f| f.texture), Some(4));
    assert_eq!(get_font(&slot, "sparky-stones").map(|f| f.texture), Some(5));
    assert_eq!(get_font(&slot, "other"), None);
}

#[test]
fn find_returns_the_last_entry_of_a_name() {
    let entries = vec![
        ("a".to_string(), 1),
        ("b".to_string(), 2),
        ("a".to_string(), 3),
        ("c".to_string(), 4),
    ];
    assert_eq!(find(&entries, "a"), Some(2));
    assert_eq!(find(&entries, "b"), Some(1));
    assert_eq!(find(&entries, "c"), Some(3));
    assert_eq!(find(&entries, "d"), None);
    assert_eq!(find(&Vec::<(String, u8)>::new(), "a"), None);
}
