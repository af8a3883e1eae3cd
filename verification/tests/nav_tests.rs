use viewer_core::nav::{
    bytes_equal, lex_le_bytes, supported_image_path, vector_image_path, NavDirection,
    NavigationList,
};

#[test]
fn advance_wraps_at_both_ends() {
    // Navigation wraparound: three entries, index 2, next yields 0; prev
    // from 0 yields 2.
    let mut n = NavigationList::new();
    let listing = vec![b"/d/a.png".to_vec(), b"/d/b.png".to_vec(), b"/d/c.png".to_vec()];
    n.rebuild(&listing, &b"/d/c.png".to_vec());
    assert_eq!(n.current_index, Some(2));
    assert_eq!(n.advance(NavDirection::Next), Some(0));
    n.commit_index(0);
    assert_eq!(n.advance(NavDirection::Prev), Some(2));
    // the middle moves by one in both directions
    n.commit_index(1);
    assert_eq!(n.advance(NavDirection::Next), Some(2));
    assert_eq!(n.advance(NavDirection::Prev), Some(0));
}

#[test]
fn advance_on_empty_list_is_none() {
    let n = NavigationList::new();
    assert_eq!(n.advance(NavDirection::Next), None);
    assert_eq!(n.advance(NavDirection::Prev), None);
}

#[test]
fn rebuild_filters_sorts_and_locates() {
    let listing = vec![
        b"/d/c.png".to_vec(),
        b"/d/readme.txt".to_vec(),
        b"/d/a.svg".to_vec(),
        b"/d/b.JPG".to_vec(),
        b"/d/sub".to_vec(),
    ];
    let mut n = NavigationList::new();
    n.rebuild(&listing, &b"/d/b.JPG".to_vec());
    let got: Vec<&[u8]> = n.entries.iter().map(|p| p.as_slice()).collect();
    assert_eq!(got, vec![&b"/d/a.svg"[..], &b"/d/b.JPG"[..], &b"/d/c.png"[..]]);
    assert_eq!(n.current_index, Some(1));
}

#[test]
fn rebuild_missing_path_points_at_first() {
    // The opened path not being in its own directory listing is a
    // recoverable anomaly: the index falls back to 0.
    let listing = vec![b"/d/a.png".to_vec(), b"/d/b.png".to_vec()];
    let mut n = NavigationList::new();
    n.rebuild(&listing, &b"/e/elsewhere.png".to_vec());
    assert_eq!(n.current_index, Some(0));
}

#[test]
fn rebuild_empty_listing_clears_index() {
    let mut n = NavigationList::new();
    n.rebuild(&vec![b"/d/notes.txt".to_vec()], &b"/d/notes.txt".to_vec());
    assert_eq!(n.current_index, None);
    assert!(n.entries.is_empty());
}

#[test]
fn rebuild_keeps_duplicate_paths() {
    let listing = vec![b"/d/a.png".to_vec(), b"/d/a.png".to_vec(), b"/d/b.gif".to_vec()];
    let mut n = NavigationList::new();
    n.rebuild(&listing, &b"/d/b.gif".to_vec());
    assert_eq!(n.entries.len(), 3);
    assert_eq!(n.current_index, Some(2));
}

#[test]
fn rebuild_sorts_bytewise() {
    let listing = vec![
        b"/d/10.png".to_vec(),
        b"/d/2.png".to_vec(),
        b"/d/1.png".to_vec(),
    ];
    let mut n = NavigationList::new();
    n.rebuild(&listing, &b"/d/1.png".to_vec());
    let got: Vec<&[u8]> = n.entries.iter().map(|p| p.as_slice()).collect();
    // plain lexicographic byte order: "10" sorts between "1" and "2"
    assert_eq!(got, vec![&b"/d/1.png"[..], &b"/d/10.png"[..], &b"/d/2.png"[..]]);
    assert_eq!(n.current_index, Some(0));
}

#[test]
fn supported_extensions_case_insensitive() {
    for p in [
        &b"/d/x.jpg"[..],
        b"/d/x.JPEG",
        b"/d/x.Png",
        b"/d/x.GIF",
        b"/d/x.webp",
        b"/d/x.BMP",
        b"/d/x.svg",
    ] {
        assert!(supported_image_path(&p.to_vec()), "{:?}", p);
    }
}

#[test]
fn unsupported_paths_are_rejected() {
    for p in [
        &b"/d/x.txt"[..],
        b"/d/x",
        b"/d/.png",
        b"/d/x.png.bak",
        b"/d/jpg",
        b"/d/x.",
        b"/d.png/x",
    ] {
        assert!(!supported_image_path(&p.to_vec()), "{:?}", p);
    }
}

#[test]
fn vector_paths_are_svg_only() {
    assert!(vector_image_path(&b"/d/x.svg".to_vec()));
    assert!(vector_image_path(&b"/d/x.SVG".to_vec()));
    assert!(!vector_image_path(&b"/d/x.png".to_vec()));
    assert!(!vector_image_path(&b"/d/svg".to_vec()));
}

#[test]
fn hidden_file_dot_is_not_an_extension() {
    // a leading dot marks a hidden file: ".svg" has no extension, while
    // ".a.svg" has one
    assert!(!vector_image_path(&b"/d/.svg".to_vec()));
    assert!(vector_image_path(&b"/d/.a.svg".to_vec()));
}

#[test]
fn path_at_returns_clone_of_entry() {
    let mut n = NavigationList::new();
    n.rebuild(&vec![b"/d/a.png".to_vec()], &b"/d/a.png".to_vec());
    assert_eq!(n.path_at(0).unwrap(), b"/d/a.png".to_vec());
    assert_eq!(n.path_at(1), None);
}

#[test]
fn lexicographic_order_on_bytes() {
    let a = b"abc".to_vec();
    let ab = b"abcd".to_vec();
    let b = b"abd".to_vec();
    assert!(lex_le_bytes(&a, &a));
    assert!(lex_le_bytes(&a, &ab)); // a proper prefix comes first
    assert!(!lex_le_bytes(&ab, &a));
    assert!(lex_le_bytes(&a, &b));
    assert!(!lex_le_bytes(&b, &a));
    assert!(lex_le_bytes(&Vec::new(), &a));
    assert!(bytes_equal(&a, &a));
    assert!(!bytes_equal(&a, &ab));
    assert!(!bytes_equal(&a, &b));
}
