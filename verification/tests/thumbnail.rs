use my_feed::thumbnail::{
    get_image_from_link, has_image_extension, pick_image, select_image, Selection, UriText,
};

fn page_with(candidates: &[&str]) -> String {
    let mut page = String::from("<!DOCTYPE html><html><head><title>t</title>");
    for candidate in candidates {
        page.push_str(&format!("<meta property=\"og:image\" content=\"{}\">", candidate));
    }
    page.push_str("</head><body><p>text</p></body></html>");
    page
}

#[test]
fn first_qualifying_candidate_is_chosen() {
    let page = page_with(&["/a.gif", "/b.png"]);
    assert_eq!(get_image_from_link(&page), Some("/b.png".to_string()));
}

#[test]
fn absolute_uris_are_written_out_in_full() {
    let page = page_with(&["https://example.com/a.gif", "https://example.com/img/b.png?x=1"]);
    assert_eq!(
        get_image_from_link(&page),
        Some("https://example.com/img/b.png?x=1".to_string())
    );
}

#[test]
fn page_without_qualifying_candidate_has_no_image() {
    let page = page_with(&["/a.gif", "not a uri", "/c.PNG"]);
    assert_eq!(get_image_from_link(&page), None);
    assert_eq!(get_image_from_link(&page_with(&[])), None);
}

#[test]
fn bare_file_name_is_an_authority_without_path() {
    let page = page_with(&["b.png"]);
    assert_eq!(get_image_from_link(&page), None);
}

#[test]
fn page_with_parse_errors_has_no_image() {
    let page = "<html><head><meta property=\"og:image\" content=\"/b.png\"></head><body></b></body></html>";
    assert_eq!(get_image_from_link(page), None);
}

#[test]
fn image_extensions_are_case_sensitive_suffixes() {
    assert!(has_image_extension("/x.jpg"));
    assert!(has_image_extension("/x.jpeg"));
    assert!(has_image_extension("/x.png"));
    assert!(has_image_extension("/x.webp"));
    assert!(has_image_extension("/xpng"));
    assert!(!has_image_extension("/x.PNG"));
    assert!(!has_image_extension("/x.gif"));
    assert!(!has_image_extension("/x.png/"));
    assert!(!has_image_extension(""));
}

#[test]
fn pick_image_skips_what_does_not_qualify() {
    let candidates = vec![
        None,
        Some(UriText { path: "/a.gif".to_string(), text: "http://h/a.gif".to_string() }),
        Some(UriText { path: "/b.webp".to_string(), text: "http://h/b.webp".to_string() }),
        Some(UriText { path: "/c.png".to_string(), text: "http://h/c.png".to_string() }),
    ];
    assert_eq!(pick_image(&candidates), Some("http://h/b.webp".to_string()));
    assert_eq!(pick_image(&vec![None]), None);
    assert_eq!(pick_image(&Vec::new()), None);
}

fn found(parse_errors: usize, values: &[Option<&str>]) -> Option<Selection> {
    Some(Selection {
        parse_errors,
        values: values.iter().map(|value| value.map(|text| text.to_string())).collect(),
    })
}

#[test]
fn selection_of_a_clean_page_gives_its_first_image() {
    let values = [None, Some("/a.gif"), Some("not a uri"), Some("https://h/b.png"), Some("/c.jpg")];
    assert_eq!(select_image(&found(0, &values)), Some("https://h/b.png".to_string()));
    assert_eq!(select_image(&found(0, &[Some("/a.gif"), None])), None);
    assert_eq!(select_image(&found(0, &[])), None);
}

#[test]
fn selection_of_a_page_with_parse_errors_gives_no_image() {
    assert_eq!(select_image(&found(1, &[Some("/b.png")])), None);
    assert_eq!(select_image(&found(usize::MAX, &[Some("/b.png")])), None);
    assert_eq!(select_image(&None), None);
}
