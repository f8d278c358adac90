use docx_parser::max_lengths_per_column;
use docx_parser::pad_left;
use docx_parser::table_row_to_markdown;
use docx_parser::render_table;
use docx_parser::decimal_string;
use docx_parser::str_eq;
use docx_parser::get_mime_type;
use docx_parser::image_data_uri;

#[test]
fn test_pad_left() {
    let text = "This is a test".to_string();
    let width = 10;
    let padded = pad_left(&text, &width);
    assert_eq!(padded, "This is a test");
    let width = 20;
    let padded = pad_left(&text, &width);
    assert_eq!(padded, "This is a test      ");
}

#[test]
fn test_table_row_to_markdown() {
    let column_lengths = vec![10, 15, 20];
    let row = vec![
        "This is".to_string(),
        "This is a".to_string(),
        "This is a test".to_string(),
    ];
    let table_row_in_markdown = table_row_to_markdown(&column_lengths, &row);
    assert_eq!(
        table_row_in_markdown,
        "| This is    | This is a       | This is a test       |\n",
    );
}

#[test]
fn test_max_lengths_header_aware() {
    let rows = vec![
        (true, vec!["A".to_string(), "BB".to_string()]),
        (false, vec!["X".to_string(), "YYYY".to_string()]),
    ];
    assert_eq!(max_lengths_per_column(&rows, 0), vec![1, 4]);
}

#[test]
fn test_max_lengths_ragged_rows() {
    let rows = vec![
        (false, vec!["AAA".to_string()]),
        (false, vec!["B".to_string(), "CC".to_string()]),
    ];
    assert_eq!(max_lengths_per_column(&rows, 0), vec![3, 2]);
}

#[test]
fn test_max_lengths_min_width() {
    let rows = vec![
        (false, vec!["AAA".to_string()]),
        (false, vec!["B".to_string(), "CC".to_string()]),
    ];
    assert_eq!(max_lengths_per_column(&rows, 5), vec![5, 2]);
}

#[test]
fn test_max_lengths_empty_table() {
    let rows: Vec<(bool, Vec<String>)> = vec![];
    assert_eq!(max_lengths_per_column(&rows, 3), Vec::<usize>::new());
}

#[test]
fn test_render_table_with_header() {
    let rows = vec![
        (true, vec!["A".to_string(), "BB".to_string()]),
        (false, vec!["X".to_string(), "YYYY".to_string()]),
    ];
    let text = render_table(&rows);
    assert_eq!(text, "| A | BB   |\n| - | ---- |\n| X | YYYY |\n");
}

#[test]
fn test_render_table_synthesizes_header() {
    let rows = vec![(false, vec!["X".to_string(), "YYYY".to_string()])];
    let text = render_table(&rows);
    assert_eq!(text, "|   |      |\n| - | ---- |\n| X | YYYY |\n");
}

#[test]
fn test_render_table_empty() {
    let rows: Vec<(bool, Vec<String>)> = vec![];
    assert_eq!(render_table(&rows), "");
}

#[test]
fn test_decimal_string() {
    assert_eq!(decimal_string(0), "0");
    assert_eq!(decimal_string(7), "7");
    assert_eq!(decimal_string(10), "10");
    assert_eq!(decimal_string(12345), "12345");
}

#[test]
fn test_str_eq() {
    assert!(str_eq("", ""));
    assert!(str_eq("abc", "abc"));
    assert!(!str_eq("abc", "abd"));
    assert!(!str_eq("abc", "ab"));
    assert!(str_eq("naïve", "naïve"));
}

#[test]
fn test_get_mime_type() {
    assert_eq!(get_mime_type("a.png"), Some("image/png"));
    assert_eq!(get_mime_type("a.PNG"), Some("image/png"));
    assert_eq!(get_mime_type("photo.jpg"), Some("image/jpeg"));
    assert_eq!(get_mime_type("photo.JPEG"), Some("image/jpeg"));
    assert_eq!(get_mime_type("anim.gif"), Some("image/gif"));
    assert_eq!(get_mime_type("b.bmp"), Some("image/bmp"));
    assert_eq!(get_mime_type("scan.tiff"), Some("image/tiff"));
    assert_eq!(get_mime_type("archive.tar.gz"), None);
    assert_eq!(get_mime_type("noext"), None);
    assert_eq!(get_mime_type(""), None);
}

#[test]
fn test_image_data_uri_known_mime() {
    let data = vec![b'M', b'a', b'n'];
    assert_eq!(image_data_uri("m.png", &data), "data:image/png;base64,TWFu");
}

#[test]
fn test_image_data_uri_unknown_mime() {
    let data = vec![b'M', b'a', b'n'];
    assert_eq!(
        image_data_uri("blob.bin", &data),
        "data:application/octet-stream;base64,TWFu"
    );
}

#[test]
fn test_image_data_uri_empty() {
    let data: Vec<u8> = vec![];
    assert_eq!(image_data_uri("m.gif", &data), "data:image/gif;base64,");
}
