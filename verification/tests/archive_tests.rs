use udrb::archive::{build_archive_plan, ArchiveError, FileContent};
use udrb::hashing::bytes_to_hash;
use udrb::strutil::replace_all;

fn three_part_snapshot() -> String {
    [
        "MIME-Version: 1.0\r\n",
        "Content-Type: multipart/related; boundary=\"BOUNDARY\"\r\n",
        "\r\n",
        "--BOUNDARY\r\n",
        "Content-Type: text/html\r\n",
        "\r\n",
        "<html><body><img src=\"cid:img1\"></body></html>\r\n",
        "--BOUNDARY\r\n",
        "Content-Type: image/png\r\n",
        "Content-ID: <img1>\r\n",
        "Content-Transfer-Encoding: base64\r\n",
        "\r\n",
        "iVBORw0KGgo=\r\n",
        "--BOUNDARY--\r\n",
    ]
    .concat()
}

#[test]
fn archive_round_trip() {
    let data = three_part_snapshot();
    let plan = build_archive_plan(&data).expect("three-part snapshot archives");

    assert_eq!(plan.dir, bytes_to_hash(data.as_bytes()));
    assert_eq!(plan.entry, format!("{}/index.html", plan.dir));
    assert_eq!(plan.files.len(), 3);

    assert_eq!(plan.files[0].name, "raw.mhtml");
    match &plan.files[0].content {
        FileContent::TextContent(t) => assert_eq!(t, &data),
        FileContent::BytesContent(_) => panic!("raw payload is stored as text"),
    }

    assert_eq!(plan.files[1].name, "1.png");
    let png_magic: [u8; 8] = [0x89, 0x50, 0x4e, 0x47, 0x0d, 0x0a, 0x1a, 0x0a];
    match &plan.files[1].content {
        FileContent::BytesContent(b) => assert_eq!(b.as_slice(), &png_magic),
        FileContent::TextContent(_) => panic!("image part is stored as bytes"),
    }

    assert_eq!(plan.files[2].name, "index.html");
    match &plan.files[2].content {
        FileContent::TextContent(t) => {
            assert!(t.contains("1.png"));
            assert!(!t.contains("cid:img1"));
        },
        FileContent::BytesContent(_) => panic!("root document is stored as text"),
    }
}

#[test]
fn too_few_parts_is_rejected() {
    let data = [
        "MIME-Version: 1.0\r\n",
        "Content-Type: multipart/related; boundary=\"B\"\r\n",
        "\r\n",
        "--B\r\n",
        "Content-Type: text/html\r\n",
        "\r\n",
        "<html></html>\r\n",
        "--B--\r\n",
    ]
    .concat();
    assert!(matches!(build_archive_plan(&data), Err(ArchiveError::TooFewParts)));
}

#[test]
fn plain_message_is_rejected() {
    let data = "Content-Type: text/plain\r\n\r\njust text\r\n";
    assert!(matches!(build_archive_plan(data), Err(ArchiveError::TooFewParts)));
}

#[test]
fn unknown_content_type_is_rejected() {
    let data = [
        "MIME-Version: 1.0\r\n",
        "Content-Type: multipart/related; boundary=\"B\"\r\n",
        "\r\n",
        "--B\r\n",
        "Content-Type: text/html\r\n",
        "\r\n",
        "<html></html>\r\n",
        "--B\r\n",
        "Content-Type: application/zip\r\n",
        "Content-ID: <z1>\r\n",
        "\r\n",
        "zip\r\n",
        "--B--\r\n",
    ]
    .concat();
    assert!(matches!(build_archive_plan(&data), Err(ArchiveError::UnknownContentType)));
}

#[test]
fn unreferenced_part_is_skipped_not_fatal() {
    let data = [
        "MIME-Version: 1.0\r\n",
        "Content-Type: multipart/related; boundary=\"B\"\r\n",
        "\r\n",
        "--B\r\n",
        "Content-Type: text/html\r\n",
        "\r\n",
        "<html><img src=\"cid:keep\"></html>\r\n",
        "--B\r\n",
        "Content-Type: text/css\r\n",
        "\r\n",
        "body{}\r\n",
        "--B\r\n",
        "Content-Type: image/png\r\n",
        "Content-ID: <keep>\r\n",
        "Content-Transfer-Encoding: base64\r\n",
        "\r\n",
        "iVBORw0KGgo=\r\n",
        "--B--\r\n",
    ]
    .concat();
    let plan = build_archive_plan(&data).expect("skipping an unreferenced part is not fatal");
    // raw.mhtml, the referenced image (numbered 1, the css was skipped), index.html
    assert_eq!(plan.files.len(), 3);
    assert_eq!(plan.files[1].name, "1.png");
}

#[test]
fn archive_keeps_metadata_in_rewritten_root() {
    let data = [
        "MIME-Version: 1.0\r\n",
        "Content-Type: multipart/related; boundary=\"B\"\r\n",
        "\r\n",
        "--B\r\n",
        "Content-Type: text/html\r\n",
        "\r\n",
        "<html><head><meta name=\"description\" content=\"Desc\"></head>",
        "<body><img src=\"cid:i\"></body></html>\r\n",
        "--B\r\n",
        "Content-Type: image/png\r\n",
        "Content-ID: <i>\r\n",
        "Content-Transfer-Encoding: base64\r\n",
        "\r\n",
        "iVBORw0KGgo=\r\n",
        "--B--\r\n",
    ]
    .concat();
    let plan = build_archive_plan(&data).unwrap();
    match &plan.files[2].content {
        FileContent::TextContent(t) => assert!(t.contains("content=\"Desc\"")),
        FileContent::BytesContent(_) => panic!("root document is stored as text"),
    }
}

#[test]
fn replace_all_replaces_every_occurrence() {
    assert_eq!(replace_all("abcabc", "ab", "X"), "XcXc");
}

#[test]
fn replace_all_is_left_to_right_without_overlap() {
    assert_eq!(replace_all("aaa", "aa", "b"), "ba");
}

#[test]
fn replace_all_with_empty_pattern_is_identity() {
    assert_eq!(replace_all("abc", "", "X"), "abc");
}

#[test]
fn replace_all_without_occurrence_is_identity() {
    assert_eq!(replace_all("abc", "zz", "X"), "abc");
}
