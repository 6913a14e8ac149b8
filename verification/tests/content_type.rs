use static_server::content_type::{content_type_for, get_content_type_map, resolve};

#[test]
fn every_listed_extension_resolves_to_its_type() {
    let expected = [
        ("html", "text/html"),
        ("css", "text/css"),
        ("ics", "text/calendar"),
        ("js", "application/javascript"),
        ("json", "application/json"),
        ("png", "image/png"),
        ("jpeg", "image/jpeg"),
        ("jpg", "image/jpeg"),
        ("gif", "image/gif"),
        ("svg", "image/svg+xml"),
        ("ico", "image/x-icon"),
        ("txt", "text/plain"),
        ("pdf", "application/pdf"),
        ("zip", "application/zip"),
        ("xml", "application/xml"),
        ("vcard", "text/vcard"),
        ("vcf", "text/vcard"),
        ("vcard+json", "application/vcard+json"),
        ("vcard+xml", "application/vcard+xml"),
    ];
    for (ext, mime) in expected {
        assert_eq!(resolve(ext), mime);
    }
}

#[test]
fn table_holds_each_extension_once() {
    let table = get_content_type_map();
    assert_eq!(table.len(), 19);
    assert_eq!(table[0], ("html", "text/html"));
    assert_eq!(table[18], ("vcard+xml", "application/vcard+xml"));
    for i in 0..table.len() {
        for j in (i + 1)..table.len() {
            assert_ne!(table[i].0, table[j].0);
        }
        assert_eq!(resolve(table[i].0), table[i].1);
    }
}

#[test]
fn unknown_extension_gets_the_fallback() {
    assert_eq!(resolve("exe"), "application/octet-stream");
    assert_eq!(resolve(""), "application/octet-stream");
    assert_eq!(resolve("htm"), "application/octet-stream");
    assert_eq!(resolve("htmlx"), "application/octet-stream");
    assert_eq!(resolve("vcard+"), "application/octet-stream");
}

#[test]
fn extension_case_does_not_matter() {
    assert_eq!(resolve("HTML"), "text/html");
    assert_eq!(resolve("Png"), "image/png");
    assert_eq!(resolve("vCard+JSON"), "application/vcard+json");
}

#[test]
fn only_ascii_letters_are_folded() {
    // U+212A KELVIN SIGN and U+0130 are no ASCII letters.
    assert_eq!(resolve("G\u{130}F"), "application/octet-stream");
    assert_eq!(resolve("\u{212A}"), "application/octet-stream");
}

#[test]
fn content_type_goes_by_the_last_dot_of_the_last_segment() {
    assert_eq!(content_type_for("public/index.html"), "text/html");
    assert_eq!(content_type_for("public/a.txt"), "text/plain");
    assert_eq!(content_type_for("public/archive.tar.zip"), "application/zip");
    assert_eq!(content_type_for("public/v1.2/logo.PNG"), "image/png");
    assert_eq!(content_type_for("public/photo.jpeg"), "image/jpeg");
}

#[test]
fn path_without_extension_gets_the_fallback() {
    assert_eq!(content_type_for("public/README"), "application/octet-stream");
    assert_eq!(content_type_for("public/v1.html/data"), "application/octet-stream");
    assert_eq!(content_type_for("public/.html"), "application/octet-stream");
    assert_eq!(content_type_for("public/.."), "application/octet-stream");
    assert_eq!(content_type_for("public/name."), "application/octet-stream");
    assert_eq!(content_type_for("public/html/"), "application/octet-stream");
    assert_eq!(content_type_for(""), "application/octet-stream");
}

#[test]
fn hidden_file_with_extension_is_resolved() {
    assert_eq!(content_type_for("public/.config.json"), "application/json");
    assert_eq!(content_type_for("a..css"), "text/css");
}

#[test]
fn extension_agrees_with_the_standard_library_on_file_paths() {
    let names = ["a.txt", "a", ".a", "a.", "a.b.css", "..a", "a..html", ".a.js", "x.PNG"];
    for dir in ["public/", "public/v1.2/", "", "public//", "public/../"] {
        for name in names {
            let path = format!("{}{}", dir, name);
            let ext = std::path::Path::new(&path).extension().and_then(|e| e.to_str());
            let expected = match ext {
                Some(ext) => resolve(ext),
                None => "application/octet-stream",
            };
            assert_eq!(content_type_for(&path), expected, "{:?}", path);
        }
    }
}
