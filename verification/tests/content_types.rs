use wasmrun::mime::{asset_content_type, determine_content_type, mime_for, ContentType};

#[test]
fn extension_table_is_complete() {
    assert_eq!(mime_for("html"), ContentType::Html);
    assert_eq!(mime_for("css"), ContentType::Css);
    assert_eq!(mime_for("js"), ContentType::JavaScript);
    assert_eq!(mime_for("json"), ContentType::Json);
    assert_eq!(mime_for("wasm"), ContentType::Wasm);
    assert_eq!(mime_for("png"), ContentType::Png);
    assert_eq!(mime_for("jpg"), ContentType::Jpeg);
    assert_eq!(mime_for("jpeg"), ContentType::Jpeg);
    assert_eq!(mime_for("svg"), ContentType::Svg);
    assert_eq!(mime_for("gif"), ContentType::Gif);
}

#[test]
fn unmapped_extension_is_a_byte_stream() {
    assert_eq!(mime_for("txt"), ContentType::OctetStream);
    assert_eq!(mime_for(""), ContentType::OctetStream);
    assert_eq!(mime_for("PNG"), ContentType::OctetStream);
    assert_eq!(mime_for("wasm2"), ContentType::OctetStream);
    assert_eq!(mime_for("js "), ContentType::OctetStream);
}

#[test]
fn content_types_have_their_header_text() {
    assert_eq!(ContentType::Html.as_str(), "text/html");
    assert_eq!(ContentType::Plain.as_str(), "text/plain");
    assert_eq!(ContentType::Css.as_str(), "text/css");
    assert_eq!(ContentType::JavaScript.as_str(), "application/javascript");
    assert_eq!(ContentType::Json.as_str(), "application/json");
    assert_eq!(ContentType::Wasm.as_str(), "application/wasm");
    assert_eq!(ContentType::Png.as_str(), "image/png");
    assert_eq!(ContentType::Jpeg.as_str(), "image/jpeg");
    assert_eq!(ContentType::Svg.as_str(), "image/svg+xml");
    assert_eq!(ContentType::Gif.as_str(), "image/gif");
    assert_eq!(ContentType::OctetStream.as_str(), "application/octet-stream");
}

#[test]
fn file_content_type_goes_by_extension() {
    assert_eq!(determine_content_type("build/pkg/app.js"), ContentType::JavaScript);
    assert_eq!(determine_content_type("build/index.html"), ContentType::Html);
    assert_eq!(determine_content_type("build/a.b/readme"), ContentType::OctetStream);
    assert_eq!(determine_content_type("build/.png"), ContentType::OctetStream);
    assert_eq!(determine_content_type("build/x.min.css"), ContentType::Css);
}

#[test]
fn asset_content_type_goes_by_ending() {
    assert_eq!(asset_content_type("/assets/a.png"), ContentType::Png);
    assert_eq!(asset_content_type("/assets/a.jpg"), ContentType::Jpeg);
    assert_eq!(asset_content_type("/assets/a.jpeg"), ContentType::Jpeg);
    assert_eq!(asset_content_type("/assets/a.svg"), ContentType::Svg);
    assert_eq!(asset_content_type("/assets/a.gif"), ContentType::Gif);
    assert_eq!(asset_content_type("/assets/a.css"), ContentType::Css);
    assert_eq!(asset_content_type("/assets/a.js"), ContentType::JavaScript);
    assert_eq!(asset_content_type("/assets/a.json"), ContentType::OctetStream);
    assert_eq!(asset_content_type("/assets/a.wasm"), ContentType::OctetStream);
    assert_eq!(asset_content_type("/assets/.png"), ContentType::Png);
    assert_eq!(asset_content_type("/assets/a"), ContentType::OctetStream);
}
