use flemish::models::base64::{add_resize, render, FlexType, Model, Msg};
use flemish::sandbox::Sandbox;

#[test]
fn coder_starts_with_hints() {
    let model = Model::new();
    assert_eq!(model.focus(), 0);
    assert_eq!(model.decode(), "Normal text");
    assert_eq!(model.encode(), "Base64 text");
    assert_eq!(model.title(), "FlBase64 - encode");
}

#[test]
fn plain_text_is_encoded() {
    let mut model = Model::default();
    model.set_decode(String::from("hello"));
    assert_eq!(model.decode(), "hello");
    assert_eq!(model.encode(), "aGVsbG8=");
    assert_eq!(model.focus(), 0);
    assert_eq!(model.title(), "FlBase64 - encode");
}

#[test]
fn empty_plain_text_is_encoded_as_empty() {
    let mut model = Model::default();
    model.set_decode(String::new());
    assert_eq!(model.decode(), "");
    assert_eq!(model.encode(), "");
}

#[test]
fn base64_text_is_decoded() {
    let mut model = Model::default();
    model.set_encode(String::from("aGVsbG8gd29ybGQ="));
    assert_eq!(model.encode(), "aGVsbG8gd29ybGQ=");
    assert_eq!(model.decode(), "hello world");
    assert_eq!(model.focus(), 2);
    assert_eq!(model.title(), "FlBase64 - decode");
}

#[test]
fn invalid_base64_text_shows_the_fault() {
    let mut model = Model::new();
    assert!(model.update(Msg::Enc(String::from("!!!"))));
    assert_eq!(model.encode(), "!!!");
    assert_eq!(model.decode(), "Invalid symbol 33, offset 0.");
    assert_eq!(model.focus(), 2);
}

#[test]
fn base64_text_of_wrong_length_shows_the_fault() {
    let mut model = Model::new();
    model.set_encode(String::from("aGVsbG8"));
    assert_eq!(model.decode(), "Invalid padding");
}

#[test]
fn bytes_that_are_no_text_show_the_fault() {
    let mut model = Model::new();
    model.set_encode(String::from("/w=="));
    assert_eq!(model.encode(), "/w==");
    assert_eq!(model.decode(), "invalid utf-8 sequence of 1 bytes from index 0");
}

#[test]
fn update_carries_each_side_over() {
    let mut model = Model::new();
    assert!(model.update(Msg::Dec(String::from("Rust"))));
    assert_eq!(model.encode(), "UnVzdA==");
    assert!(model.update(Msg::Enc(String::from("VmVydXM="))));
    assert_eq!(model.decode(), "Verus");
    let tree = model.view();
    assert_eq!(tree.decode, "Verus");
    assert_eq!(tree.encode, "VmVydXM=");
    assert_eq!(tree.focus, 2);
}

#[test]
fn render_shows_text_or_fault() {
    assert_eq!(render(Ok(vec![104, 105])), "hi");
    assert_eq!(render(Ok(Vec::new())), "");
    assert_eq!(render(Err(String::from("broken"))), "broken");
    assert_eq!(
        render(Ok(vec![0xe2, 0x82])),
        "incomplete utf-8 byte sequence from index 0"
    );
}

#[test]
fn resize_picks_the_layout() {
    assert_eq!(add_resize(true, Some((360, 640))), (Some(FlexType::Column), true));
    assert_eq!(add_resize(true, Some((640, 360))), (Some(FlexType::Row), true));
    assert_eq!(add_resize(true, Some((400, 400))), (Some(FlexType::Row), true));
    assert_eq!(add_resize(true, None), (None, true));
    assert_eq!(add_resize(false, Some((360, 640))), (None, false));
}
