use clipbin::codec::{base64_decode, base64_encodable, base64_encode, decode_image_rgba8, encode_rgba_to_png};
use clipbin::digest::hex_sha256;
use clipbin::history::{
    fts_prefix_query, import_candidate, page_limit, page_offset, should_record, store_action,
    StoreAction, DEFAULT_PAGE_LIMIT,
};
use clipbin::menu::pin_menu_label;
use clipbin::models::{clips_to_dtos, Clip, ClipDto, ClipRow, ContentType};
use clipbin::paste::{paste_payload, was_self_triggered, PasteGuard, PastePayload};
use clipbin::screenshot::{editor_payload, get_screenshot_data, screenshot_pixels, ScreenshotData};
use clipbin::settings::Settings;
use clipbin::text::str_eq_ignore_ascii_case;
use clipbin::window::{mark_action_public, set_blur_paused, ToggleAction, WindowState, GRACE_MS};

fn clip(content_type: ContentType, text: Option<&str>, image: Option<Vec<u8>>) -> Clip {
    Clip {
        id: 7,
        content_type,
        text_content: text.map(|t| t.to_string()),
        image_data: image,
        content_hash: "h".to_string(),
        source_app: Some("Terminal".to_string()),
        created_at: "2024-01-01T00:00:00+00:00".to_string(),
        last_used_at: "2024-01-02T00:00:00+00:00".to_string(),
        use_count: 3,
        is_pinned: true,
    }
}

#[test]
fn content_type_names_round_trip() {
    for t in [ContentType::Text, ContentType::Html, ContentType::Image, ContentType::FilePath] {
        assert_eq!(ContentType::parse(t.as_str()), t);
    }
    assert_eq!(ContentType::FilePath.as_str(), "file_path");
    assert_eq!(ContentType::Html.as_str(), "html");
}

#[test]
fn content_type_unknown_name_is_text() {
    assert_eq!(ContentType::parse("rtf"), ContentType::Text);
    assert_eq!(ContentType::parse(""), ContentType::Text);
    assert_eq!(ContentType::parse("HTML"), ContentType::Text);
}

#[test]
fn to_dto_text_clip() {
    let c = clip(ContentType::Text, Some("hi"), None);
    let d = c.to_dto();
    assert_eq!(d.id, 7);
    assert_eq!(d.content_type, "text");
    assert_eq!(d.text_content.as_deref(), Some("hi"));
    assert!(d.image_preview.is_none());
    assert_eq!(d.source_app.as_deref(), Some("Terminal"));
    assert_eq!(d.use_count, 3);
    assert!(d.is_pinned);
    assert_eq!(d.created_at, "2024-01-01T00:00:00+00:00");
}

#[test]
fn to_dto_image_clip_has_data_url() {
    let c = clip(ContentType::Image, None, Some(vec![1, 2, 3]));
    let d = c.to_dto();
    assert_eq!(d.content_type, "image");
    assert_eq!(d.image_preview.as_deref(), Some("data:image/png;base64,AQID"));
}

#[test]
fn clips_to_dtos_keeps_order() {
    let a = clip(ContentType::Text, Some("a"), None);
    let mut b = clip(ContentType::FilePath, Some("/b"), None);
    b.id = 8;
    let dtos = clips_to_dtos(&vec![a, b]);
    assert_eq!(dtos.len(), 2);
    assert_eq!(dtos[0].id, 7);
    assert_eq!(dtos[1].id, 8);
    assert_eq!(dtos[1].content_type, "file_path");
}

#[test]
fn row_into_clip_parses_type() {
    let row = ClipRow {
        id: 3,
        content_type: "file_path".to_string(),
        text_content: Some("/x".to_string()),
        image_data: None,
        content_hash: "abc".to_string(),
        source_app: None,
        created_at: "t0".to_string(),
        last_used_at: "t1".to_string(),
        use_count: 2,
        is_pinned: false,
    };
    let c = row.into_clip();
    assert_eq!(c.content_type, ContentType::FilePath);
    assert_eq!(c.id, 3);
    assert_eq!(c.content_hash, "abc");
    assert_eq!(c.use_count, 2);
    assert!(!c.is_pinned);
}

#[test]
fn settings_defaults() {
    let s = Settings::default();
    assert_eq!(s.hotkey, "Shift+CmdOrCtrl+V");
    assert_eq!(s.max_clips, 500);
    assert_eq!(s.ignored_apps, vec!["1Password", "Keychain Access", "KeePassXC"]);
}

#[test]
fn ignored_app_is_case_insensitive() {
    let s = Settings::default();
    assert!(s.is_ignored_app("1password"));
    assert!(s.is_ignored_app("KEEPASSXC"));
    assert!(s.is_ignored_app("keychain access"));
    assert!(!s.is_ignored_app("Keychain"));
    assert!(!s.is_ignored_app("Safari"));
    assert!(str_eq_ignore_ascii_case("Ab", "aB"));
    assert!(!str_eq_ignore_ascii_case("É", "é"));
}

#[test]
fn apply_update_reports_hotkey_change() {
    let mut s = Settings::default();
    assert!(!s.apply_update("Shift+CmdOrCtrl+V".to_string(), 100, None));
    assert_eq!(s.max_clips, 100);
    assert_eq!(s.ignored_apps.len(), 3);
    assert!(s.apply_update("CmdOrCtrl+B".to_string(), 20, Some(vec!["Foo".to_string()])));
    assert_eq!(s.hotkey, "CmdOrCtrl+B");
    assert_eq!(s.ignored_apps, vec!["Foo"]);
}

#[test]
fn window_toggle_debounce() {
    let mut w = WindowState::new();
    assert!(w.is_in_grace_period(0));
    assert_eq!(w.toggle(100, false), ToggleAction::Ignore);
    assert_eq!(w.toggle(1000, false), ToggleAction::Show);
    assert_eq!(w.toggle(1000 + GRACE_MS - 1, true), ToggleAction::Ignore);
    assert_eq!(w.toggle(1000 + GRACE_MS, true), ToggleAction::Hide);
    // a clock that went backwards counts as no time elapsed
    assert!(w.is_in_grace_period(5));
}

#[test]
fn window_focus_loss_rules() {
    let mut w = WindowState::new();
    assert!(!w.on_focus_lost(10));
    assert!(w.on_focus_lost(10_000));
    assert!(!w.on_focus_lost(10_100));
    set_blur_paused(&mut w, true);
    assert!(!w.on_focus_lost(50_000));
    set_blur_paused(&mut w, false);
    assert!(w.on_focus_lost(50_000));
    mark_action_public(&mut w, 60_000);
    assert!(w.is_in_grace_period(60_599));
    assert!(!w.is_in_grace_period(60_600));
}

#[test]
fn self_trigger_flag_is_one_shot() {
    let mut g = PasteGuard::new();
    assert!(!was_self_triggered(&mut g));
    g.mark_self_triggered();
    assert!(was_self_triggered(&mut g));
    assert!(!was_self_triggered(&mut g));
}

#[test]
fn paste_payload_by_type() {
    match paste_payload(&clip(ContentType::Text, Some("t"), None)) {
        PastePayload::Text(t) => assert_eq!(t, "t"),
        _ => panic!("expected text"),
    }
    match paste_payload(&clip(ContentType::Html, Some("<b>"), None)) {
        PastePayload::Text(t) => assert_eq!(t, "<b>"),
        _ => panic!("expected text"),
    }
    match paste_payload(&clip(ContentType::Image, Some("x"), Some(vec![5]))) {
        PastePayload::Image(d) => assert_eq!(d, vec![5]),
        _ => panic!("expected image"),
    }
    assert!(matches!(paste_payload(&clip(ContentType::Image, None, None)), PastePayload::Nothing));
    assert!(matches!(paste_payload(&clip(ContentType::FilePath, None, None)), PastePayload::Nothing));
}

#[test]
fn history_paging_and_query() {
    assert_eq!(page_limit(None), DEFAULT_PAGE_LIMIT);
    assert_eq!(page_limit(Some(5)), 5);
    assert_eq!(page_offset(None), 0);
    assert_eq!(page_offset(Some(4)), 4);
    assert_eq!(fts_prefix_query("hello"), "hello*");
    assert_eq!(fts_prefix_query(""), "*");
}

#[test]
fn record_decisions() {
    let s = Settings::default();
    assert!(!should_record(&Some("1Password".to_string()), Some(&s)));
    assert!(should_record(&Some("Notes".to_string()), Some(&s)));
    assert!(should_record(&None, Some(&s)));
    assert!(should_record(&Some("1Password".to_string()), None));
    assert_eq!(store_action(Some(4)), StoreAction::Touch(4));
    assert_eq!(store_action(None), StoreAction::Insert);
}

#[test]
fn import_candidate_hashes_text() {
    let item = ClipDto {
        id: 1,
        content_type: "html".to_string(),
        text_content: Some("hello".to_string()),
        image_preview: None,
        source_app: Some("X".to_string()),
        created_at: "a".to_string(),
        last_used_at: "b".to_string(),
        use_count: 9,
        is_pinned: true,
    };
    let n = import_candidate(&item).unwrap();
    assert_eq!(n.content_type, ContentType::Html);
    assert_eq!(n.text_content.as_deref(), Some("hello"));
    assert_eq!(
        n.content_hash,
        "import_2cf24dba5fb0a30e26e83b2ac5b9e29e1b161e5c1fa7425e73043362938b9824"
    );
    assert!(n.source_app.is_none());
    let mut no_text = item.clone();
    no_text.text_content = None;
    assert!(import_candidate(&no_text).is_none());
}

#[test]
fn digest_and_base64_values() {
    assert_eq!(
        hex_sha256(b"hello"),
        "2cf24dba5fb0a30e26e83b2ac5b9e29e1b161e5c1fa7425e73043362938b9824"
    );
    assert_eq!(base64_encode(b"hello"), "aGVsbG8=");
    assert_eq!(base64_decode("aGVsbG8=").unwrap(), b"hello".to_vec());
    assert!(base64_decode("not base64!").is_err());
    assert!(base64_encodable(0));
    assert!(base64_encodable(1_000_000));
    assert!(!base64_encodable(usize::MAX));
}

#[test]
fn png_round_trip_and_short_buffer() {
    let pixels = vec![1u8, 2, 3, 4, 5, 6, 7, 8];
    let png = encode_rgba_to_png(2, 1, &pixels).unwrap();
    assert_eq!(&png[1..4], b"PNG");
    let back = decode_image_rgba8(&png).unwrap();
    assert_eq!(back.width, 2);
    assert_eq!(back.height, 1);
    assert_eq!(back.bytes, pixels);
    assert!(encode_rgba_to_png(2, 2, &pixels).is_none());
    // extra bytes beyond the image are ignored
    let mut longer = pixels.clone();
    longer.extend_from_slice(&[9, 9, 9, 9]);
    assert_eq!(encode_rgba_to_png(2, 1, &longer).unwrap(), png);
    assert!(decode_image_rgba8(b"garbage").is_err());
}

#[test]
fn screenshot_hand_off() {
    let mut data = ScreenshotData::new();
    assert_eq!(get_screenshot_data(&data), Err("No screenshot data".to_string()));
    data.set("abc".to_string());
    assert_eq!(get_screenshot_data(&data), Ok("abc".to_string()));

    let payload = editor_payload(1, 1, &[10, 20, 30, 40]).unwrap();
    let pixels = screenshot_pixels(&payload).unwrap();
    assert_eq!((pixels.width, pixels.height), (1, 1));
    assert_eq!(pixels.bytes, vec![10, 20, 30, 40]);
    assert_eq!(editor_payload(1, 1, &[1, 2]), Err("Failed to encode image".to_string()));
    assert!(screenshot_pixels("###").is_err());
}

#[test]
fn pin_label() {
    assert_eq!(pin_menu_label(true), "Unpin");
    assert_eq!(pin_menu_label(false), "Pin");
}

#[test]
fn export_then_import_keeps_type_and_text() {
    for t in [ContentType::Text, ContentType::Html, ContentType::FilePath] {
        let c = clip(t, Some("some text"), None);
        let exported = c.to_dto();
        let imported = import_candidate(&exported).unwrap();
        assert_eq!(imported.content_type, t);
        assert_eq!(imported.text_content.as_deref(), Some("some text"));
    }
}

#[test]
fn base64_encoding_cases() {
    assert_eq!(base64_encode(b""), "");
    assert_eq!(base64_encode(&[0u8]), "AA==");
    assert_eq!(base64_encode(b"ab"), "YWI=");
    assert_eq!(base64_encode(&[0xfb, 0xff]), "+/8=");
    assert_eq!(base64_encode(&[0xfb, 0xef, 0xbe]), "++++");
    assert_eq!(base64_encode(b"Many hands"), "TWFueSBoYW5kcw==");
}

#[test]
fn stored_clip_from_new_clip() {
    let n = clipbin::clipboard::ClipboardContent::Text("x".to_string()).into_new_clip();
    let hash = n.content_hash.clone();
    let c = Clip::from_new_clip(n, 42, "2024-05-01T00:00:00+00:00".to_string());
    assert_eq!(c.id, 42);
    assert_eq!(c.content_type, ContentType::Text);
    assert_eq!(c.text_content.as_deref(), Some("x"));
    assert_eq!(c.content_hash, hash);
    assert_eq!(c.use_count, 1);
    assert!(!c.is_pinned);
    assert_eq!(c.created_at, "2024-05-01T00:00:00+00:00");
    assert_eq!(c.last_used_at, c.created_at);
}

#[test]
fn decoded_pixels_cover_image() {
    let png = encode_rgba_to_png(3, 2, &[7u8; 24]).unwrap();
    let p = decode_image_rgba8(&png).unwrap();
    assert!(p.bytes.len() >= 4 * (p.width as usize) * (p.height as usize));
}

#[test]
fn base64_decode_accepts_only_encoder_output() {
    assert_eq!(base64_decode("").unwrap(), Vec::<u8>::new());
    assert_eq!(base64_decode("AA==").unwrap(), vec![0u8]);
    assert_eq!(base64_decode("+/8=").unwrap(), vec![0xfb, 0xff]);
    assert!(base64_decode("AB==").is_err()); // stray bits in the last character
    assert!(base64_decode("AA").is_err()); // padding missing
    assert!(base64_decode("AAA").is_err());
    assert!(base64_decode("A===").is_err());
    assert!(base64_decode("AA==AA==").is_err()); // padding inside
    assert!(base64_decode("AA AA").is_err());
    for d in [vec![], vec![1u8], vec![1, 2], vec![1, 2, 3], vec![250, 251, 252, 253]] {
        assert_eq!(base64_decode(&base64_encode(&d)).unwrap(), d);
    }
}
