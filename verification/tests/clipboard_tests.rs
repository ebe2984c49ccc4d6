use clipbin::clipboard::{ClipboardContent, ClipboardMonitor, ClipboardReader};
use clipbin::models::ContentType;
use clipbin::text::is_file_path;

struct MockClipboard {
    text: Option<String>,
    image: Option<Vec<u8>>,
}

impl MockClipboard {
    fn new() -> Self {
        Self {
            text: None,
            image: None,
        }
    }

    fn set_text(&mut self, text: &str) {
        self.text = Some(text.to_string());
        self.image = None;
    }

    fn set_image(&mut self, data: Vec<u8>) {
        self.image = Some(data);
        self.text = None;
    }
}

impl ClipboardReader for MockClipboard {
    fn get_text(&mut self) -> Option<String> {
        self.text.clone()
    }

    fn get_image(&mut self) -> Option<Vec<u8>> {
        self.image.clone()
    }
}

#[test]
fn test_compute_hash_text() {
    let content = ClipboardContent::Text("hello".to_string());
    let hash = content.compute_hash();
    assert!(!hash.is_empty());
    assert_eq!(hash.len(), 64); // SHA-256 = 32 bytes = 64 hex chars

    // Same content produces same hash
    let content2 = ClipboardContent::Text("hello".to_string());
    assert_eq!(content.compute_hash(), content2.compute_hash());
}

#[test]
fn test_compute_hash_different_types() {
    let text = ClipboardContent::Text("hello".to_string());
    let filepath = ClipboardContent::FilePath("hello".to_string());

    // Different types with same string produce different hashes
    assert_ne!(text.compute_hash(), filepath.compute_hash());
}

#[test]
fn test_compute_hash_image() {
    let content = ClipboardContent::Image(vec![1, 2, 3, 4]);
    let hash = content.compute_hash();
    assert_eq!(hash.len(), 64);
}

#[test]
fn test_is_file_path() {
    assert!(is_file_path("/Users/test/file.txt"));
    assert!(is_file_path("~/Documents/file.txt"));
    assert!(!is_file_path("hello world"));
    assert!(!is_file_path("http://example.com"));
    assert!(!is_file_path("/path/one\n/path/two"));
    assert!(!is_file_path(""));
    assert!(!is_file_path("  "));
}

#[test]
fn test_into_new_clip_text() {
    let content = ClipboardContent::Text("hello".to_string());
    let clip = content.into_new_clip();
    assert_eq!(clip.content_type, ContentType::Text);
    assert_eq!(clip.text_content.as_deref(), Some("hello"));
    assert!(clip.image_data.is_none());
}

#[test]
fn test_into_new_clip_image() {
    let content = ClipboardContent::Image(vec![1, 2, 3]);
    let clip = content.into_new_clip();
    assert_eq!(clip.content_type, ContentType::Image);
    assert!(clip.text_content.is_none());
    assert_eq!(clip.image_data, Some(vec![1, 2, 3]));
}

#[test]
fn test_into_new_clip_filepath() {
    let content = ClipboardContent::FilePath("/tmp/test.txt".to_string());
    let clip = content.into_new_clip();
    assert_eq!(clip.content_type, ContentType::FilePath);
    assert_eq!(clip.text_content.as_deref(), Some("/tmp/test.txt"));
}

#[test]
fn test_monitor_detects_new_text() {
    let mut mock = MockClipboard::new();
    mock.set_text("hello");
    let mut monitor = ClipboardMonitor::new(mock);

    let result = monitor.check();
    assert!(result.is_some());
    match result.unwrap() {
        ClipboardContent::Text(t) => assert_eq!(t, "hello"),
        _ => panic!("Expected text content"),
    }
}

#[test]
fn test_monitor_ignores_duplicate() {
    let mut mock = MockClipboard::new();
    mock.set_text("hello");
    let mut monitor = ClipboardMonitor::new(mock);

    // First check: new content
    assert!(monitor.check().is_some());
    // Second check: same content, should be None
    assert!(monitor.check().is_none());
}

#[test]
fn test_monitor_detects_change() {
    let mut mock = MockClipboard::new();
    mock.set_text("hello");
    let mut monitor = ClipboardMonitor::new(mock);

    assert!(monitor.check().is_some());
    assert!(monitor.check().is_none());

    // Change the text
    monitor.reader.set_text("world");
    let result = monitor.check();
    assert!(result.is_some());
    match result.unwrap() {
        ClipboardContent::Text(t) => assert_eq!(t, "world"),
        _ => panic!("Expected text content"),
    }
}

#[test]
fn test_monitor_detects_file_path() {
    let mut mock = MockClipboard::new();
    mock.set_text("/Users/test/file.txt");
    let mut monitor = ClipboardMonitor::new(mock);

    let result = monitor.check();
    assert!(result.is_some());
    match result.unwrap() {
        ClipboardContent::FilePath(p) => assert_eq!(p, "/Users/test/file.txt"),
        _ => panic!("Expected file path content"),
    }
}

#[test]
fn test_monitor_detects_image() {
    let mut mock = MockClipboard::new();
    mock.set_image(vec![10, 20, 30]);
    let mut monitor = ClipboardMonitor::new(mock);

    let result = monitor.check();
    assert!(result.is_some());
    match result.unwrap() {
        ClipboardContent::Image(data) => assert_eq!(data, vec![10, 20, 30]),
        _ => panic!("Expected image content"),
    }
}

// ---- further cases ----

#[test]
fn compute_hash_exact_values() {
    assert_eq!(
        ClipboardContent::Text("hello".to_string()).compute_hash(),
        "eadf732aba96d643feaa39909a300bc8a25b15fabdf41bf20819b8ce8fd3746f"
    );
    assert_eq!(
        ClipboardContent::FilePath("hello".to_string()).compute_hash(),
        "241bc58f272ef9f5ea1a5469098c78846ec897e7172086bd78382da1b267b0a7"
    );
    assert_eq!(
        ClipboardContent::Image(vec![1, 2, 3, 4]).compute_hash(),
        "83b88be93fb77b4b09f683df2d60110aff7fad04c3094c1e505a0ba69d149653"
    );
}

#[test]
fn into_new_clip_carries_hash_and_no_source() {
    let content = ClipboardContent::Text("hello".to_string());
    let hash = content.compute_hash();
    let clip = content.into_new_clip();
    assert_eq!(clip.content_hash, hash);
    assert!(clip.source_app.is_none());
    assert!(clip.representations.is_empty());
}

#[test]
fn is_file_path_trims_and_checks_prefix() {
    assert!(is_file_path("  /tmp/x  \n"));
    assert!(is_file_path("\t~/notes.md"));
    assert!(!is_file_path("~"));
    assert!(!is_file_path("~x/abc"));
    assert!(!is_file_path("relative/path"));
    assert!(is_file_path("/"));
    assert!(is_file_path("\u{3000}/wide-space-trimmed\u{2003}"));
}

#[test]
fn monitor_text_then_image_tracked_separately() {
    let mut mock = MockClipboard::new();
    mock.set_text("hello");
    let mut monitor = ClipboardMonitor::new(mock);
    assert!(monitor.check().is_some());
    monitor.reader.set_image(vec![1, 2]);
    assert!(monitor.check().is_some());
    assert!(monitor.check().is_none());
    // the text mark is still "hello": copying it again is not reported
    monitor.reader.set_text("hello");
    assert!(monitor.check().is_none());
}

#[test]
fn monitor_empty_clipboard_reports_nothing() {
    let mock = MockClipboard::new();
    let mut monitor = ClipboardMonitor::new(mock);
    assert!(monitor.check().is_none());
}

#[test]
fn monitor_observe_functions() {
    let mut monitor = ClipboardMonitor::new(MockClipboard::new());
    assert!(monitor.observe_text("a".to_string()).is_some());
    assert!(monitor.observe_text("a".to_string()).is_none());
    assert!(monitor.observe_text("b".to_string()).is_some());
    assert!(monitor.observe_text("a".to_string()).is_some());
    assert!(monitor.observe_image(vec![9]).is_some());
    assert!(monitor.observe_image(vec![9]).is_none());
}
