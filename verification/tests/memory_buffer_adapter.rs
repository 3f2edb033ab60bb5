use goxviet_core::state::MemoryBufferAdapter;


#[test]
fn memory_buffer_adapter_test_new() {
    let adapter = MemoryBufferAdapter::new();
    assert!(adapter.is_empty());
    assert_eq!(adapter.len(), 0);
}

#[test]
fn memory_buffer_adapter_test_default() {
    let adapter = MemoryBufferAdapter::default();
    assert!(adapter.is_empty());
}

#[test]
fn test_append() {
    let mut adapter = MemoryBufferAdapter::new();
    assert!(adapter.append("h"));
    assert!(adapter.append("o"));
    assert!(adapter.append("a"));
    assert_eq!(adapter.current().content().as_str(), "hoa");
    assert_eq!(adapter.len(), 3);
}

#[test]
fn test_append_multiple_chars() {
    let mut adapter = MemoryBufferAdapter::new();
    assert!(adapter.append("hello"));
    assert_eq!(adapter.current().content().as_str(), "hello");
    assert_eq!(adapter.len(), 5);
}

#[test]
fn test_append_returns_false_when_full() {
    let mut adapter = MemoryBufferAdapter::new();
    // Fill buffer to capacity (256 chars)
    let large_text = "a".repeat(256);
    assert!(adapter.append(&large_text));
    
    // Try to append more - should return false
    assert!(!adapter.append("b"));
}

#[test]
fn test_delete() {
    let mut adapter = MemoryBufferAdapter::new();
    adapter.append("hello");
    
    let deleted = adapter.delete(2);
    assert_eq!(deleted, 2);
    assert_eq!(adapter.current().content().as_str(), "hel");
}

#[test]
fn test_delete_more_than_available() {
    let mut adapter = MemoryBufferAdapter::new();
    adapter.append("hi");
    
    let deleted = adapter.delete(5);
    assert_eq!(deleted, 2); // Only deleted what was available
    assert!(adapter.is_empty());
}

#[test]
fn test_replace() {
    let mut adapter = MemoryBufferAdapter::new();
    adapter.append("hello");
    adapter.replace("world");
    assert_eq!(adapter.current().content().as_str(), "world");
}

#[test]
fn memory_buffer_adapter_test_clear() {
    let mut adapter = MemoryBufferAdapter::new();
    adapter.append("hello");
    adapter.clear();
    assert!(adapter.is_empty());
    assert_eq!(adapter.len(), 0);
}

#[test]
fn test_is_empty() {
    let mut adapter = MemoryBufferAdapter::new();
    assert!(adapter.is_empty());
    
    adapter.append("a");
    assert!(!adapter.is_empty());
    
    adapter.clear();
    assert!(adapter.is_empty());
}

#[test]
fn test_len() {
    let mut adapter = MemoryBufferAdapter::new();
    assert_eq!(adapter.len(), 0);
    
    adapter.append("hello");
    assert_eq!(adapter.len(), 5);
    
    adapter.delete(2);
    assert_eq!(adapter.len(), 3);
}

#[test]
fn memory_buffer_adapter_test_vietnamese_text() {
    let mut adapter = MemoryBufferAdapter::new();
    adapter.append("tr");
    adapter.append("ư");
    adapter.append("ờ");
    adapter.append("ng");
    
    assert_eq!(adapter.current().content().as_str(), "trường");
    assert_eq!(adapter.len(), 6);
}

#[test]
fn test_current_and_current_mut() {
    let mut adapter = MemoryBufferAdapter::new();
    adapter.append("test");
    
    // Test immutable reference
    let buffer_ref = adapter.current();
    assert_eq!(buffer_ref.content().as_str(), "test");
    
    // Test mutable reference
    let buffer_mut = adapter.current_mut();
    buffer_mut.append('!');
    assert_eq!(adapter.current().content().as_str(), "test!");
}

#[test]
fn test_snapshot() {
    let mut adapter = MemoryBufferAdapter::new();
    adapter.append("hello");
    
    let snapshot = adapter.snapshot();
    assert_eq!(snapshot.as_str(), "hello");
    
    adapter.append(" world");
    assert_eq!(adapter.current().content().as_str(), "hello world");
    assert_eq!(snapshot.as_str(), "hello"); // Snapshot unchanged
}

#[test]
fn test_delete_undoes_append() {
    let mut adapter = MemoryBufferAdapter::new();
    adapter.append("tr");
    assert!(adapter.append("ường"));
    assert_eq!(adapter.delete(4), 4);
    assert_eq!(adapter.current().content().as_str(), "tr");
}
