use superego::tools::{classify, is_read_only, requires_gating, ToolClass};

#[test]
fn test_read_tools() {
    assert_eq!(classify("Read"), ToolClass::Read);
    assert_eq!(classify("Glob"), ToolClass::Read);
    assert_eq!(classify("Grep"), ToolClass::Read);
    assert_eq!(classify("WebSearch"), ToolClass::Read);
    assert!(!requires_gating("Read"));
}

#[test]
fn test_write_tools() {
    assert_eq!(classify("Edit"), ToolClass::Write);
    assert_eq!(classify("Write"), ToolClass::Write);
    assert_eq!(classify("Bash"), ToolClass::Write);
    assert_eq!(classify("Task"), ToolClass::Write);
    assert!(requires_gating("Bash"));
}

#[test]
fn test_unknown_tools_are_gated() {
    // Unknown tools should be treated as write for safety
    assert_eq!(classify("SomeNewTool"), ToolClass::Unknown);
    assert!(requires_gating("SomeNewTool"));
}

#[test]
fn every_read_name_maps_to_read() {
    let read_names = ["Glob", "Grep", "Read", "LS", "WebFetch", "WebSearch", "TaskOutput"];
    for name in read_names {
        assert_eq!(classify(name), ToolClass::Read);
        assert!(!requires_gating(name));
        assert!(is_read_only(name));
    }
}

#[test]
fn every_other_name_requires_gating() {
    let write_names = ["Edit", "Write", "Bash", "Task", "NotebookEdit", "KillShell", "TodoWrite"];
    for name in write_names {
        assert_eq!(classify(name), ToolClass::Write);
        assert!(requires_gating(name));
        assert!(!is_read_only(name));
    }
    for name in ["", "read", "GLOB", "Shell", "MysteryTool"] {
        assert_eq!(classify(name), ToolClass::Unknown);
        assert!(requires_gating(name));
        assert!(!is_read_only(name));
    }
}
