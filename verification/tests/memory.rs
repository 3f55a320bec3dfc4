use pecan::memory::{quote_terms, search_expression, strip_quotes, MemoryManager, MemoryOp, MemoryRecord};

fn add(id: u128, content: &str, summary: &str) -> MemoryOp {
    MemoryOp::Add {
        id,
        content: content.to_string(),
        summary: summary.to_string(),
        timestamp: "2024-01-01T00:00:00+00:00".to_string(),
    }
}

fn record(id: u128, content: &str, summary: &str) -> MemoryRecord {
    MemoryRecord {
        id,
        content: content.to_string(),
        summary: summary.to_string(),
        timestamp: "2024-01-01T00:00:00+00:00".to_string(),
    }
}

fn sample_log() -> Vec<MemoryOp> {
    vec![
        add(1, "first", "one"),
        add(2, "second", "two"),
        MemoryOp::Forget { id: 1 },
        add(3, "third", "three"),
        add(2, "second again", "two again"),
        MemoryOp::Forget { id: 9 },
    ]
}

#[test]
fn replay_applies_operations_in_log_order() {
    let manager = MemoryManager::new(&sample_log());
    assert_eq!(
        manager.records,
        vec![record(3, "third", "three"), record(2, "second again", "two again")]
    );
}

#[test]
fn replay_of_empty_log_is_empty() {
    assert!(MemoryManager::new(&Vec::new()).records.is_empty());
}

#[test]
fn replay_twice_gives_the_same_index() {
    let log = sample_log();
    let first = MemoryManager::new(&log);
    let second = MemoryManager::new(&log);
    assert_eq!(first, second);
    let mut again = MemoryManager::new(&log);
    again.sync_index(&log);
    assert_eq!(again, first);
}

#[test]
fn replay_onto_existing_index_keeps_untouched_rows() {
    let mut manager = MemoryManager { records: vec![record(7, "old", "kept"), record(1, "stale", "gone")] };
    manager.sync_index(&sample_log());
    assert_eq!(
        manager.records,
        vec![
            record(7, "old", "kept"),
            record(3, "third", "three"),
            record(2, "second again", "two again"),
        ]
    );
}

#[test]
fn forget_after_add_wins_and_add_after_forget_wins() {
    let manager = MemoryManager::new(&vec![add(1, "a", "b"), MemoryOp::Forget { id: 1 }]);
    assert!(manager.records.is_empty());
    let manager = MemoryManager::new(&vec![MemoryOp::Forget { id: 1 }, add(1, "a", "b")]);
    assert_eq!(manager.records, vec![record(1, "a", "b")]);
}

#[test]
fn add_memory_then_forget() {
    let mut manager = MemoryManager::new(&Vec::new());
    let op = manager.add_memory("the cat sat", "about a cat");
    let id = match &op {
        MemoryOp::Add { id, content, summary, .. } => {
            assert_eq!(content, "the cat sat");
            assert_eq!(summary, "about a cat");
            *id
        }
        MemoryOp::Forget { .. } => panic!("expected an Add"),
    };
    assert_eq!(manager.records.len(), 1);
    let found = manager.get(id).unwrap();
    assert_eq!(found.content, "the cat sat");
    assert_eq!(found.summary, "about a cat");
    let forget = manager.forget_memory(id);
    assert_eq!(forget, MemoryOp::Forget { id });
    assert!(manager.get(id).is_none());
    assert!(manager.records.is_empty());
}

#[test]
fn add_memory_gives_fresh_ids_and_timestamps() {
    let mut manager = MemoryManager::new(&Vec::new());
    let a = manager.add_memory("a", "a");
    let b = manager.add_memory("b", "b");
    let (id_a, id_b) = match (&a, &b) {
        (MemoryOp::Add { id: x, timestamp, .. }, MemoryOp::Add { id: y, .. }) => {
            assert!(chrono::DateTime::parse_from_rfc3339(timestamp).is_ok());
            (*x, *y)
        }
        _ => panic!("expected two Adds"),
    };
    assert_ne!(id_a, id_b);
    assert_eq!(uuid::Uuid::from_u128(id_a).get_version_num(), 4);
    assert_eq!(manager.records.len(), 2);
}

#[test]
fn prepare_add_leaves_index_alone() {
    let op = MemoryManager::prepare_add("c", "s");
    assert!(matches!(op, MemoryOp::Add { .. }));
}

#[test]
fn log_of_adds_replays_to_the_same_index() {
    let mut manager = MemoryManager::new(&Vec::new());
    let mut log = Vec::new();
    log.push(manager.add_memory("one", "1"));
    log.push(manager.add_memory("two", "2"));
    let first_id = match &log[0] {
        MemoryOp::Add { id, .. } => *id,
        _ => unreachable!(),
    };
    log.push(manager.forget_memory(first_id));
    assert_eq!(MemoryManager::new(&log), manager);
}

#[test]
fn compaction_is_one_add_per_row() {
    let manager = MemoryManager::new(&sample_log());
    let compacted = manager.compact();
    assert_eq!(compacted, vec![add(3, "third", "three"), add(2, "second again", "two again")]);
}

#[test]
fn compacted_log_replays_to_the_same_index() {
    let manager = MemoryManager::new(&sample_log());
    let compacted = manager.compact();
    assert_eq!(MemoryManager::new(&compacted), manager);
    assert!(MemoryManager::new(&Vec::new()).compact().is_empty());
}

#[test]
fn apply_single_operations() {
    let mut manager = MemoryManager::new(&Vec::new());
    manager.apply(&add(5, "x", "y"));
    manager.apply(&add(6, "p", "q"));
    manager.apply(&add(5, "x2", "y2"));
    assert_eq!(manager.records, vec![record(6, "p", "q"), record(5, "x2", "y2")]);
    manager.apply(&MemoryOp::Forget { id: 6 });
    assert_eq!(manager.records, vec![record(5, "x2", "y2")]);
}

#[test]
fn search_expression_quotes_each_term() {
    assert_eq!(search_expression("hello world"), "\"hello\" \"world\"");
    assert_eq!(search_expression("  hello \t world\n"), "\"hello\" \"world\"");
    assert_eq!(search_expression("single"), "\"single\"");
    assert_eq!(search_expression(""), "");
    assert_eq!(search_expression("   "), "");
}

#[test]
fn search_expression_neutralizes_quotes_and_operators() {
    assert_eq!(search_expression("say \"hi\" now"), "\"say\" \"hi\" \"now\"");
    assert_eq!(search_expression("a\"b"), "\"ab\"");
    assert_eq!(search_expression("\""), "\"\"");
    assert_eq!(search_expression("NOT foo* OR (bar)"), "\"NOT\" \"foo*\" \"OR\" \"(bar)\"");
    assert_eq!(search_expression("caf\u{e9} \u{1f600}"), "\"caf\u{e9}\" \"\u{1f600}\"");
}

#[test]
fn quote_terms_does_not_split() {
    assert_eq!(quote_terms(&vec!["a b".to_string(), "c".to_string()]), "\"a b\" \"c\"");
    assert_eq!(quote_terms(&Vec::new()), "");
    assert_eq!(strip_quotes("\"q\"u\"o\"te"), "quote");
    assert_eq!(strip_quotes(""), "");
}

#[test]
fn search_returns_rows_for_matches_in_order() {
    let manager = MemoryManager::new(&sample_log());
    assert_eq!(
        manager.search(&vec![2, 3], 5),
        vec![
            ("second again".to_string(), "two again".to_string()),
            ("third".to_string(), "three".to_string()),
        ]
    );
    assert_eq!(manager.search(&vec![3, 2], 1), vec![("third".to_string(), "three".to_string())]);
    assert!(manager.search(&vec![3, 2], 0).is_empty());
    assert!(manager.search(&Vec::new(), 5).is_empty());
}

#[test]
fn search_skips_forgotten_and_unknown_ids() {
    let mut manager = MemoryManager::new(&sample_log());
    assert_eq!(manager.search(&vec![1, 9, 3], 5), vec![("third".to_string(), "three".to_string())]);
    manager.forget_memory(3);
    assert!(manager.search(&vec![1, 9, 3], 5).is_empty());
    assert_eq!(manager.find(&vec![2, 2]).len(), 2);
}

#[test]
fn added_memory_is_found_until_forgotten() {
    let mut manager = MemoryManager::new(&sample_log());
    let op = manager.add_memory("the cat sat", "about a cat");
    let id = op.id();
    assert_eq!(
        manager.search(&vec![id], 5),
        vec![("the cat sat".to_string(), "about a cat".to_string())]
    );
    manager.forget_memory(id);
    assert!(manager.search(&vec![id], 5).is_empty());
    assert_eq!(MemoryOp::Forget { id: 4 }.id(), 4);
}

#[test]
fn get_finds_first_row_with_id() {
    let manager = MemoryManager {
        records: vec![record(1, "a", "first"), record(2, "b", "x"), record(1, "c", "second")],
    };
    assert_eq!(manager.get(1), Some(&record(1, "a", "first")));
    assert_eq!(manager.get(2), Some(&record(2, "b", "x")));
    assert_eq!(manager.get(3), None);
}
