use roger::{Group, MsgError, create_group_outcome, groups_outcome, normalize_group, prepare_group};

#[test]
fn test_prepare_group_fields() {
    let g = prepare_group("Team", "a place to talk");
    assert_eq!(g.name, "Team");
    assert_eq!(g.description.as_deref(), Some("a place to talk"));
    assert_eq!(g.group_id.len(), 36);
}

#[test]
fn test_prepare_group_empty_description() {
    let g = prepare_group("Team", "");
    assert_eq!(g.description.as_deref(), Some(""));
}

#[test]
fn test_normalize_group_fills_description() {
    let g = Group {
        group_id: "g-1".to_string(),
        name: "Team".to_string(),
        description: None,
    };
    let n = normalize_group(g);
    assert_eq!(n.group_id, "g-1");
    assert_eq!(n.name, "Team");
    assert_eq!(n.description.as_deref(), Some(""));

    let g = Group {
        group_id: "g-2".to_string(),
        name: "Team".to_string(),
        description: Some("kept".to_string()),
    };
    let n = normalize_group(g);
    assert_eq!(n.description.as_deref(), Some("kept"));
}

#[test]
fn test_create_group_outcome_responses() {
    let g = Group {
        group_id: "g-3".to_string(),
        name: "Team".to_string(),
        description: Some("".to_string()),
    };
    let ok = create_group_outcome(Ok(g)).unwrap();
    assert_eq!(ok.meta.code, 200);
    assert_eq!(ok.meta.message, "Success");
    assert_eq!(ok.data.group_id, "g-3");
    let err = create_group_outcome(Err(MsgError("insert failed".to_string()))).err().unwrap();
    assert_eq!((err.code, err.message.as_str()), (400, "insert failed"));
}

#[test]
fn test_groups_outcome_responses() {
    let ok = groups_outcome(Ok(vec![])).unwrap();
    assert_eq!(ok.meta.code, 200);
    assert_eq!(ok.data.len(), 0);
    let err = groups_outcome(Err(MsgError("boom".to_string()))).err().unwrap();
    assert_eq!((err.code, err.message.as_str()), (400, "boom"));
}
