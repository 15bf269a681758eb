use termbf::jump::build_jump_map;
use termbf::token::tokenize;

#[test]
fn test_jump_table_nested_pairs() {
    // indices: 0 '[' 1 '[' 2 ']' 3 ']'
    let tokens = tokenize("[[]]");
    let table = build_jump_map(&tokens);
    assert_eq!(table, vec![Some(4), Some(3), Some(2), Some(1)]);
}

#[test]
fn test_jump_table_sequential_pairs() {
    // indices: 0 '[' 1 ']' 2 '+' 3 '[' 4 ']'
    let tokens = tokenize("[]+[]");
    let table = build_jump_map(&tokens);
    assert_eq!(table, vec![Some(2), Some(1), None, Some(5), Some(4)]);
}

#[test]
fn test_jump_table_unmatched_brackets_get_no_entry() {
    let tokens = tokenize("][");
    let table = build_jump_map(&tokens);
    assert_eq!(table, vec![None, None]);

    let tokens = tokenize("[[]");
    let table = build_jump_map(&tokens);
    // only the inner pair is matched
    assert_eq!(table, vec![None, Some(3), Some(2)]);
}

#[test]
fn test_jump_table_skips_non_bracket_tokens() {
    let tokens = tokenize("+[-.]>");
    let table = build_jump_map(&tokens);
    assert_eq!(table, vec![None, Some(5), None, None, Some(2), None]);
}
