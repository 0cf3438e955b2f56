use paddleocr_rs_onnx::ordering::{arrange_blocks, kept_regions, BlockKey};
use paddleocr_rs_onnx::{OrderBy, PaddleOcrError};

fn key(x: i64, y: i64, confidence: i64) -> BlockKey {
    BlockKey { x, y, confidence }
}

#[test]
fn horizontal_is_top_to_bottom_then_left_to_right() {
    let keys = vec![key(50, 10, 0), key(0, 20, 0), key(10, 10, 0), key(0, 0, 0)];
    assert_eq!(arrange_blocks(&keys, OrderBy::Horizontal), vec![3, 2, 0, 1]);
}

#[test]
fn vertical_is_right_to_left_then_top_to_bottom() {
    let keys = vec![key(50, 10, 0), key(0, 20, 0), key(10, 10, 0), key(0, 0, 0)];
    assert_eq!(arrange_blocks(&keys, OrderBy::Vertical), vec![0, 2, 3, 1]);
    let two = vec![key(0, 0, 0), key(10, 0, 0)];
    assert_eq!(arrange_blocks(&two, OrderBy::Vertical), vec![1, 0]);
}

#[test]
fn score_is_most_confident_first() {
    let keys = vec![key(0, 0, 5), key(0, 0, 9), key(0, 0, -1), key(0, 0, 7)];
    assert_eq!(arrange_blocks(&keys, OrderBy::Score), vec![1, 3, 0, 2]);
}

#[test]
fn ties_keep_their_original_order() {
    let keys = vec![key(1, 1, 3), key(2, 2, 3), key(0, 0, 3), key(1, 1, 4), key(1, 1, 3)];
    assert_eq!(arrange_blocks(&keys, OrderBy::Score), vec![3, 0, 1, 2, 4]);
    assert_eq!(arrange_blocks(&keys, OrderBy::Horizontal), vec![2, 0, 3, 4, 1]);
}

#[test]
fn empty_and_single() {
    assert_eq!(arrange_blocks(&vec![], OrderBy::Horizontal), Vec::<usize>::new());
    assert_eq!(arrange_blocks(&vec![key(3, 4, 5)], OrderBy::Vertical), vec![0]);
}

#[test]
fn arrangement_is_a_permutation() {
    let keys: Vec<BlockKey> = (0..40).map(|i: i64| key((i * 7) % 5, (i * 13) % 3, (i * 11) % 4)).collect();
    for order in [OrderBy::Horizontal, OrderBy::Vertical, OrderBy::Score] {
        let mut listing = arrange_blocks(&keys, order);
        listing.sort();
        assert_eq!(listing, (0..40).collect::<Vec<usize>>());
    }
}

#[test]
fn arrangement_matches_a_stable_sort() {
    let keys: Vec<BlockKey> = (0..30).map(|i: i64| key((i * 7) % 5, (i * 13) % 3, (i * 11) % 4)).collect();
    let mut expected: Vec<usize> = (0..30).collect();
    expected.sort_by(|a, b| keys[*a].y.cmp(&keys[*b].y).then(keys[*a].x.cmp(&keys[*b].x)));
    assert_eq!(arrange_blocks(&keys, OrderBy::Horizontal), expected);
    let mut expected: Vec<usize> = (0..30).collect();
    expected.sort_by(|a, b| keys[*b].x.cmp(&keys[*a].x).then(keys[*a].y.cmp(&keys[*b].y)));
    assert_eq!(arrange_blocks(&keys, OrderBy::Vertical), expected);
    let mut expected: Vec<usize> = (0..30).collect();
    expected.sort_by(|a, b| keys[*b].confidence.cmp(&keys[*a].confidence));
    assert_eq!(arrange_blocks(&keys, OrderBy::Score), expected);
}

#[test]
fn only_non_empty_recognitions_are_kept() {
    let outcomes = vec![
        Ok("hello".to_string()),
        Ok(String::new()),
        Err(PaddleOcrError::DegenerateRegion { reason: "too small".to_string() }),
        Ok("world".to_string()),
        Err(PaddleOcrError::General("failed".to_string())),
    ];
    assert_eq!(kept_regions(&outcomes), vec![0, 3]);
}

#[test]
fn nothing_kept_from_nothing() {
    assert_eq!(kept_regions(&vec![]), Vec::<usize>::new());
    assert_eq!(kept_regions(&vec![Ok(String::new())]), Vec::<usize>::new());
}
