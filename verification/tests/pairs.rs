use nbody::pairing::{first_pair, next_pair};

fn walk(n: usize) -> Vec<(usize, usize)> {
    let mut visited = Vec::new();
    let mut pair = first_pair(n);
    while let Some((i, j)) = pair {
        visited.push((i, j));
        pair = next_pair(n, i, j);
    }
    visited
}

#[test]
fn empty_system_has_no_pair() {
    assert_eq!(first_pair(0), None);
    assert!(walk(0).is_empty());
}

#[test]
fn single_body_has_no_pair() {
    assert_eq!(first_pair(1), None);
    assert!(walk(1).is_empty());
}

#[test]
fn two_bodies_form_one_pair() {
    assert_eq!(first_pair(2), Some((0, 1)));
    assert_eq!(next_pair(2, 0, 1), None);
    assert_eq!(walk(2), vec![(0, 1)]);
}

#[test]
fn three_bodies_in_order() {
    assert_eq!(walk(3), vec![(0, 1), (0, 2), (1, 2)]);
}

#[test]
fn four_bodies_in_order() {
    assert_eq!(walk(4), vec![(0, 1), (0, 2), (0, 3), (1, 2), (1, 3), (2, 3)]);
}

#[test]
fn next_pair_moves_to_the_next_row() {
    assert_eq!(next_pair(5, 0, 4), Some((1, 2)));
    assert_eq!(next_pair(5, 2, 4), Some((3, 4)));
    assert_eq!(next_pair(5, 3, 4), None);
}

#[test]
fn nothing_follows_what_is_no_pair() {
    assert_eq!(next_pair(4, 2, 2), None);
    assert_eq!(next_pair(4, 3, 1), None);
    assert_eq!(next_pair(4, 1, 4), None);
    assert_eq!(next_pair(4, 0, usize::MAX), None);
    assert_eq!(next_pair(0, 0, 1), None);
}

#[test]
fn walk_has_half_the_ordered_pairs() {
    for n in 0..=12usize {
        let expected = if n == 0 { 0 } else { n * (n - 1) / 2 };
        assert_eq!(walk(n).len(), expected, "{n}");
    }
    assert_eq!(walk(10).len(), 45);
}

#[test]
fn every_pair_is_visited_exactly_once() {
    for n in 0..=9usize {
        let visited = walk(n);
        for i in 0..n {
            for j in 0..n {
                let times = visited.iter().filter(|&&pair| pair == (i, j)).count();
                assert_eq!(times, if i < j { 1 } else { 0 }, "{n} {i} {j}");
            }
        }
    }
}

#[test]
fn walk_is_in_lexicographic_order() {
    let visited = walk(7);
    for k in 1..visited.len() {
        assert!(visited[k - 1] < visited[k]);
    }
}
