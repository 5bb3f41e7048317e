use std::collections::VecDeque;

use webdir::likeness::{grouped_order, likeness_chain_of, likeness_groups, nearest_neighbours};

fn example_ranks() -> Vec<Vec<u64>> {
    vec![
        vec![0, 5, 1, 9],
        vec![5, 0, 7, 2],
        vec![1, 7, 0, 8],
        vec![9, 2, 8, 0],
    ]
}

#[test]
fn chains_from_the_closest_pair_to_the_nearest_end() {
    assert_eq!(likeness_chain_of(&example_ranks(), &vec![0, 1, 2, 3]), vec![3, 1, 0, 2]);
}

#[test]
fn chains_of_no_image_and_of_one_image() {
    assert_eq!(likeness_chain_of(&example_ranks(), &vec![]), Vec::<usize>::new());
    assert_eq!(likeness_chain_of(&example_ranks(), &vec![2]), vec![0]);
    assert_eq!(likeness_chain_of(&example_ranks(), &vec![3, 0]), vec![0, 1]);
}

#[test]
fn chains_equal_separations_by_position_and_front_first() {
    let ranks = vec![vec![0; 5]; 5];
    // The first pair, then each unused position at the front; the last unused one
    // takes the place of the one taken.
    assert_eq!(likeness_chain_of(&ranks, &vec![0, 1, 2, 3, 4]), vec![3, 4, 2, 0, 1]);
}

#[test]
fn chains_a_subset_of_the_images_by_their_positions() {
    // Images 1, 3 and 0: the closest pair is 1 and 3 (rank 2), then 0 joins 1's end.
    assert_eq!(likeness_chain_of(&example_ranks(), &vec![1, 3, 0]), vec![2, 0, 1]);
}

#[test]
fn keeps_the_four_nearest_images_nearest_first() {
    let ranks = vec![
        vec![0, 4, 2, 2, 9, 1],
        vec![4, 0, 3, 3, 3, 3],
        vec![2, 3, 0, 5, 5, 5],
        vec![2, 3, 5, 0, 5, 5],
        vec![9, 3, 5, 5, 0, 5],
        vec![1, 3, 5, 5, 5, 0],
    ];
    let close: Vec<Vec<bool>> = ranks.iter().map(|row| row.iter().map(|r| *r <= 1).collect()).collect();
    let near: Vec<Vec<bool>> = ranks.iter().map(|row| row.iter().map(|r| *r <= 3).collect()).collect();
    let nearest = nearest_neighbours(&ranks, &close, &near);

    let indices: Vec<Vec<usize>> = nearest.iter().map(|row| row.iter().map(|nb| nb.index).collect()).collect();
    assert_eq!(indices[0], vec![5, 2, 3, 1]);
    assert_eq!(indices[1], vec![2, 3, 4, 5]);
    assert_eq!(indices[4], vec![1, 2, 3, 5]);
    let first = &nearest[0];
    assert!(first[0].close && first[0].near);
    assert!(!first[1].close && first[1].near);
    assert!(!first[3].close && !first[3].near);
}

#[test]
fn keeps_all_the_others_when_there_are_fewer_than_four() {
    let ranks = vec![vec![0, 3, 1], vec![3, 0, 3], vec![1, 3, 0]];
    let flags = vec![vec![false; 3]; 3];
    let nearest = nearest_neighbours(&ranks, &flags, &flags);
    let indices: Vec<Vec<usize>> = nearest.iter().map(|row| row.iter().map(|nb| nb.index).collect()).collect();
    assert_eq!(indices, vec![vec![2, 1], vec![0, 2], vec![0, 1]]);
}

#[test]
fn groups_images_linked_as_close_or_mutually_near() {
    let ranks = example_ranks();
    let close: Vec<Vec<bool>> = ranks.iter().map(|row| row.iter().map(|r| *r <= 1).collect()).collect();
    let near = vec![vec![false; 4]; 4];
    let (nearest, groups) = likeness_groups(&ranks, &close, &near);
    assert_eq!(nearest.len(), 4);
    assert_eq!(groups, vec![vec![0, 2], vec![1], vec![3]]);
}

#[test]
fn orders_the_groups_by_their_representatives_and_each_group_inside() {
    let groups = vec![vec![0, 2], vec![1, 3]];
    assert_eq!(grouped_order(&example_ranks(), &groups, &vec![0, 3]), vec![0, 2, 1, 3]);
    let groups = vec![vec![0], vec![1, 3], vec![2]];
    // Representatives 0, 1 and 2: the closest pair is 0 and 2, then 1 joins 0's end.
    assert_eq!(grouped_order(&example_ranks(), &groups, &vec![0, 1, 2]), vec![1, 3, 0, 2]);
}

/// The chain as measured with floating-point separations, scanning and breaking ties
/// as the gallery always has.
fn float_chain(separations: &[Vec<f32>]) -> Vec<usize> {
    let n = separations.len();
    match n {
        0 => return Vec::new(),
        1 => return vec![0],
        _ => {}
    }
    let mut closest = (0, 1, separations[0][1]);
    for left in 0..n {
        for right in left + 1..n {
            if separations[left][right] < closest.2 {
                closest = (left, right, separations[left][right]);
            }
        }
    }
    let mut chain = VecDeque::from([closest.0, closest.1]);
    let mut unused = (0..n).filter(|i| *i != closest.0 && *i != closest.1).collect::<Vec<_>>();
    while !unused.is_empty() {
        let first = *chain.front().unwrap();
        let last = *chain.back().unwrap();
        let mut best = (0, true, f32::MAX);
        for (position, index) in unused.iter().copied().enumerate() {
            for (front, neighbour) in [(true, first), (false, last)] {
                let candidate = separations[index][neighbour];
                if candidate < best.2 {
                    best = (position, front, candidate);
                }
            }
        }
        let index = unused.swap_remove(best.0);
        if best.1 {
            chain.push_front(index);
        } else {
            chain.push_back(index);
        }
    }
    chain.into_iter().collect()
}

fn ranks_of(separations: &[Vec<f32>]) -> Vec<Vec<u64>> {
    let mut values: Vec<f32> = separations.iter().flatten().copied().collect();
    values.sort_by(f32::total_cmp);
    values.dedup_by(|next, kept| next == kept);
    separations
        .iter()
        .map(|row| row.iter().map(|value| values.partition_point(|v| v < value) as u64).collect())
        .collect()
}

#[test]
fn ranks_chain_as_the_separations_do() {
    let mut seed: u64 = 0x2545_f491_4f6c_dd1d;
    for n in 0..12 {
        for levels in [3u64, 1000] {
            let separations: Vec<Vec<f32>> = (0..n)
                .map(|_| {
                    (0..n)
                        .map(|_| {
                            seed = seed.wrapping_mul(6364136223846793005).wrapping_add(1442695040888963407);
                            ((seed >> 33) % levels) as f32 / levels as f32
                        })
                        .collect()
                })
                .collect();
            let items: Vec<usize> = (0..n).collect();
            assert_eq!(
                likeness_chain_of(&ranks_of(&separations), &items),
                float_chain(&separations),
                "{n} images, {levels} levels"
            );
        }
    }
}

#[test]
fn grouped_order_gives_each_image_once() {
    let ranks = example_ranks();
    let groups = vec![vec![1, 3], vec![0], vec![2]];
    let mut order = grouped_order(&ranks, &groups, &vec![3, 0, 2]);
    assert_eq!(order.len(), 4);
    order.sort();
    assert_eq!(order, vec![0, 1, 2, 3]);
}
