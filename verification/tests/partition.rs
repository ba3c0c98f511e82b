use cubemap::chunks::chunk_bounds;
use cubemap::chunks::num_chunks;

/// The chunk ranges for a face of `n` pixels must cover every pixel index
/// exactly once, whatever the capacity.
fn check_partition(n: usize, cap: usize) {
    let nc = num_chunks(n, cap);
    let mut seen = vec![0u32; n];
    for c in 0..nc {
        let (s, e) = chunk_bounds(n, cap, c);
        assert!(s < e && e <= n, "chunk {} of n={} cap={}", c, n, cap);
        for p in s..e {
            seen[p] += 1;
        }
    }
    for p in 0..n {
        assert_eq!(seen[p], 1, "pixel {} of n={} cap={}", p, n, cap);
    }
}

#[test]
fn partition_complete_cap_one() {
    for s in [1usize, 4, 7, 16] {
        check_partition(s * s, 1);
    }
}

#[test]
fn partition_complete_cap_side() {
    for s in [1usize, 4, 7, 16] {
        check_partition(s * s, s);
    }
}

#[test]
fn partition_complete_cap_whole_face() {
    for s in [1usize, 4, 7, 16] {
        check_partition(s * s, s * s);
    }
}

#[test]
fn partition_complete_odd_caps() {
    check_partition(25, 3);
    check_partition(25, 26);
    check_partition(1, 5);
}
