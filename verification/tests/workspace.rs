use judge::workspace::{mint_token, Workspace};

#[test]
fn workspace_paths_follow_the_token() {
    let w = Workspace::for_token(1_700_000_000_123_456_789);
    assert_eq!(w.dir(), "/tmp/run-1700000000123456789");
    assert_eq!(w.source_path(), "/tmp/run-1700000000123456789/main.rs");
    assert_eq!(w.binary_path(), "/tmp/run-1700000000123456789/app-bin");
}

#[test]
fn workspace_of_the_smallest_and_the_largest_token() {
    let w = Workspace::for_token(0);
    assert_eq!(w.dir(), "/tmp/run-0");
    assert_eq!(w.source_path(), "/tmp/run-0/main.rs");
    let w = Workspace::for_token(u128::MAX);
    assert_eq!(w.dir(), "/tmp/run-340282366920938463463374607431768211455");
    assert_eq!(w.binary_path(), "/tmp/run-340282366920938463463374607431768211455/app-bin");
}

#[test]
fn workspaces_of_different_tokens_are_apart() {
    let tokens: [u128; 6] = [0, 1, 10, 11, 100, 101];
    for a in tokens {
        for b in tokens {
            if a == b {
                continue;
            }
            let one = Workspace::for_token(a);
            let other = Workspace::for_token(b);
            let below = format!("{}/", one.dir());
            for path in [other.dir(), other.source_path(), other.binary_path()] {
                assert_ne!(path, one.dir());
                assert!(!path.starts_with(&below), "{} under {}", path, one.dir());
            }
        }
    }
}

#[test]
fn workspace_copy_has_the_same_paths() {
    let w = Workspace::for_token(5);
    let c = w.clone();
    assert_eq!(c.dir(), w.dir());
    assert_eq!(c.source_path(), w.source_path());
    assert_eq!(c.binary_path(), w.binary_path());
}

#[test]
fn mint_token_puts_the_time_above_the_turn() {
    assert_eq!(mint_token(0, 0), 0);
    assert_eq!(mint_token(0, 5), 5);
    assert_eq!(mint_token(1, 0), 18_446_744_073_709_551_616);
    assert_eq!(mint_token(1, 5), 18_446_744_073_709_551_621);
    assert_eq!(mint_token(u64::MAX, u64::MAX), u128::MAX);
}

#[test]
fn mint_token_tells_requests_apart() {
    let times: [u64; 3] = [0, 1, 1_700_000_000_000_000_000];
    let turns: [u64; 3] = [0, 1, u64::MAX];
    let mut seen: Vec<u128> = Vec::new();
    for nanos in times {
        for turn in turns {
            let token = mint_token(nanos, turn);
            assert!(!seen.contains(&token));
            seen.push(token);
        }
    }
    assert_eq!(seen.len(), 9);
}
