use std::collections::HashSet;

use greptimedb_client::load_balance::{select, LoadBalance, Loadbalancer, Random};

fn three_peers() -> Vec<String> {
    vec!["a:1".to_string(), "b:1".to_string(), "c:1".to_string()]
}

#[test]
fn test_random_lb() {
    let peers = vec![
        "127.0.0.1:3001".to_string(),
        "127.0.0.1:3002".to_string(),
        "127.0.0.1:3003".to_string(),
        "127.0.0.1:3004".to_string(),
    ];
    let all: HashSet<String> = peers.clone().into_iter().collect();
    let random = Random;
    for _ in 0..100 {
        let peer = random.get_peer(&peers).unwrap();
        assert!(all.contains(peer));
    }
}

#[test]
fn random_finds_nothing_among_no_peers() {
    let peers: Vec<String> = Vec::new();
    for _ in 0..20 {
        assert_eq!(Random.get_peer(&peers), None);
        assert_eq!(Loadbalancer::default().get_peer(&peers), None);
    }
}

#[test]
fn random_finds_the_only_peer() {
    let peers = vec!["a:1".to_string()];
    for _ in 0..20 {
        assert_eq!(Random.get_peer(&peers), Some(&peers[0]));
    }
}

#[test]
fn default_balancer_is_random() {
    assert_eq!(Loadbalancer::default(), Loadbalancer::Random(Random));
}

#[test]
fn sixty_random_selections_reach_every_peer() {
    let peers = three_peers();
    let balancer = Loadbalancer::default();
    let mut counts = [0usize; 3];
    for _ in 0..60 {
        let peer = balancer.get_peer(&peers).unwrap();
        let place = peers.iter().position(|p| p == peer).unwrap();
        counts[place] += 1;
    }
    assert_eq!(counts[0] + counts[1] + counts[2], 60);
    assert!(counts[0] > 0);
    assert!(counts[1] > 0);
    assert!(counts[2] > 0);
}

#[test]
fn sixty_seeded_selections_reach_every_peer_evenly() {
    let peers = three_peers();
    let mut state: u64 = 42;
    let mut counts = [0usize; 3];
    for _ in 0..60 {
        state = state.wrapping_mul(6364136223846793005).wrapping_add(1442695040888963407);
        let draw = (state >> 33) as usize;
        let peer = select(&peers, draw).unwrap();
        assert_eq!(peer, &peers[draw % 3]);
        let place = peers.iter().position(|p| p == peer).unwrap();
        counts[place] += 1;
    }
    assert_eq!(counts[0] + counts[1] + counts[2], 60);
    for count in counts {
        assert!(count >= 10, "counts {:?}", counts);
    }
}

#[test]
fn select_goes_round_the_list() {
    let peers = three_peers();
    assert_eq!(select(&peers, 0), Some(&peers[0]));
    assert_eq!(select(&peers, 1), Some(&peers[1]));
    assert_eq!(select(&peers, 2), Some(&peers[2]));
    assert_eq!(select(&peers, 3), Some(&peers[0]));
    assert_eq!(select(&peers, 4), Some(&peers[1]));
    assert_eq!(select(&peers, usize::MAX), Some(&peers[usize::MAX % 3]));
}

#[test]
fn select_finds_nothing_among_no_peers() {
    let peers: Vec<String> = Vec::new();
    assert_eq!(select(&peers, 0), None);
    assert_eq!(select(&peers, 17), None);
}
