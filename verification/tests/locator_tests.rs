use discord_presence_rs::error::Error;
use discord_presence_rs::locator::{
    base_directory, candidate_name, locate, pipe_name, socket_path, Locator,
};

#[test]
fn candidate_names_run_from_zero_to_nine() {
    for i in 0..10 {
        assert_eq!(candidate_name(i), format!("discord-ipc-{}", i));
    }
}

#[test]
fn socket_paths_join_the_base_directory() {
    assert_eq!(socket_path("/run/user/1000", 0), "/run/user/1000/discord-ipc-0");
    assert_eq!(socket_path("/tmp", 9), "/tmp/discord-ipc-9");
}

#[test]
fn pipe_names_use_the_fixed_prefix() {
    assert_eq!(pipe_name(0), "\\\\.\\pipe\\discord-ipc-0");
    assert_eq!(pipe_name(7), "\\\\.\\pipe\\discord-ipc-7");
}

#[test]
fn base_directory_prefers_the_runtime_directory() {
    assert_eq!(
        base_directory(Some("/run/user/1".to_string()), Some("/tmp".to_string())),
        Some("/run/user/1".to_string()),
    );
    assert_eq!(base_directory(None, Some("/tmp".to_string())), Some("/tmp".to_string()));
    assert_eq!(base_directory(None, None), None);
}

#[test]
fn first_available_candidate_wins_and_later_ones_are_never_tried() {
    let mut available = vec![false; 10];
    available[3] = true;
    available[7] = true;
    assert_eq!(locate(&available), Ok(3));

    // Drive the search step by step and record which candidates are probed.
    let mut locator = Locator::new();
    let mut probed = Vec::new();
    let mut connected = None;
    while let Some(i) = locator.next_candidate() {
        probed.push(i);
        if available[i] {
            connected = Some(i);
            break;
        }
    }
    assert_eq!(connected, Some(3));
    assert_eq!(probed, vec![0, 1, 2, 3]);
    assert!(!probed.contains(&7));
}

#[test]
fn exhaustion_fails_after_exactly_ten_attempts() {
    let available = vec![false; 10];
    assert_eq!(locate(&available), Err(Error::ConnectionNotFound));

    let mut locator = Locator::new();
    let mut attempts = 0;
    while let Some(i) = locator.next_candidate() {
        assert!(!available[i]);
        attempts += 1;
    }
    assert_eq!(attempts, 10);
    assert_eq!(locator.next_candidate(), None);
}
