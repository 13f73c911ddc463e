use git_pro::error::GitProError;
use git_pro::history::{first_line, log_window, select_logs, short_id, CommitInfo};

fn commit(n: u32) -> CommitInfo {
    CommitInfo {
        id: format!("{:040}", n),
        message: format!("change {}\n\nbody", n),
        author: "Ann".to_string(),
        time: 1_700_000_000 + n as i64,
    }
}

fn history(len: u32) -> Vec<CommitInfo> {
    (0..len).rev().map(commit).collect()
}

#[test]
fn log_takes_the_newest_records() {
    let got = select_logs(history(5), 3).unwrap();
    let times: Vec<i64> = got.iter().map(|c| c.time).collect();
    assert_eq!(times, vec![1_700_000_004, 1_700_000_003, 1_700_000_002]);
}

#[test]
fn log_longer_than_history_shows_all() {
    assert_eq!(select_logs(history(2), 10).unwrap().len(), 2);
}

#[test]
fn log_count_zero_is_empty() {
    let read: Vec<CommitInfo> = history(4).into_iter().take(log_window(0)).collect();
    assert!(select_logs(read, 0).unwrap().is_empty());
}

#[test]
fn log_of_empty_history_fails() {
    assert_eq!(select_logs(vec![], 10).err(), Some(GitProError::NoCommits));
    assert_eq!(select_logs(vec![], 0).err(), Some(GitProError::NoCommits));
}

#[test]
fn log_window_reads_at_least_one() {
    assert_eq!(log_window(0), 1);
    assert_eq!(log_window(10), 10);
}

#[test]
fn first_line_cuts_at_newline() {
    assert_eq!(first_line("fix bug\n\ndetails"), "fix bug");
    assert_eq!(first_line("one line"), "one line");
    assert_eq!(first_line(""), "");
    assert_eq!(first_line("\nlater"), "");
}

#[test]
fn short_id_is_seven_characters() {
    assert_eq!(short_id("0123456789abcdef"), "0123456");
    assert_eq!(short_id("abc"), "abc");
}

#[test]
fn commit_render_line() {
    let c = CommitInfo {
        id: "a1b2c3d4e5f6".to_string(),
        message: "Add feature\nmore".to_string(),
        author: "Ann".to_string(),
        time: 1_700_000_000,
    };
    assert_eq!(c.render(), "a1b2c3d 1700000000 <Ann> Add feature");
}

#[test]
fn commit_render_negative_time() {
    let c = CommitInfo { id: "abc".to_string(), message: String::new(), author: "B".to_string(), time: -5 };
    assert_eq!(c.render(), "abc -5 <B> ");
}
