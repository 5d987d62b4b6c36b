use commits_info::commit_id::CommitId;
use commits_info::get_commits_info;
use commits_info::LookupError;

fn commit_id_of(oid: git2::Oid) -> CommitId {
    let mut bytes = [0u8; 20];
    bytes.copy_from_slice(oid.as_bytes());
    CommitId::new(bytes)
}

/// A fresh repository holding one commit per message, in order; returns
/// the directory (kept alive for its lifetime), its path, and the ids.
fn repo_with_commits(messages: &[&str]) -> (tempfile::TempDir, String, Vec<git2::Oid>) {
    let dir = tempfile::TempDir::new().unwrap();
    let path = dir.path().to_str().unwrap().to_string();
    let repo = git2::Repository::init(dir.path()).unwrap();
    let sig =
        git2::Signature::new("name", "name@example.com", &git2::Time::new(1234567890, 0)).unwrap();
    let tree_id = repo.index().unwrap().write_tree().unwrap();
    let tree = repo.find_tree(tree_id).unwrap();
    let mut ids = Vec::new();
    let mut parent: Option<git2::Oid> = None;
    for message in messages {
        let oid = match parent {
            Some(p) => {
                let parent_commit = repo.find_commit(p).unwrap();
                repo.commit(Some("HEAD"), &sig, &sig, message, &tree, &[&parent_commit])
                    .unwrap()
            }
            None => repo
                .commit(Some("HEAD"), &sig, &sig, message, &tree, &[])
                .unwrap(),
        };
        ids.push(oid);
        parent = Some(oid);
    }
    (dir, path, ids)
}

#[test]
fn test_log() {
    let (_dir, path, ids) = repo_with_commits(&["commit1", "commit2"]);
    let c1 = commit_id_of(ids[0]);
    let c2 = commit_id_of(ids[1]);

    let res = get_commits_info(&path, &vec![c2, c1], 50).unwrap();

    assert_eq!(res.len(), 2);
    assert_eq!(res[0].message.as_str(), "commit2");
    assert_eq!(res[0].author.as_str(), "name");
    assert_eq!(res[1].message.as_str(), "commit1");
}

#[test]
fn order_and_ids_are_preserved() {
    let (_dir, path, ids) = repo_with_commits(&["one", "two", "three"]);
    let wanted: Vec<CommitId> = vec![
        commit_id_of(ids[2]),
        commit_id_of(ids[0]),
        commit_id_of(ids[2]),
        commit_id_of(ids[1]),
    ];
    let res = get_commits_info(&path, &wanted, 50).unwrap();
    assert_eq!(res.len(), 4);
    for (info, id) in res.iter().zip(wanted.iter()) {
        assert_eq!(info.id, *id);
    }
    assert_eq!(res[0].message, "three");
    assert_eq!(res[1].message, "one");
    assert_eq!(res[2].message, "three");
    assert_eq!(res[3].message, "two");
}

#[test]
fn empty_id_sequence_gives_empty_result() {
    let (_dir, path, _ids) = repo_with_commits(&["commit1"]);
    let res = get_commits_info(&path, &vec![], 50).unwrap();
    assert_eq!(res.len(), 0);
}

#[test]
fn inaccessible_repository_is_reported() {
    let dir = tempfile::TempDir::new().unwrap();
    let absent = dir.path().join("no-repository-here");
    let path = absent.to_str().unwrap().to_string();
    let res = get_commits_info(&path, &vec![CommitId::new([1u8; 20])], 50);
    assert_eq!(res.unwrap_err(), LookupError::RepoInaccessible);
}

#[test]
fn one_missing_commit_fails_the_whole_batch() {
    let (_dir, path, ids) = repo_with_commits(&["commit1", "commit2"]);
    let good1 = commit_id_of(ids[0]);
    let good2 = commit_id_of(ids[1]);
    let bogus = CommitId::new([0xabu8; 20]);
    let res = get_commits_info(&path, &vec![good1, bogus, good2], 50);
    assert_eq!(res.unwrap_err(), LookupError::CommitNotFound(bogus));
}

#[test]
fn commit_time_and_hex_id_come_from_the_repository() {
    let (_dir, path, ids) = repo_with_commits(&["commit1"]);
    let id = commit_id_of(ids[0]);
    let res = get_commits_info(&path, &vec![id], 50).unwrap();
    assert_eq!(res[0].time, 1234567890);
    assert_eq!(res[0].id.to_string(), format!("{}", ids[0]));
}

#[test]
fn multiline_message_keeps_only_the_first_line() {
    let (_dir, path, ids) = repo_with_commits(&["subject line\n\nbody text\nmore body"]);
    let id = commit_id_of(ids[0]);
    let res = get_commits_info(&path, &vec![id], 50).unwrap();
    assert_eq!(res[0].message, "subject line");
    let res_short = get_commits_info(&path, &vec![id], 7).unwrap();
    assert_eq!(res_short[0].message, "subject");
}
