use madara_cli::github::{
    clone_args, commits_url, latest_commit_hash, plan_clone, CloneStep, Commit, ExistingRepo,
};

#[test]
fn commits_url_of_repo() {
    assert_eq!(
        commits_url("karnotxyz", "madara"),
        "https://api.github.com/repos/karnotxyz/madara/commits"
    );
}

#[test]
fn latest_commit_is_the_first() {
    let commits = vec![
        Commit { sha: "aaa111".to_string() },
        Commit { sha: "bbb222".to_string() },
    ];
    assert_eq!(latest_commit_hash(&commits), Some("aaa111".to_string()));
    assert_eq!(latest_commit_hash(&Vec::new()), None);
}

#[test]
fn clone_plan_keeps_matching_origin() {
    let url = "https://github.com/karnotxyz/madara";
    let same = ExistingRepo::Origin(Some(url.to_string()));
    assert_eq!(plan_clone(url, &same, true), CloneStep::UpToDate);
    let other = ExistingRepo::Origin(Some("https://example.com/fork".to_string()));
    assert_eq!(plan_clone(url, &other, true), CloneStep::RemoveAndClone);
    assert_eq!(plan_clone(url, &ExistingRepo::Origin(None), true), CloneStep::RemoveAndClone);
    assert_eq!(plan_clone(url, &ExistingRepo::Empty, true), CloneStep::RemoveAndClone);
    assert_eq!(plan_clone(url, &ExistingRepo::Missing, false), CloneStep::Clone);
}

#[test]
fn clone_arguments() {
    let plain = clone_args("https://x/y", None);
    assert_eq!(plain.before_path, vec!["clone", "--progress", "https://x/y"]);
    assert!(plain.after_path.is_empty());
    let on_branch = clone_args("https://x/y", Some("main"));
    assert_eq!(on_branch.before_path, vec!["clone", "--progress", "https://x/y"]);
    assert_eq!(on_branch.after_path, vec!["--branch=main"]);
}
