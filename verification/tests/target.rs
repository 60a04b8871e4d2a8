use git_monitor::target::{clone_targets, RepoTarget, Server};

fn target(owner: &str, repo: &str, branch: &str, server: Server, token: Option<&str>) -> RepoTarget {
    RepoTarget {
        owner: owner.to_string(),
        repo: repo.to_string(),
        branch: branch.to_string(),
        server,
        token: token.map(|t| t.to_string()),
    }
}

#[test]
fn project_id_is_a_short_digest_of_branch_repo_and_owner() {
    let t = target("a", "b", "main", Server::GitHub, None);
    assert_eq!(t.project_id(), "5607341a");
    let u = target("acme", "widgets", "dev", Server::GitLab, None);
    assert_eq!(u.project_id(), "48cbe23e");
}

#[test]
fn project_path_lies_under_the_projects_root() {
    let t = target("a", "b", "main", Server::GitHub, None);
    assert_eq!(t.project_path(), "/var/www/ais/5607341a");
}

#[test]
fn project_path_ignores_server_and_token() {
    let plain = target("a", "b", "main", Server::GitHub, None);
    let other = target("a", "b", "main", Server::Custom("https://git.example".to_string()), Some("t"));
    assert_eq!(plain.project_path(), other.project_path());
    assert_eq!(plain.project_id(), other.project_id());
}

#[test]
fn project_path_differs_between_branches() {
    let main = target("a", "b", "main", Server::GitHub, None);
    let dev = target("a", "b", "dev", Server::GitHub, None);
    assert_ne!(main.project_path(), dev.project_path());
}

#[test]
fn remote_url_of_known_hosts() {
    assert_eq!(
        target("a", "b", "main", Server::GitHub, None).remote_url(),
        "https://github.com/a/b.git"
    );
    assert_eq!(
        target("a", "b", "main", Server::GitLab, None).remote_url(),
        "https://gitlab.com/a/b.git"
    );
}

#[test]
fn remote_url_of_custom_host_drops_trailing_slashes() {
    let t = target("a", "b", "main", Server::Custom("https://git.example.org//".to_string()), None);
    assert_eq!(t.remote_url(), "https://git.example.org/a/b.git");
    let bare = target("a", "b", "main", Server::Custom("///".to_string()), None);
    assert_eq!(bare.remote_url(), "/a/b.git");
}

#[test]
fn remote_url_with_embedded_token() {
    let t = target("a", "b", "main", Server::GitHub, Some("tok"));
    assert_eq!(t.remote_url(), "https://tok@https://github.com/a/b.git");
}

#[test]
fn same_repository_compares_owner_repo_and_branch() {
    let t = target("a", "b", "main", Server::GitHub, None);
    assert!(t.same_repository(&target("a", "b", "main", Server::GitLab, Some("x"))));
    assert!(!t.same_repository(&target("a", "b", "dev", Server::GitHub, None)));
    assert!(!t.same_repository(&target("a", "c", "main", Server::GitHub, None)));
    assert!(!t.same_repository(&target("z", "b", "main", Server::GitHub, None)));
}

#[test]
fn cloned_targets_are_equal() {
    let list = vec![
        target("a", "b", "main", Server::GitHub, None),
        target("c", "d", "dev", Server::Custom("https://x".to_string()), Some("t")),
    ];
    assert_eq!(clone_targets(&list), list);
    assert_eq!(list[1].clone(), list[1]);
}
