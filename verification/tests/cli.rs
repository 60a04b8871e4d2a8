use git_monitor::cli::{
    chosen_server, credential_label, credential_labels, menu_choice, new_target,
    prompt_server_choice, removal_index, without_entry, MenuChoice, ServerChoice,
};
use git_monitor::target::{RepoTarget, Server};

fn target(owner: &str) -> RepoTarget {
    new_target(owner, "repo", "main", Server::GitHub)
}

#[test]
fn menu_answers() {
    assert_eq!(menu_choice("1"), MenuChoice::View);
    assert_eq!(menu_choice("2"), MenuChoice::Create);
    assert_eq!(menu_choice("3"), MenuChoice::Append);
    assert_eq!(menu_choice("4"), MenuChoice::Remove);
    assert_eq!(menu_choice("5"), MenuChoice::Invalid);
    assert_eq!(menu_choice(""), MenuChoice::Invalid);
    assert_eq!(menu_choice(" 1"), MenuChoice::Invalid);
}

#[test]
fn server_answers() {
    assert_eq!(prompt_server_choice("1"), ServerChoice::GitHub);
    assert_eq!(prompt_server_choice("2"), ServerChoice::GitLab);
    assert_eq!(prompt_server_choice("3"), ServerChoice::Custom);
    assert_eq!(prompt_server_choice("4"), ServerChoice::Invalid);
    assert_eq!(prompt_server_choice("github"), ServerChoice::Invalid);
}

#[test]
fn chosen_servers() {
    assert_eq!(chosen_server(ServerChoice::GitHub, "ignored"), Some(Server::GitHub));
    assert_eq!(chosen_server(ServerChoice::GitLab, ""), Some(Server::GitLab));
    assert_eq!(
        chosen_server(ServerChoice::Custom, "https://git.example.org"),
        Some(Server::Custom("https://git.example.org".to_string()))
    );
    assert_eq!(chosen_server(ServerChoice::Invalid, "x"), None);
}

#[test]
fn new_targets_carry_no_token() {
    let t = new_target("a", "b", "dev", Server::GitLab);
    assert_eq!(
        t,
        RepoTarget {
            owner: "a".to_string(),
            repo: "b".to_string(),
            branch: "dev".to_string(),
            server: Server::GitLab,
            token: None,
        }
    );
}

#[test]
fn labels_name_owner_repo_and_branch() {
    assert_eq!(credential_label(&target("acme")), "acme-repo@main");
    assert_eq!(
        credential_labels(&vec![target("a"), target("b")]),
        vec!["a-repo@main".to_string(), "b-repo@main".to_string()]
    );
    assert!(credential_labels(&Vec::new()).is_empty());
}

#[test]
fn selections_count_from_one() {
    assert_eq!(removal_index(1, 3), Some(0));
    assert_eq!(removal_index(3, 3), Some(2));
    assert_eq!(removal_index(0, 3), None);
    assert_eq!(removal_index(4, 3), None);
    assert_eq!(removal_index(1, 0), None);
}

#[test]
fn removal_drops_one_entry() {
    let list = vec![target("a"), target("b"), target("c")];
    assert_eq!(without_entry(&list, 0), vec![target("b"), target("c")]);
    assert_eq!(without_entry(&list, 1), vec![target("a"), target("c")]);
    assert_eq!(without_entry(&list, 2), vec![target("a"), target("b")]);
    assert!(without_entry(&vec![target("a")], 0).is_empty());
}
