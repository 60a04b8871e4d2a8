use git_monitor::auth_store::{auth_items, init_auth_box, AuthBox};
use git_monitor::target::{RepoTarget, Server};

fn target(owner: &str) -> RepoTarget {
    RepoTarget {
        owner: owner.to_string(),
        repo: "b".to_string(),
        branch: "main".to_string(),
        server: Server::GitHub,
        token: None,
    }
}

#[test]
fn box_is_empty_until_filled() {
    let store = AuthBox::new();
    assert_eq!(auth_items(&store), None);
}

#[test]
fn box_keeps_the_first_list() {
    let mut store = AuthBox::new();
    init_auth_box(&mut store, vec![target("a"), target("c")]);
    assert_eq!(auth_items(&store), Some(&vec![target("a"), target("c")]));
    init_auth_box(&mut store, vec![target("z")]);
    assert_eq!(auth_items(&store), Some(&vec![target("a"), target("c")]));
}

#[test]
fn box_may_hold_an_empty_list() {
    let mut store = AuthBox::new();
    init_auth_box(&mut store, Vec::new());
    assert_eq!(auth_items(&store), Some(&Vec::new()));
    init_auth_box(&mut store, vec![target("z")]);
    assert_eq!(auth_items(&store), Some(&Vec::new()));
}
