//! The answers that the credential tool reads from its user, and what it
//! makes of them.

use crate::target::{RepoTarget, Server, ServerView, TargetView};
use crate::text::same_text;
use vstd::prelude::*;
use vstd::string::StringExecFns;

verus! {

/// What the user of the credential tool asks for.
#[derive(Clone, Copy, Debug, PartialEq, Eq, Structural)]
pub enum MenuChoice {
    /// Show the stored targets.
    View,
    /// Start a new credentials file.
    Create,
    /// Add targets to the credentials file.
    Append,
    /// Remove a target from the credentials file.
    Remove,
    /// None of these: ask again.
    Invalid,
}

/// What the user answered when asked for the host.
#[derive(Clone, Copy, Debug, PartialEq, Eq, Structural)]
pub enum ServerChoice {
    GitHub,
    GitLab,
    /// Another host: its address is to be asked for.
    Custom,
    /// None of these: ask again.
    Invalid,
}

/// The choice that an answer to the menu stands for.
pub open spec fn menu_choice_of(answer: Seq<char>) -> MenuChoice {
    if answer == "1"@ {
        MenuChoice::View
    } else if answer == "2"@ {
        MenuChoice::Create
    } else if answer == "3"@ {
        MenuChoice::Append
    } else if answer == "4"@ {
        MenuChoice::Remove
    } else {
        MenuChoice::Invalid
    }
}

/// The choice that an answer to the question for the host stands for.
pub open spec fn server_choice_of(answer: Seq<char>) -> ServerChoice {
    if answer == "1"@ {
        ServerChoice::GitHub
    } else if answer == "2"@ {
        ServerChoice::GitLab
    } else if answer == "3"@ {
        ServerChoice::Custom
    } else {
        ServerChoice::Invalid
    }
}

/// The host that a choice stands for, with the address asked for where
/// the choice was another host. An invalid choice stands for none.
pub open spec fn server_of(choice: ServerChoice, address: Seq<char>) -> Option<ServerView> {
    match choice {
        ServerChoice::GitHub => Some(ServerView::GitHub),
        ServerChoice::GitLab => Some(ServerView::GitLab),
        ServerChoice::Custom => Some(ServerView::Custom(address)),
        ServerChoice::Invalid => None,
    }
}

/// How a target is shown in the list to remove from.
pub open spec fn entry_label(t: TargetView) -> Seq<char> {
    t.owner + "-"@ + t.repo + "@"@ + t.branch
}

/// The position in a list of `count` entries that the selection
/// `selection`, counted from one, stands for.
pub open spec fn removal_position(selection: nat, count: nat) -> Option<nat> {
    if 1 <= selection <= count {
        Some((selection - 1) as nat)
    } else {
        None
    }
}

/// The view of a host that may be there.
pub open spec fn server_view(server: Option<Server>) -> Option<ServerView> {
    match server {
        Some(s) => Some(s@),
        None => None,
    }
}

/// Reads an answer to the menu.
pub fn menu_choice(answer: &str) -> (choice: MenuChoice)
    ensures
        choice == menu_choice_of(answer@),
{
    if same_text(answer, "1") {
        MenuChoice::View
    } else if same_text(answer, "2") {
        MenuChoice::Create
    } else if same_text(answer, "3") {
        MenuChoice::Append
    } else if same_text(answer, "4") {
        MenuChoice::Remove
    } else {
        MenuChoice::Invalid
    }
}

/// Reads an answer to the question for the host.
pub fn prompt_server_choice(answer: &str) -> (choice: ServerChoice)
    ensures
        choice == server_choice_of(answer@),
{
    if same_text(answer, "1") {
        ServerChoice::GitHub
    } else if same_text(answer, "2") {
        ServerChoice::GitLab
    } else if same_text(answer, "3") {
        ServerChoice::Custom
    } else {
        ServerChoice::Invalid
    }
}

/// The host that a choice stands for.
pub fn chosen_server(choice: ServerChoice, address: &str) -> (server: Option<Server>)
    ensures
        server_view(server) == server_of(choice, address@),
{
    match choice {
        ServerChoice::GitHub => Some(Server::GitHub),
        ServerChoice::GitLab => Some(Server::GitLab),
        ServerChoice::Custom => Some(Server::Custom(address.to_owned())),
        ServerChoice::Invalid => None,
    }
}

/// A target as the tool makes it from the user's answers: without a
/// token of its own.
pub fn new_target(owner: &str, repo: &str, branch: &str, server: Server) -> (target: RepoTarget)
    ensures
        target@ == (TargetView {
            owner: owner@,
            repo: repo@,
            branch: branch@,
            server: server@,
            token: None,
        }),
{
    RepoTarget {
        owner: owner.to_owned(),
        repo: repo.to_owned(),
        branch: branch.to_owned(),
        server,
        token: None,
    }
}

/// How a target is shown in the list to remove from.
pub fn credential_label(target: &RepoTarget) -> (label: String)
    ensures
        label@ == entry_label(target@),
{
    let mut label = target.owner.clone();
    label.append("-");
    label.append(target.repo.as_str());
    label.append("@");
    label.append(target.branch.as_str());
    label
}

/// The labels of all targets, in order.
pub fn credential_labels(targets: &Vec<RepoTarget>) -> (labels: Vec<String>)
    ensures
        labels.len() == targets.len(),
        forall|i: int| 0 <= i < labels.len() ==> (#[trigger] labels[i])@ == entry_label(targets[i]@),
{
    let mut labels: Vec<String> = Vec::new();
    let mut i: usize = 0;
    while i < targets.len()
        invariant
            i <= targets.len(),
            labels.len() == i,
            forall|k: int| 0 <= k < i ==> (#[trigger] labels[k])@ == entry_label(targets[k]@),
        decreases targets.len() - i,
    {
        labels.push(credential_label(&targets[i]));
        i = i + 1;
    }
    labels
}

/// The position in a list of `count` entries that a selection counted
/// from one stands for, if it stands for any.
pub fn removal_index(selection: usize, count: usize) -> (position: Option<usize>)
    ensures
        match removal_position(selection as nat, count as nat) {
            Some(p) => position == Some(p as usize),
            None => position is None,
        },
{
    if 1 <= selection && selection <= count {
        Some(selection - 1)
    } else {
        None
    }
}

/// The targets without the one at `position`.
pub fn without_entry(targets: &Vec<RepoTarget>, position: usize) -> (rest: Vec<RepoTarget>)
    requires
        position < targets.len(),
    ensures
        rest@ == targets@.remove(position as int),
{
    let mut rest: Vec<RepoTarget> = Vec::new();
    let mut i: usize = 0;
    while i < targets.len()
        invariant
            i <= targets.len(),
            position < targets.len(),
            rest@ == if i <= position {
                targets@.take(i as int)
            } else {
                targets@.take(i as int).remove(position as int)
            },
        decreases targets.len() - i,
    {
        if i != position {
            rest.push(targets[i].clone());
        }
        proof {
            let next = targets@.take(i + 1);
            if i < position {
                assert(targets@.take(i as int).push(targets@[i as int]) =~= next);
            } else if i == position {
                assert(targets@.take(i as int) =~= next.remove(position as int));
            } else {
                assert(targets@.take(i as int).remove(position as int).push(targets@[i as int])
                    =~= next.remove(position as int));
            }
        }
        i = i + 1;
    }
    assert(targets@.take(targets.len() as int) =~= targets@);
    rest
}

} // verus!
