//! Where reports are mirrored to a git repository: the settings, and the
//! choices that a push makes from them.

use vstd::prelude::*;
use crate::text::concat;

verus! {

/// The settings of a push, as given on the command line.
#[derive(Clone, Debug)]
pub struct CliPush {
    pub push: bool,
    pub name: Option<String>,
    pub email: Option<String>,
    pub message: Option<String>,
}

/// The settings of a repository, as given on the command line.
#[derive(Clone, Debug)]
pub struct CliRepo {
    pub url: String,
    pub key: Option<String>,
    pub branch: Option<String>,
    pub push: CliPush,
}

/// The author and the message of the commits that are pushed.
#[derive(Clone, Debug)]
pub struct Push {
    pub name: Option<String>,
    pub email: Option<String>,
    pub message: Option<String>,
}

/// A repository of reports, and whether changes to it are pushed.
#[derive(Clone, Debug)]
pub struct Repo {
    pub url: String,
    pub key: Option<String>,
    pub branch: Option<String>,
    pub push: Option<Push>,
}

/// The branch that a push goes to: the one that was asked for; failing
/// that, the default branch of the remote; failing that, `master`.
pub open spec fn spec_branch(asked: Option<Seq<char>>, remote: Option<Seq<char>>) -> Seq<char> {
    match asked {
        Some(branch) => branch,
        None => match remote {
            Some(branch) => branch,
            None => "master"@,
        },
    }
}

/// The text of an optional string slice.
pub open spec fn slice_text(text: Option<&str>) -> Option<Seq<char>> {
    match text {
        Some(t) => Some(t@),
        None => None,
    }
}

/// The reference specification that pushes a branch to the branch of the
/// same name.
pub open spec fn spec_refspec(branch: Seq<char>) -> Seq<char> {
    "refs/heads/"@ + branch + ":refs/heads/"@ + branch
}

impl Push {
    /// The settings of a push, without the switch that asked for it.
    pub fn from(update: CliPush) -> (push: Push)
        ensures
            push.name == update.name,
            push.email == update.email,
            push.message == update.message,
    {
        Push { name: update.name, email: update.email, message: update.message }
    }

    /// The message of the commits: the one that was given, and `bencher`
    /// where none was.
    pub fn message(&self) -> (message: String)
        ensures
            message@ == match self.message {
                Some(m) => m@,
                None => "bencher"@,
            },
    {
        match &self.message {
            Some(m) => m.clone(),
            None => "bencher".to_owned(),
        }
    }

    /// The author under which commits are signed, where both a name and an
    /// address were given.
    pub fn author(&self) -> (author: Option<(&String, &String)>)
        ensures
            match (self.name, self.email) {
                (Some(name), Some(email)) => author == Some((&name, &email)),
                _ => author.is_none(),
            },
    {
        match (&self.name, &self.email) {
            (Some(name), Some(email)) => Some((name, email)),
            _ => None,
        }
    }

    /// The branch that a push goes to, given the branch that was asked for
    /// and the default branch that the remote reported.
    pub fn branch(branch: Option<&str>, remote: Option<&str>) -> (chosen: String)
        ensures
            chosen@ == spec_branch(slice_text(branch), slice_text(remote)),
    {
        match branch {
            Some(b) => b.to_owned(),
            None => match remote {
                Some(b) => b.to_owned(),
                None => "master".to_owned(),
            },
        }
    }

    /// The reference specification that pushes `branch` to the branch of
    /// the same name.
    pub fn refspec(branch: &str) -> (refspec: String)
        ensures
            refspec@ == spec_refspec(branch@),
    {
        let local = concat("refs/heads/", branch);
        let both = concat(local.as_str(), ":refs/heads/");
        concat(both.as_str(), branch)
    }
}

impl Repo {
    /// The repository that the command line describes. Changes are pushed
    /// only where the switch asks for it.
    pub fn from(repo: CliRepo) -> (made: Repo)
        ensures
            made.url == repo.url,
            made.key == repo.key,
            made.branch == repo.branch,
            made.push.is_some() == repo.push.push,
            made.push matches Some(push) ==> push.name == repo.push.name && push.email
                == repo.push.email && push.message == repo.push.message,
    {
        let push: Option<Push> = if repo.push.push {
            Some(Push::from(repo.push))
        } else {
            None
        };
        Repo { url: repo.url, key: repo.key, branch: repo.branch, push }
    }
}

} // verus!
