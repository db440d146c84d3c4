//! The decisions of the built-in commands: which git invocations they make.
//! Running git, printing and reading input are left to the caller.
use vstd::prelude::*;
use crate::json::same_text;

verus! {

/// The characters of the Unicode White_Space property.
pub open spec fn is_white_space(c: char) -> bool {
    let u = c as u32;
    ||| 0x9 <= u <= 0xD
    ||| u == 0x20 || u == 0x85 || u == 0xA0 || u == 0x1680
    ||| 0x2000 <= u <= 0x200A
    ||| u == 0x2028 || u == 0x2029 || u == 0x202F || u == 0x205F || u == 0x3000
}

pub open spec fn trim_start(s: Seq<char>) -> Seq<char>
    decreases s.len(),
{
    if s.len() > 0 && is_white_space(s[0]) {
        trim_start(s.drop_first())
    } else {
        s
    }
}

pub open spec fn trim_end(s: Seq<char>) -> Seq<char>
    decreases s.len(),
{
    if s.len() > 0 && is_white_space(s.last()) {
        trim_end(s.drop_last())
    } else {
        s
    }
}

/// `s` without its leading and trailing white space.
pub open spec fn trimmed(s: Seq<char>) -> Seq<char> {
    trim_end(trim_start(s))
}

/// Relies on `str::trim`, which removes the leading and trailing characters
/// that have the Unicode White_Space property.
#[verifier::external_body]
fn trim_text(s: &str) -> (r: &str)
    ensures
        r@ == trimmed(s@),
{
    s.trim()
}

/// Whether a typed answer confirms a destructive action: `yes`, with any
/// white space around it.
pub fn is_confirmed(answer: &str) -> (r: bool)
    ensures
        r == (trimmed(answer@) == "yes"@),
{
    same_text(trim_text(answer), "yes")
}

fn owned(parts: &Vec<&str>) -> (r: Vec<String>)
    ensures
        r.deep_view() == parts@.map_values(|p: &str| p@),
{
    let mut r: Vec<String> = Vec::new();
    let mut i: usize = 0;
    while i < parts.len()
        invariant
            i <= parts@.len(),
            r.deep_view() == parts@.subrange(0, i as int).map_values(|p: &str| p@),
        decreases parts@.len() - i,
    {
        let ghost before = r.deep_view();
        r.push(String::from_str(parts[i]));
        assert(r.deep_view() =~= before.push(parts@[i as int]@));
        i = i + 1;
        assert(r.deep_view() =~= parts@.subrange(0, i as int).map_values(|p: &str| p@));
    }
    assert(parts@.subrange(0, i as int) =~= parts@);
    r
}

/// The git arguments that create a branch and switch to it; `None` when no
/// branch name is given.
pub fn branch_git_args(args: &Vec<String>) -> (r: Option<Vec<String>>)
    ensures
        args@.len() == 0 ==> r is None,
        args@.len() > 0 ==> r is Some && r->0.deep_view() == seq![
            "checkout"@,
            "-b"@,
            args@[0]@,
        ],
{
    if args.len() == 0 {
        return None;
    }
    let mut r: Vec<String> = Vec::new();
    r.push(String::from_str("checkout"));
    r.push(String::from_str("-b"));
    r.push(args[0].clone());
    assert(r.deep_view() =~= seq!["checkout"@, "-b"@, args@[0]@]);
    Some(r)
}

/// The git arguments that commit the staged changes again with the last
/// commit's message, as git printed it, without surrounding white space.
pub fn recommit_git_args(printed_message: &str) -> (r: Vec<String>)
    ensures
        r.deep_view() == seq!["commit"@, "-m"@, trimmed(printed_message@)],
{
    let mut r: Vec<String> = Vec::new();
    r.push(String::from_str("commit"));
    r.push(String::from_str("-m"));
    r.push(String::from_str(trim_text(printed_message)));
    assert(r.deep_view() =~= seq!["commit"@, "-m"@, trimmed(printed_message@)]);
    r
}

/// The git arguments that stop tracking `file` and keep it on disk.
pub fn untrack_git_args(file: &str) -> (r: Vec<String>)
    ensures
        r.deep_view() == seq!["rm"@, "--cached"@, file@],
{
    let mut r: Vec<String> = Vec::new();
    r.push(String::from_str("rm"));
    r.push(String::from_str("--cached"));
    r.push(String::from_str(file));
    assert(r.deep_view() =~= seq!["rm"@, "--cached"@, file@]);
    r
}

/// The git arguments that print the last commit's message.
pub fn last_message_git_args() -> (r: Vec<String>)
    ensures
        r.deep_view() == seq!["log"@, "-1"@, "--pretty=%B"@],
{
    let mut r: Vec<String> = Vec::new();
    r.push(String::from_str("log"));
    r.push(String::from_str("-1"));
    r.push(String::from_str("--pretty=%B"));
    assert(r.deep_view() =~= seq!["log"@, "-1"@, "--pretty=%B"@]);
    r
}

/// The words of `parts` separated by single spaces.
pub open spec fn joined(parts: Seq<Seq<char>>) -> Seq<char>
    decreases parts.len(),
{
    if parts.len() == 0 {
        seq![]
    } else if parts.len() == 1 {
        parts[0]
    } else {
        joined(parts.drop_last()) + " "@ + parts.last()
    }
}

/// The arguments joined by single spaces.
pub fn join_words(parts: &Vec<String>) -> (r: String)
    ensures
        r@ == joined(parts.deep_view()),
{
    let mut s = String::new();
    let mut i: usize = 0;
    proof {
        reveal_strlit("");
    }
    assert(parts.deep_view().subrange(0, 0) =~= Seq::<Seq<char>>::empty());
    while i < parts.len()
        invariant
            i <= parts@.len(),
            s@ == joined(parts.deep_view().subrange(0, i as int)),
        decreases parts@.len() - i,
    {
        let ghost upto = parts.deep_view().subrange(0, i + 1);
        assert(upto.drop_last() =~= parts.deep_view().subrange(0, i as int));
        assert(upto.last() == parts@[i as int]@);
        if i > 0 {
            s.append(" ");
        } else {
            assert(upto =~= seq![parts@[0]@]);
        }
        s.append(parts[i].as_str());
        i = i + 1;
    }
    assert(parts.deep_view().subrange(0, i as int) =~= parts.deep_view());
    s
}

/// The git arguments that stash the working changes, with the arguments
/// joined by spaces as the stash message when there are any.
pub fn save_git_args(args: &Vec<String>) -> (r: Vec<String>)
    ensures
        args@.len() == 0 ==> r.deep_view() == seq!["stash"@, "push"@],
        args@.len() > 0 ==> r.deep_view() == seq![
            "stash"@,
            "push"@,
            "-m"@,
            joined(args.deep_view()),
        ],
{
    let mut r: Vec<String> = Vec::new();
    r.push(String::from_str("stash"));
    r.push(String::from_str("push"));
    if args.len() > 0 {
        r.push(String::from_str("-m"));
        r.push(join_words(args));
    }
    assert(args@.len() == 0 ==> r.deep_view() =~= seq!["stash"@, "push"@]);
    assert(args@.len() > 0 ==> r.deep_view() =~= seq![
        "stash"@,
        "push"@,
        "-m"@,
        joined(args.deep_view()),
    ]);
    r
}

/// The repository to clone as a template, and where to put it.
pub struct TemplateTarget {
    pub repo: String,
    pub dest: String,
}

/// The repository to clone as a template and where to put it (`.` unless
/// given); `None` when no repository is given.
pub fn template_target(args: &Vec<String>) -> (r: Option<TemplateTarget>)
    ensures
        args@.len() == 0 ==> r is None,
        args@.len() > 0 ==> r is Some && r->0.repo@ == args@[0]@ && r->0.dest@ == (if args@.len()
            > 1 {
            args@[1]@
        } else {
            "."@
        }),
{
    if args.len() == 0 {
        return None;
    }
    let dest = if args.len() > 1 {
        args[1].clone()
    } else {
        String::from_str(".")
    };
    Some(TemplateTarget { repo: args[0].clone(), dest })
}

/// The undo operations.
#[derive(PartialEq, Eq, Structural, Clone, Copy, Debug)]
pub enum UndoOption {
    /// Undo the last commit, keeping its changes staged.
    Commit,
    /// Discard the last commit and its changes.
    CommitHard,
    /// Unstage every file.
    Stage,
    /// Discard every uncommitted change.
    Changes,
}

pub open spec fn undo_option_of(name: Seq<char>) -> Option<UndoOption> {
    if name == "commit"@ {
        Some(UndoOption::Commit)
    } else if name == "commit-hard"@ {
        Some(UndoOption::CommitHard)
    } else if name == "stage"@ {
        Some(UndoOption::Stage)
    } else if name == "changes"@ {
        Some(UndoOption::Changes)
    } else {
        None
    }
}

/// The undo operation named `name`, if there is one.
pub fn undo_option(name: &str) -> (r: Option<UndoOption>)
    ensures
        r == undo_option_of(name@),
{
    if same_text(name, "commit") {
        Some(UndoOption::Commit)
    } else if same_text(name, "commit-hard") {
        Some(UndoOption::CommitHard)
    } else if same_text(name, "stage") {
        Some(UndoOption::Stage)
    } else if same_text(name, "changes") {
        Some(UndoOption::Changes)
    } else {
        None
    }
}

pub open spec fn undo_steps(o: UndoOption) -> Seq<Seq<Seq<char>>> {
    match o {
        UndoOption::Commit => seq![seq!["reset"@, "--soft"@, "HEAD~1"@]],
        UndoOption::CommitHard => seq![seq!["reset"@, "--hard"@, "HEAD~1"@]],
        UndoOption::Stage => seq![seq!["reset"@, "HEAD"@]],
        UndoOption::Changes => seq![seq!["reset"@, "--hard"@], seq!["clean"@, "-fd"@]],
    }
}

impl UndoOption {
    /// Whether the operation destroys work and so asks for a typed `yes`.
    pub fn needs_confirmation(&self) -> (r: bool)
        ensures
            r == (*self == UndoOption::CommitHard || *self == UndoOption::Changes),
    {
        match self {
            UndoOption::CommitHard | UndoOption::Changes => true,
            _ => false,
        }
    }

    /// What is shown before the operation: a notice, or for a destructive
    /// one the warning that precedes the confirmation.
    pub fn announcement(&self) -> (r: &'static str)
        ensures
            r@ == match *self {
                UndoOption::Commit => "Undoing last commit (keeping changes)..."@,
                UndoOption::CommitHard => "This will discard the last commit and all its changes!"@,
                UndoOption::Stage => "Unstaging all files..."@,
                UndoOption::Changes => "This will discard ALL uncommitted changes!"@,
            },
    {
        match self {
            UndoOption::Commit => "Undoing last commit (keeping changes)...",
            UndoOption::CommitHard => "This will discard the last commit and all its changes!",
            UndoOption::Stage => "Unstaging all files...",
            UndoOption::Changes => "This will discard ALL uncommitted changes!",
        }
    }

    /// What is shown once the operation is done.
    pub fn completion(&self) -> (r: &'static str)
        ensures
            r@ == match *self {
                UndoOption::Commit => "Last commit undone. Changes kept in staging area."@,
                UndoOption::CommitHard => "Last commit and changes discarded."@,
                UndoOption::Stage => "All files unstaged."@,
                UndoOption::Changes => "All changes discarded."@,
            },
    {
        match self {
            UndoOption::Commit => "Last commit undone. Changes kept in staging area.",
            UndoOption::CommitHard => "Last commit and changes discarded.",
            UndoOption::Stage => "All files unstaged.",
            UndoOption::Changes => "All changes discarded.",
        }
    }

    /// The git invocations that carry out the operation, in order.
    pub fn git_steps(&self) -> (r: Vec<Vec<String>>)
        ensures
            r.deep_view() == undo_steps(*self),
    {
        let mut r: Vec<Vec<String>> = Vec::new();
        match self {
            UndoOption::Commit => {
                let step = owned(&vec!["reset", "--soft", "HEAD~1"]);
                assert(step.deep_view() =~= seq!["reset"@, "--soft"@, "HEAD~1"@]);
                r.push(step);
            },
            UndoOption::CommitHard => {
                let step = owned(&vec!["reset", "--hard", "HEAD~1"]);
                assert(step.deep_view() =~= seq!["reset"@, "--hard"@, "HEAD~1"@]);
                r.push(step);
            },
            UndoOption::Stage => {
                let step = owned(&vec!["reset", "HEAD"]);
                assert(step.deep_view() =~= seq!["reset"@, "HEAD"@]);
                r.push(step);
            },
            UndoOption::Changes => {
                let step = owned(&vec!["reset", "--hard"]);
                assert(step.deep_view() =~= seq!["reset"@, "--hard"@]);
                r.push(step);
                let step = owned(&vec!["clean", "-fd"]);
                assert(step.deep_view() =~= seq!["clean"@, "-fd"@]);
                r.push(step);
            },
        }
        assert(r.deep_view() =~= undo_steps(*self));
        r
    }
}

} // verus!
