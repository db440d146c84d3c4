//! What to run for a command line: a built-in handler, or git itself.
use vstd::prelude::*;
use crate::distance::lev;
use crate::resolve::{
    classify, command_vocabulary, is_first_nearest, resolve, vocabulary, MatchKind, MAX_DISTANCE,
};
use crate::json::same_text;

verus! {

/// The commands that have a built-in handler.
#[derive(PartialEq, Eq, Structural, Clone, Copy, Debug)]
pub enum Handler {
    Template,
    Rlog,
    Tlog,
    Undo,
    Save,
    Pop,
    RemoveCommitted,
    Commit,
    Branch,
    Log,
}

/// The handler for a command name, if it has one.
pub open spec fn handler_of(name: Seq<char>) -> Option<Handler> {
    if name == "template"@ {
        Some(Handler::Template)
    } else if name == "rlog"@ {
        Some(Handler::Rlog)
    } else if name == "tlog"@ {
        Some(Handler::Tlog)
    } else if name == "undo"@ {
        Some(Handler::Undo)
    } else if name == "save"@ {
        Some(Handler::Save)
    } else if name == "pop"@ {
        Some(Handler::Pop)
    } else if name == "remove-committed"@ {
        Some(Handler::RemoveCommitted)
    } else if name == "commit"@ {
        Some(Handler::Commit)
    } else if name == "branch"@ {
        Some(Handler::Branch)
    } else if name == "log"@ {
        Some(Handler::Log)
    } else {
        None
    }
}

/// The handler for a command name, if it has one.
pub fn handler_for(name: &str) -> (r: Option<Handler>)
    ensures
        r == handler_of(name@),
{
    if same_text(name, "template") {
        Some(Handler::Template)
    } else if same_text(name, "rlog") {
        Some(Handler::Rlog)
    } else if same_text(name, "tlog") {
        Some(Handler::Tlog)
    } else if same_text(name, "undo") {
        Some(Handler::Undo)
    } else if same_text(name, "save") {
        Some(Handler::Save)
    } else if same_text(name, "pop") {
        Some(Handler::Pop)
    } else if same_text(name, "remove-committed") {
        Some(Handler::RemoveCommitted)
    } else if same_text(name, "commit") {
        Some(Handler::Commit)
    } else if same_text(name, "branch") {
        Some(Handler::Branch)
    } else if same_text(name, "log") {
        Some(Handler::Log)
    } else {
        None
    }
}

/// The line that shows a corrected subcommand: `typed => resolved`.
pub open spec fn notice_text(typed: Seq<char>, resolved: Seq<char>) -> Seq<char> {
    "[gut] subcommand smart infer: "@ + typed + " \x1b[32m=>\x1b[0m "@ + resolved
}

/// What to run for a command line.
pub enum Action {
    /// No subcommand was given: show the usage text and exit with status 1.
    Usage,
    /// Run git with these arguments.
    Passthrough(Vec<String>),
    /// Run a built-in handler with the arguments after the subcommand.
    Run(Handler, Vec<String>),
}

/// The action for a command line, and the notice to print first, if any.
pub struct Plan {
    pub notice: Option<String>,
    pub action: Action,
}

fn copy_from(args: &Vec<String>, start: usize) -> (r: Vec<String>)
    requires
        start <= args@.len(),
    ensures
        r.deep_view() == args.deep_view().subrange(start as int, args@.len() as int),
{
    let mut r: Vec<String> = Vec::new();
    let mut i: usize = start;
    while i < args.len()
        invariant
            start <= i <= args@.len(),
            r.deep_view() == args.deep_view().subrange(start as int, i as int),
        decreases args@.len() - i,
    {
        let ghost before = r.deep_view();
        let s = args[i].clone();
        r.push(s);
        assert(r.deep_view() =~= before.push(args@[i as int]@));
        i = i + 1;
        assert(r.deep_view() =~= args.deep_view().subrange(start as int, i as int));
    }
    r
}

/// The entry of the vocabulary that `typed` resolves to.
pub open spec fn nearest(typed: Seq<char>, k: int) -> bool {
    is_first_nearest(typed, vocabulary(), k)
}

/// Resolves the first argument against the vocabulary and decides what runs:
/// git with the arguments unchanged when nothing is near enough, the
/// resolved command's handler with the remaining arguments, or git with the
/// resolved name in place of the typed one.
pub fn plan_invocation(args: &Vec<String>) -> (r: Plan)
    ensures
        args@.len() == 0 ==> r.action is Usage && r.notice is None,
        args@.len() > 0 ==> exists|k: int|
            {
                let typed = args@[0]@;
                let name = #[trigger] vocabulary()[k]@;
                let d = lev(typed, name);
                let rest = args.deep_view().drop_first();
                &&& nearest(typed, k)
                &&& d > MAX_DISTANCE ==> r.notice is None && r.action is Passthrough
                    && r.action->Passthrough_0.deep_view() == args.deep_view()
                &&& d <= MAX_DISTANCE && handler_of(name) is Some ==> r.action is Run
                    && r.action->Run_0 == handler_of(name)->0
                    && r.action->Run_1.deep_view() == rest
                &&& d <= MAX_DISTANCE && handler_of(name) is None ==> r.action is Passthrough
                    && r.action->Passthrough_0.deep_view() == seq![name] + rest
                &&& 1 <= d <= MAX_DISTANCE ==> r.notice is Some
                    && r.notice->0@ == notice_text(typed, name)
                &&& d == 0 ==> r.notice is None
            },
{
    if args.len() == 0 {
        return Plan { notice: None, action: Action::Usage };
    }
    let vocab = command_vocabulary();
    let typed = args[0].as_str();
    let res = resolve(typed, &vocab);
    let k = res.index.unwrap();
    let kind = classify(&res);
    let ghost name = vocabulary()[k as int]@;
    let rest = copy_from(args, 1);
    assert(rest.deep_view() == args.deep_view().drop_first());
    if kind == MatchKind::Miss {
        let all = copy_from(args, 0);
        assert(args.deep_view().subrange(0, args@.len() as int) =~= args.deep_view());
        let r = Plan { notice: None, action: Action::Passthrough(all) };
        assert(vocabulary()[k as int]@ == name);
        return r;
    }
    let resolved = vocab[k];
    let notice = if kind == MatchKind::Fuzzy {
        let mut n = String::from_str("[gut] subcommand smart infer: ");
        n.append(typed);
        n.append(" \x1b[32m=>\x1b[0m ");
        n.append(resolved);
        Some(n)
    } else {
        None
    };
    let action = match handler_for(resolved) {
        Some(h) => Action::Run(h, rest),
        None => {
            let mut all: Vec<String> = Vec::new();
            all.push(String::from_str(resolved));
            let mut rest = rest;
            all.append(&mut rest);
            assert(all.deep_view() =~= seq![name] + args.deep_view().drop_first());
            Action::Passthrough(all)
        },
    };
    let r = Plan { notice, action };
    assert(vocabulary()[k as int]@ == name);
    r
}

proof fn lemma_template_named_once(k: int)
    requires
        0 < k < vocabulary().len(),
    ensures
        vocabulary()[k]@ != "template"@,
{
    reveal_strlit("template");
    reveal_strlit("rlog");
    reveal_strlit("tlog");
    reveal_strlit("undo");
    reveal_strlit("save");
    reveal_strlit("pop");
    reveal_strlit("remove-committed");
    reveal_strlit("init");
    reveal_strlit("clone");
    reveal_strlit("add");
    reveal_strlit("commit");
    reveal_strlit("restore");
    reveal_strlit("rm");
    reveal_strlit("mv");
    reveal_strlit("status");
    reveal_strlit("log");
    reveal_strlit("diff");
    reveal_strlit("show");
    reveal_strlit("branch");
    reveal_strlit("checkout");
    reveal_strlit("merge");
    reveal_strlit("rebase");
    reveal_strlit("fast-forward");
    reveal_strlit("tag");
    reveal_strlit("stash");
    reveal_strlit("pull");
    reveal_strlit("fetch");
    reveal_strlit("push");
    reveal_strlit("remote");
    reveal_strlit("submodule");
    reveal_strlit("reset");
    reveal_strlit("revert");
    reveal_strlit("clean");
    reveal_strlit("gc");
    reveal_strlit("fsck");
    reveal_strlit("archive");
    reveal_strlit("blame");
    reveal_strlit("bisect");
    reveal_strlit("cherry-pick");
    reveal_strlit("config");
    reveal_strlit("help");
    assert(vocabulary()[k]@.len() != 8 || vocabulary()[k]@[0] != 't');
}

/// The template command is chosen exactly when `template`, the first entry
/// of the vocabulary, is at the least distance from the typed subcommand:
/// being first, it wins every tie.
pub proof fn lemma_template_chosen(typed: Seq<char>, k: int)
    requires
        nearest(typed, k),
    ensures
        handler_of(vocabulary()[k]@) == Some(Handler::Template) <==> forall|j: int|
            0 <= j < vocabulary().len() ==> lev(typed, vocabulary()[0]@) <= lev(
                typed,
                #[trigger] vocabulary()[j]@,
            ),
{
    reveal_strlit("template");
    if k > 0 {
        lemma_template_named_once(k);
        assert(lev(typed, vocabulary()[k]@) < lev(typed, vocabulary()[0]@));
    }
}

} // verus!
